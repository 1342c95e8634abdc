//! 64-bit time-ordered identifiers.
//!
//! An identifier packs, from the most significant bit down, the seconds since
//! [`IRIS_EPOCH`], an issuer id, a worker id and a sequence number.

use vstd::prelude::*;

verus! {

/// Unix time, in seconds, of the instant that identifiers count from.
pub const IRIS_EPOCH: u64 = 1577836800;

/// Width of the sequence field.
pub const SEQUENCE_BITS: u8 = 8;

/// Width of the worker field.
pub const WORKER_BITS: u8 = 5;

/// Width of the issuer field.
pub const ISSUER_BITS: u8 = 5;

/// The identifier that packs the four fields. Each field is shifted to its
/// place and the results are or-ed together, so a field wider than its slot
/// spills into the slot above it.
pub open spec fn compose(timestamp: u64, issuer_id: u8, worker_id: u8, sequence: u8) -> u64 {
    (timestamp << 18) | ((issuer_id as u64) << 13) | ((worker_id as u64) << 8) | (sequence as u64)
}

/// Seconds between [`IRIS_EPOCH`] and the Unix time `unix_seconds`, reduced
/// modulo 2^64.
pub open spec fn seconds_since_epoch(unix_seconds: i64) -> u64 {
    if unix_seconds >= IRIS_EPOCH {
        (unix_seconds - IRIS_EPOCH) as u64
    } else {
        (unix_seconds - IRIS_EPOCH + 0x1_0000_0000_0000_0000) as u64
    }
}

/// Hands out identifiers for one issuer and one worker.
#[derive(Clone, Copy, Debug, PartialEq, Eq)]
pub struct SnowflakeIssuer {
    issuer_id: u8,
    worker_id: u8,
    sequence: u8,
}

/// `std::time::SystemTime::now`, its conversion into `chrono::DateTime<Utc>`
/// and `chrono::DateTime::timestamp`: the seconds that the system clock
/// stands from the start of 1970, a negative number where it stands before.
/// Nothing is promised of the number.
#[verifier::external_body]
fn unix_seconds_now() -> (seconds: i64) {
    chrono::DateTime::<chrono::Utc>::from(std::time::SystemTime::now()).timestamp()
}

impl SnowflakeIssuer {
    /// The issuer that was given at the start.
    pub closed spec fn spec_issuer_id(&self) -> u8 {
        self.issuer_id
    }

    /// The worker that was given at the start.
    pub closed spec fn spec_worker_id(&self) -> u8 {
        self.worker_id
    }

    /// The sequence number of the identifier that is handed out next.
    pub closed spec fn spec_sequence(&self) -> u8 {
        self.sequence
    }

    /// An issuer that starts its sequence at zero.
    pub fn new(issuer_id: u8, worker_id: u8) -> (issuer: Self)
        ensures
            issuer.spec_issuer_id() == issuer_id,
            issuer.spec_worker_id() == worker_id,
            issuer.spec_sequence() == 0,
    {
        Self { issuer_id, worker_id, sequence: 0 }
    }

    /// The identifier for the Unix time `unix_seconds`. The sequence number
    /// moves on by one and starts over after 255.
    pub fn generate_at(&mut self, unix_seconds: i64) -> (id: Snowflake)
        ensures
            id@ == compose(
                seconds_since_epoch(unix_seconds),
                old(self).spec_issuer_id(),
                old(self).spec_worker_id(),
                old(self).spec_sequence(),
            ),
            final(self).spec_issuer_id() == old(self).spec_issuer_id(),
            final(self).spec_worker_id() == old(self).spec_worker_id(),
            final(self).spec_sequence() == (old(self).spec_sequence() + 1) % 0x100,
    {
        let since: i128 = unix_seconds as i128 - IRIS_EPOCH as i128;
        let timestamp: u64 = if since >= 0 {
            since as u64
        } else {
            (since + 0x1_0000_0000_0000_0000) as u64
        };
        let id: u64 = (timestamp << 18) | ((self.issuer_id as u64) << 13) | ((self.worker_id as u64)
            << 8) | (self.sequence as u64);
        self.sequence = if self.sequence == 0xff {
            0
        } else {
            self.sequence + 1
        };
        Snowflake(id)
    }

    /// The identifier for the present second of the system clock. The
    /// sequence number moves on by one and starts over after 255.
    pub fn generate(&mut self) -> (id: Snowflake)
        ensures
            exists|unix_seconds: i64|
                id@ == compose(
                    seconds_since_epoch(unix_seconds),
                    old(self).spec_issuer_id(),
                    old(self).spec_worker_id(),
                    old(self).spec_sequence(),
                ),
            final(self).spec_issuer_id() == old(self).spec_issuer_id(),
            final(self).spec_worker_id() == old(self).spec_worker_id(),
            final(self).spec_sequence() == (old(self).spec_sequence() + 1) % 0x100,
    {
        let now = unix_seconds_now();
        self.generate_at(now)
    }
}

/// Where every field fits its slot, the fields of an identifier lie side
/// by side: the identifier is their weighted sum, its sequence and its
/// timestamp read back as they went in, and a later second gives a larger
/// identifier.
pub proof fn lemma_compose_in_range(
    timestamp: u64,
    later: u64,
    issuer_id: u8,
    worker_id: u8,
    sequence: u8,
)
    requires
        timestamp < later < 0x4000_0000_0000,
        issuer_id < 0x20,
        worker_id < 0x20,
    ensures
        compose(timestamp, issuer_id, worker_id, sequence) == timestamp * 0x4_0000 + issuer_id
            * 0x2000 + worker_id * 0x100 + sequence,
        compose(timestamp, issuer_id, worker_id, sequence) / 0x4_0000 == timestamp,
        compose(timestamp, issuer_id, worker_id, sequence) % 0x100 == sequence,
        compose(timestamp, issuer_id, worker_id, sequence) < compose(
            later,
            issuer_id,
            worker_id,
            sequence,
        ),
{
    lemma_compose_sum(timestamp, issuer_id, worker_id, sequence);
    lemma_compose_sum(later, issuer_id, worker_id, sequence);
}

/// Where every field fits its slot, an identifier is the weighted sum of
/// its fields.
proof fn lemma_compose_sum(timestamp: u64, issuer_id: u8, worker_id: u8, sequence: u8)
    requires
        timestamp < 0x4000_0000_0000,
        issuer_id < 0x20,
        worker_id < 0x20,
    ensures
        compose(timestamp, issuer_id, worker_id, sequence) == timestamp * 0x4_0000 + issuer_id
            * 0x2000 + worker_id * 0x100 + sequence,
{
    let t = timestamp;
    let i = issuer_id as u64;
    let w = worker_id as u64;
    let s = sequence as u64;
    assert(t < 0x4000_0000_0000 && i < 0x20 && w < 0x20 && s < 0x100 ==> ((t << 18) | (i << 13) | (w
        << 8) | s) == t * 0x4_0000 + i * 0x2000 + w * 0x100 + s) by (bit_vector);
}

/// The sequence number of an identifier is the one it was made with,
/// whatever the other fields hold.
pub proof fn lemma_compose_sequence(timestamp: u64, issuer_id: u8, worker_id: u8, sequence: u8)
    ensures
        compose(timestamp, issuer_id, worker_id, sequence) % 0x100 == sequence,
{
    let t = timestamp;
    let i = issuer_id as u64;
    let w = worker_id as u64;
    let s = sequence as u64;
    assert(i < 0x100 && w < 0x100 && s < 0x100 ==> ((t << 18) | (i << 13) | (w << 8) | s) % 0x100
        == s) by (bit_vector);
}

/// A 64-bit identifier.
#[derive(Clone, Copy, Debug, PartialEq, Eq)]
pub struct Snowflake(u64);

impl View for Snowflake {
    type V = u64;

    closed spec fn view(&self) -> u64 {
        self.0
    }
}

impl Snowflake {
    /// Wraps a raw identifier.
    pub fn new(id: u64) -> (s: Self)
        ensures
            s@ == id,
    {
        Self(id)
    }

    /// The raw identifier.
    pub fn value(&self) -> (v: u64)
        ensures
            v == self@,
    {
        self.0
    }

    /// The bits above the issuer, worker and sequence fields.
    pub fn timestamp(&self) -> (t: u64)
        ensures
            t == self@ / 0x4_0000,
    {
        let v: u64 = self.0;
        assert(v >> 18 == v / 0x4_0000) by (bit_vector);
        self.0 >> (WORKER_BITS + SEQUENCE_BITS + ISSUER_BITS)
    }

    /// The eight bits that start at the issuer field.
    pub fn issuer_id(&self) -> (i: u8)
        ensures
            i == (self@ / 0x2000) % 0x100,
    {
        let v: u64 = self.0;
        assert(((v >> 13) & 0xff) == (v / 0x2000) % 0x100) by (bit_vector);
        ((self.0 >> (WORKER_BITS + SEQUENCE_BITS)) & 0xff) as u8
    }

    /// The eight bits that start at the worker field.
    pub fn worker_id(&self) -> (w: u8)
        ensures
            w == (self@ / 0x100) % 0x100,
    {
        let v: u64 = self.0;
        assert(((v >> 8) & 0xff) == (v / 0x100) % 0x100) by (bit_vector);
        ((self.0 >> SEQUENCE_BITS) & 0xff) as u8
    }

    /// The lowest eight bits.
    pub fn sequence(&self) -> (s: u8)
        ensures
            s == self@ % 0x100,
    {
        let v: u64 = self.0;
        assert((v & 0xff) == v % 0x100) by (bit_vector);
        (self.0 & 0xff) as u8
    }
}

} // verus!
