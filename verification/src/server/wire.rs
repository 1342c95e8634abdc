//! The binary tag-based wire format shared by the envelope and every payload.
//!
//! A message is a run of fields. Each field starts with a key, the field
//! number shifted left by three bits plus a wire type in the low three bits,
//! written as a base-128 varint. Four wire types are read and written: `0`,
//! a varint value; `2`, a length (a varint) followed by that many bytes;
//! `1` and `5`, eight and four bytes that hold a number, lowest byte first.
//! The messages of this crate use the first two; the other two are read so
//! that a field that a message does not know can be passed over. For the
//! same reason a group is read, which runs from a key of wire type `3` to
//! the key of wire type `4` with the same number, with fields and groups
//! inside; a group is never written.

use vstd::prelude::*;
use vstd::bytes::lemma_auto_spec_u32_to_from_le_bytes;
use vstd::bytes::lemma_auto_spec_u64_to_from_le_bytes;
use vstd::bytes::spec_u32_from_le_bytes;
use vstd::bytes::spec_u32_to_le_bytes;
use vstd::bytes::spec_u64_from_le_bytes;
use vstd::bytes::spec_u64_to_le_bytes;
use vstd::bytes::u32_from_le_bytes;
use vstd::bytes::u32_to_le_bytes;
use vstd::bytes::u64_from_le_bytes;
use vstd::bytes::u64_to_le_bytes;

verus! {

/// Why a run of bytes is not a message.
#[derive(Clone, Copy, Debug, PartialEq, Eq, Structural)]
pub enum DecodeError {
    /// A varint ends early, runs past ten bytes or does not fit 64 bits.
    InvalidVarint,
    /// A key does not fit 32 bits.
    InvalidKey,
    /// A key carries a wire type above `5`.
    InvalidWireType,
    /// A key carries the field number zero.
    InvalidTag,
    /// A length runs past the end of the input.
    BufferUnderflow,
    /// A known field arrives with the wire type of another kind of value.
    UnexpectedWireType,
    /// A text field is not UTF-8.
    InvalidUtf8,
    /// The type identifier names no packet of the direction asked for.
    UnknownPacket,
    /// A group ends that did not start, or under another number than it
    /// started.
    UnexpectedEndGroup,
    /// A field stands more than [`GROUP_DEPTH`] groups deep inside a group.
    RecursionLimit,
}

/// Wire type of a varint value.
pub const WIRE_VARINT: u64 = 0;

/// Wire type of a length-delimited value.
pub const WIRE_BYTES: u64 = 2;

/// Wire type of a value of eight bytes.
pub const WIRE_FIXED64: u64 = 1;

/// Wire type of a value of four bytes.
pub const WIRE_FIXED32: u64 = 5;

/// Wire type of the key that starts a group.
pub const WIRE_START_GROUP: u64 = 3;

/// Wire type of the key that ends a group.
pub const WIRE_END_GROUP: u64 = 4;

/// How deep inside an outermost group a field may stand: a field of the
/// outermost group stands at the depth zero.
pub const GROUP_DEPTH: u32 = 99;

/// Largest field number.
pub const MAX_FIELD_NUMBER: u32 = 0x1fff_ffff;

/// The base-128 encoding of `value`: seven bits per byte, least significant
/// group first, the high bit set on every byte but the last.
pub open spec fn varint_bytes(value: u64) -> Seq<u8>
    decreases value,
{
    if value < 0x80 {
        seq![value as u8]
    } else {
        seq![((value % 0x80) + 0x80) as u8] + varint_bytes(value / 0x80)
    }
}

/// What a varint may still be worth once `depth` of its bytes are read: the
/// tenth byte holds one bit, every byte before it seven.
pub open spec fn varint_limit(depth: nat) -> int
    decreases 9 - depth,
{
    if depth >= 9 {
        2
    } else {
        0x80 * varint_limit(depth + 1)
    }
}

/// Reads the rest of a varint from the front of `input`, `depth` bytes into
/// it: the value of those bytes and how many there are.
pub open spec fn parse_varint_from(input: Seq<u8>, depth: nat) -> Result<(int, nat), DecodeError>
    decreases input.len(),
{
    if input.len() == 0 || depth > 9 {
        Err(DecodeError::InvalidVarint)
    } else if depth == 9 {
        if input[0] < 2 {
            Ok((input[0] as int, 1))
        } else {
            Err(DecodeError::InvalidVarint)
        }
    } else if input[0] < 0x80 {
        Ok((input[0] as int, 1))
    } else {
        match parse_varint_from(input.skip(1), depth + 1) {
            Ok((high, used)) => Ok(((input[0] - 0x80) + 0x80 * high, used + 1)),
            Err(e) => Err(e),
        }
    }
}

/// Reads one varint from the front of `input`: its value and its length.
pub open spec fn parse_varint(input: Seq<u8>) -> Result<(u64, nat), DecodeError> {
    match parse_varint_from(input, 0) {
        Ok((value, used)) => Ok((value as u64, used)),
        Err(e) => Err(e),
    }
}

/// A parsed varint is between one and ten bytes long, lies inside the input
/// and is worth less than the limit of its depth.
pub proof fn lemma_parse_varint_bounds(input: Seq<u8>, depth: nat)
    requires
        depth <= 9,
    ensures
        parse_varint_from(input, depth) matches Ok((value, used)) ==> 0 <= value < varint_limit(
            depth,
        ) && 1 <= used <= input.len() && used + depth <= 10,
    decreases input.len(),
{
    reveal_with_fuel(varint_limit, 2);
    if input.len() > 0 && depth < 9 && input[0] >= 0x80 {
        lemma_parse_varint_bounds(input.skip(1), depth + 1);
    }
    if depth < 9 {
        lemma_varint_limit_floor(depth);
    }
}

/// Every limit before the last is at least 256.
proof fn lemma_varint_limit_floor(depth: nat)
    requires
        depth < 9,
    ensures
        varint_limit(depth) >= 0x100,
        varint_limit(depth) == 0x80 * varint_limit(depth + 1),
    decreases 9 - depth,
{
    reveal_with_fuel(varint_limit, 2);
    if depth < 8 {
        lemma_varint_limit_floor(depth + 1);
    }
}

/// A varint read from the start of a field fits 64 bits.
pub proof fn lemma_varint_limit_top()
    ensures
        varint_limit(0) == 0x1_0000_0000_0000_0000,
{
    reveal_with_fuel(varint_limit, 10);
}

/// A varint followed by anything parses back to its value and its length.
pub proof fn lemma_parse_varint_bytes(value: u64, rest: Seq<u8>, depth: nat)
    requires
        depth <= 9,
        value < varint_limit(depth),
    ensures
        parse_varint_from(varint_bytes(value) + rest, depth) == Ok::<(int, nat), DecodeError>(
            (value as int, varint_bytes(value).len()),
        ),
    decreases value,
{
    reveal_with_fuel(varint_limit, 2);
    let input = varint_bytes(value) + rest;
    if value >= 0x80 {
        lemma_varint_limit_floor(depth);
        assert(input.skip(1) =~= varint_bytes(value / 0x80) + rest);
        lemma_parse_varint_bytes(value / 0x80, rest, depth + 1);
    }
}

/// A varint is between one and ten bytes long.
pub proof fn lemma_varint_bytes_len(value: u64)
    ensures
        1 <= varint_bytes(value).len() <= 10,
{
    lemma_varint_limit_top();
    lemma_parse_varint_bytes(value, Seq::empty(), 0);
    assert(varint_bytes(value) + Seq::<u8>::empty() =~= varint_bytes(value));
    lemma_parse_varint_bounds(varint_bytes(value), 0);
}

/// Appends the varint of `value` to `buf`.
pub fn encode_varint(value: u64, buf: &mut Vec<u8>)
    ensures
        final(buf)@ == old(buf)@ + varint_bytes(value),
{
    let mut rest: u64 = value;
    while rest >= 0x80
        invariant
            buf@ + varint_bytes(rest) == old(buf)@ + varint_bytes(value),
        decreases rest,
    {
        let byte: u8 = ((rest % 0x80) + 0x80) as u8;
        proof {
            assert(buf@.push(byte) + varint_bytes(rest / 0x80) =~= buf@ + varint_bytes(rest));
        }
        buf.push(byte);
        rest = rest / 0x80;
    }
    proof {
        assert(buf@.push(rest as u8) =~= buf@ + varint_bytes(rest));
    }
    buf.push(rest as u8);
}

/// Reads the rest of a varint that starts at `pos`, `depth` bytes into it.
fn decode_varint_from(buf: &[u8], pos: usize, depth: u8) -> (r: Result<(u64, usize), DecodeError>)
    requires
        pos <= buf.len(),
        depth <= 9,
    ensures
        match r {
            Ok((value, used)) => parse_varint_from(buf@.skip(pos as int), depth as nat) == Ok::<
                (int, nat),
                DecodeError,
            >((value as int, used as nat)),
            Err(e) => parse_varint_from(buf@.skip(pos as int), depth as nat) == Err::<
                (int, nat),
                DecodeError,
            >(e),
        },
    decreases buf.len() - pos,
{
    if pos >= buf.len() {
        return Err(DecodeError::InvalidVarint);
    }
    let byte: u8 = buf[pos];
    if depth == 9 {
        if byte < 2 {
            Ok((byte as u64, 1))
        } else {
            Err(DecodeError::InvalidVarint)
        }
    } else if byte < 0x80 {
        Ok((byte as u64, 1))
    } else {
        proof {
            assert(buf@.skip(pos as int).skip(1) =~= buf@.skip(pos + 1));
            lemma_parse_varint_bounds(buf@.skip(pos + 1), (depth + 1) as nat);
            lemma_varint_limit_floor(depth as nat);
            lemma_varint_limit_top();
            lemma_varint_limit_monotone(depth as nat);
        }
        match decode_varint_from(buf, pos + 1, depth + 1) {
            Ok((high, used)) => Ok((((byte - 0x80) as u64) + 0x80 * high, used + 1)),
            Err(e) => Err(e),
        }
    }
}

/// No limit exceeds the one at the start of a varint.
proof fn lemma_varint_limit_monotone(depth: nat)
    requires
        depth <= 9,
    ensures
        varint_limit(depth) <= varint_limit(0),
    decreases depth,
{
    reveal_with_fuel(varint_limit, 2);
    if depth > 0 {
        lemma_varint_limit_floor((depth - 1) as nat);
        lemma_varint_limit_monotone((depth - 1) as nat);
    }
}

/// Reads one varint at `pos`: its value and the position after it. Fails
/// with [`DecodeError::InvalidVarint`] exactly when [`parse_varint`] does.
pub fn decode_varint(buf: &[u8], pos: usize) -> (r: Result<(u64, usize), DecodeError>)
    requires
        pos <= buf.len(),
    ensures
        match r {
            Ok((value, next)) => pos < next <= buf.len() && parse_varint(buf@.skip(pos as int))
                == Ok::<(u64, nat), DecodeError>((value, (next - pos) as nat)),
            Err(e) => parse_varint(buf@.skip(pos as int)) == Err::<(u64, nat), DecodeError>(e),
        },
{
    proof {
        lemma_parse_varint_bounds(buf@.skip(pos as int), 0);
        lemma_varint_limit_top();
    }
    match decode_varint_from(buf, pos, 0) {
        Ok((value, used)) => Ok((value, pos + used)),
        Err(e) => Err(e),
    }
}

/// The value of one field.
#[derive(Clone, Debug, PartialEq, Eq)]
pub enum WireValue {
    /// Wire type `0`.
    Varint(u64),
    /// Wire type `2`.
    Bytes(Vec<u8>),
    /// Wire type `1`.
    Fixed64(u64),
    /// Wire type `5`.
    Fixed32(u32),
    /// Wire type `3`: what stands behind the key that starts a group, up to
    /// and with the key that ends it.
    Group(Vec<u8>),
}

/// One field of a message as it stands on the wire.
#[derive(Clone, Debug, PartialEq, Eq)]
pub struct Field {
    pub number: u32,
    pub value: WireValue,
}

/// What a [`WireValue`] holds.
pub enum WireValueView {
    Varint(u64),
    Bytes(Seq<u8>),
    Fixed64(u64),
    Fixed32(u32),
    Group(Seq<u8>),
}

/// What a [`Field`] holds.
pub struct FieldView {
    pub number: u32,
    pub value: WireValueView,
}

impl View for WireValue {
    type V = WireValueView;

    open spec fn view(&self) -> WireValueView {
        match self {
            WireValue::Varint(v) => WireValueView::Varint(*v),
            WireValue::Bytes(b) => WireValueView::Bytes(b@),
            WireValue::Fixed64(v) => WireValueView::Fixed64(*v),
            WireValue::Fixed32(v) => WireValueView::Fixed32(*v),
            WireValue::Group(b) => WireValueView::Group(b@),
        }
    }
}

impl View for Field {
    type V = FieldView;

    open spec fn view(&self) -> FieldView {
        FieldView { number: self.number, value: self.value@ }
    }
}

/// The fields of a list, each by its view.
pub open spec fn fields_view(fields: Seq<Field>) -> Seq<FieldView> {
    Seq::new(fields.len(), |i: int| fields[i]@)
}

/// The key of a field: its number above its wire type.
pub open spec fn field_key(number: u32, wire_type: u64) -> u64 {
    (number * 8 + wire_type) as u64
}

/// A field that can be written: its number is in range, its length fits
/// the length prefix, and it is no group.
pub open spec fn valid_field(field: FieldView) -> bool {
    &&& 1 <= field.number <= MAX_FIELD_NUMBER
    &&& field.value matches WireValueView::Bytes(bytes) ==> bytes.len() <= u64::MAX
    &&& !(field.value is Group)
}

/// Every field of the list can be written.
pub open spec fn valid_fields(fields: Seq<FieldView>) -> bool {
    forall|i: int| 0 <= i < fields.len() ==> valid_field(#[trigger] fields[i])
}

/// The bytes of one field: key, then the value or the length and the bytes.
pub open spec fn field_bytes(field: FieldView) -> Seq<u8> {
    match field.value {
        WireValueView::Varint(value) => varint_bytes(field_key(field.number, WIRE_VARINT))
            + varint_bytes(value),
        WireValueView::Bytes(bytes) => varint_bytes(field_key(field.number, WIRE_BYTES))
            + varint_bytes(bytes.len() as u64) + bytes,
        WireValueView::Fixed64(value) => varint_bytes(field_key(field.number, WIRE_FIXED64))
            + spec_u64_to_le_bytes(value),
        WireValueView::Fixed32(value) => varint_bytes(field_key(field.number, WIRE_FIXED32))
            + spec_u32_to_le_bytes(value),
        WireValueView::Group(bytes) => varint_bytes(field_key(field.number, WIRE_START_GROUP))
            + bytes,
    }
}

/// The bytes of a message: its fields one after another.
pub open spec fn fields_bytes(fields: Seq<FieldView>) -> Seq<u8>
    decreases fields.len(),
{
    if fields.len() == 0 {
        Seq::empty()
    } else {
        field_bytes(fields[0]) + fields_bytes(fields.skip(1))
    }
}

/// Whether a wire type is one that is read.
pub open spec fn known_wire_type(wire_type: u64) -> bool {
    wire_type <= 5
}

/// Reads a value of one of the wire types `0`, `1`, `2` and `5` from the
/// front of `tail`: the value and its length.
pub open spec fn parse_flat_value(wire_type: u64, tail: Seq<u8>) -> Result<
    (WireValueView, nat),
    DecodeError,
> {
    if wire_type == WIRE_FIXED64 {
        if tail.len() < 8 {
            Err(DecodeError::BufferUnderflow)
        } else {
            Ok((WireValueView::Fixed64(spec_u64_from_le_bytes(tail.take(8))), 8))
        }
    } else if wire_type == WIRE_FIXED32 {
        if tail.len() < 4 {
            Err(DecodeError::BufferUnderflow)
        } else {
            Ok((WireValueView::Fixed32(spec_u32_from_le_bytes(tail.take(4))), 4))
        }
    } else {
        match parse_varint(tail) {
            Err(e) => Err(e),
            Ok((value, used)) => if wire_type == WIRE_VARINT {
                Ok((WireValueView::Varint(value), used))
            } else if value > tail.len() - used {
                Err(DecodeError::BufferUnderflow)
            } else {
                Ok(
                    (
                        WireValueView::Bytes(tail.subrange(used as int, used + value)),
                        (used + value) as nat,
                    ),
                )
            },
        }
    }
}

/// A key that can start a field or end a group: it fits 32 bits, its wire
/// type is one that is read, and its field number is not zero.
pub open spec fn check_key(key: u64) -> Result<(), DecodeError> {
    if key > u32::MAX {
        Err(DecodeError::InvalidKey)
    } else if !known_wire_type(key % 8) {
        Err(DecodeError::InvalidWireType)
    } else if key / 8 == 0 {
        Err(DecodeError::InvalidTag)
    } else {
        Ok(())
    }
}

/// How long the rest of a group is that started under `number`: what
/// stands at the front of `input`, field by field and group by group, up
/// to and with the key that ends the group. A field of the group may
/// stand if `depth` is not zero, and a group inside it has one less.
pub open spec fn group_len(input: Seq<u8>, number: u64, depth: nat) -> Result<nat, DecodeError>
    decreases input.len(),
{
    match parse_varint(input) {
        Err(e) => Err(e),
        Ok((key, key_len)) => {
            let tail = input.skip(key_len as int);
            if check_key(key) is Err {
                Err(check_key(key)->Err_0)
            } else if key % 8 == WIRE_END_GROUP {
                if key / 8 == number {
                    Ok(key_len)
                } else {
                    Err(DecodeError::UnexpectedEndGroup)
                }
            } else {
                proof {
                    lemma_parse_varint_bounds(input, 0);
                }
                let inner = if depth == 0 {
                    Err(DecodeError::RecursionLimit)
                } else if key % 8 == WIRE_START_GROUP {
                    group_len(tail, key / 8, (depth - 1) as nat)
                } else {
                    match parse_flat_value(key % 8, tail) {
                        Ok((_, used)) => Ok(used),
                        Err(e) => Err(e),
                    }
                };
                match inner {
                    Err(e) => Err(e),
                    Ok(used) => if used > tail.len() {
                        Err(DecodeError::BufferUnderflow)
                    } else {
                        match group_len(tail.skip(used as int), number, depth) {
                            Err(e) => Err(e),
                            Ok(rest) => Ok(key_len + used + rest),
                        }
                    },
                }
            }
        },
    }
}

/// The rest of a group is at least one byte long and lies inside the
/// input.
pub proof fn lemma_group_len_bounds(input: Seq<u8>, number: u64, depth: nat)
    ensures
        group_len(input, number, depth) matches Ok(len) ==> 1 <= len <= input.len(),
    decreases input.len(),
{
    lemma_parse_varint_bounds(input, 0);
    if let Ok((key, key_len)) = parse_varint(input) {
        let tail = input.skip(key_len as int);
        lemma_parse_varint_bounds(tail, 0);
        if check_key(key) is Ok && key % 8 != WIRE_END_GROUP && depth > 0 {
            if key % 8 == WIRE_START_GROUP {
                lemma_group_len_bounds(tail, key / 8, (depth - 1) as nat);
                if let Ok(used) = group_len(tail, key / 8, (depth - 1) as nat) {
                    lemma_group_len_bounds(tail.skip(used as int), number, depth);
                }
            } else if let Ok((_, used)) = parse_flat_value(key % 8, tail) {
                if used <= tail.len() {
                    lemma_group_len_bounds(tail.skip(used as int), number, depth);
                }
            }
        }
    }
}

/// Reads a value of the wire type `wire_type` from the front of `tail`,
/// behind a key with the field number `number`: the value and its length.
pub open spec fn parse_value(wire_type: u64, number: u64, tail: Seq<u8>) -> Result<
    (WireValueView, nat),
    DecodeError,
> {
    if wire_type == WIRE_END_GROUP {
        Err(DecodeError::UnexpectedEndGroup)
    } else if wire_type == WIRE_START_GROUP {
        match group_len(tail, number, GROUP_DEPTH as nat) {
            Ok(len) => Ok((WireValueView::Group(tail.take(len as int)), len)),
            Err(e) => Err(e),
        }
    } else {
        parse_flat_value(wire_type, tail)
    }
}

/// Reads one field from the front of `input`: the field and its length.
pub open spec fn parse_field(input: Seq<u8>) -> Result<(FieldView, nat), DecodeError> {
    match parse_varint(input) {
        Err(e) => Err(e),
        Ok((key, key_len)) => {
            if check_key(key) is Err {
                Err(check_key(key)->Err_0)
            } else {
                match parse_value(key % 8, key / 8, input.skip(key_len as int)) {
                    Err(e) => Err(e),
                    Ok((value, used)) => Ok(
                        (FieldView { number: (key / 8) as u32, value }, key_len + used),
                    ),
                }
            }
        },
    }
}

/// A parsed field is at least two bytes long and lies inside the input.
/// Unless it is a group, it can be written.
pub proof fn lemma_parse_field_bounds(input: Seq<u8>)
    ensures
        parse_field(input) matches Ok((field, used)) ==> 2 <= used <= input.len() && (valid_field(
            field,
        ) || field.value is Group),
{
    lemma_parse_varint_bounds(input, 0);
    if let Ok((key, key_len)) = parse_varint(input) {
        lemma_parse_varint_bounds(input.skip(key_len as int), 0);
        lemma_group_len_bounds(input.skip(key_len as int), key / 8, GROUP_DEPTH as nat);
    }
}

/// Reads a whole message: the fields of `input` in the order they stand in.
pub open spec fn parse_fields(input: Seq<u8>) -> Result<Seq<FieldView>, DecodeError>
    decreases input.len(),
{
    if input.len() == 0 {
        Ok(Seq::empty())
    } else {
        match parse_field(input) {
            Err(e) => Err(e),
            Ok((field, used)) => {
                proof {
                    lemma_parse_field_bounds(input);
                }
                match parse_fields(input.skip(used as int)) {
                    Err(e) => Err(e),
                    Ok(rest) => Ok(seq![field] + rest),
                }
            },
        }
    }
}

/// A written field followed by anything parses back to itself.
pub proof fn lemma_parse_field_bytes(field: FieldView, rest: Seq<u8>)
    requires
        valid_field(field),
    ensures
        parse_field(field_bytes(field) + rest) == Ok::<(FieldView, nat), DecodeError>(
            (field, field_bytes(field).len()),
        ),
        field_bytes(field).len() >= 2,
{
    lemma_varint_limit_top();
    let input = field_bytes(field) + rest;
    match field.value {
        WireValueView::Varint(value) => {
            let key = field_key(field.number, WIRE_VARINT);
            let key_bytes = varint_bytes(key);
            let tail = varint_bytes(value) + rest;
            lemma_varint_bytes_len(key);
            lemma_varint_bytes_len(value);
            assert(input =~= key_bytes + tail);
            lemma_parse_varint_bytes(key, tail, 0);
            assert(input.skip(key_bytes.len() as int) =~= tail);
            lemma_parse_varint_bytes(value, rest, 0);
        },
        WireValueView::Bytes(bytes) => {
            let key = field_key(field.number, WIRE_BYTES);
            let key_bytes = varint_bytes(key);
            let len_bytes = varint_bytes(bytes.len() as u64);
            let tail = len_bytes + (bytes + rest);
            lemma_varint_bytes_len(key);
            lemma_varint_bytes_len(bytes.len() as u64);
            assert(input =~= key_bytes + tail);
            lemma_parse_varint_bytes(key, tail, 0);
            assert(input.skip(key_bytes.len() as int) =~= tail);
            lemma_parse_varint_bytes(bytes.len() as u64, bytes + rest, 0);
            assert(tail.subrange(len_bytes.len() as int, (len_bytes.len() + bytes.len()) as int)
                =~= bytes);
        },
        WireValueView::Fixed64(value) => {
            let key = field_key(field.number, WIRE_FIXED64);
            let key_bytes = varint_bytes(key);
            let tail = spec_u64_to_le_bytes(value) + rest;
            lemma_varint_bytes_len(key);
            lemma_auto_spec_u64_to_from_le_bytes();
            assert(input =~= key_bytes + tail);
            lemma_parse_varint_bytes(key, tail, 0);
            assert(input.skip(key_bytes.len() as int) =~= tail);
            assert(tail.take(8) =~= spec_u64_to_le_bytes(value));
        },
        WireValueView::Fixed32(value) => {
            let key = field_key(field.number, WIRE_FIXED32);
            let key_bytes = varint_bytes(key);
            let tail = spec_u32_to_le_bytes(value) + rest;
            lemma_varint_bytes_len(key);
            lemma_auto_spec_u32_to_from_le_bytes();
            assert(input =~= key_bytes + tail);
            lemma_parse_varint_bytes(key, tail, 0);
            assert(input.skip(key_bytes.len() as int) =~= tail);
            assert(tail.take(4) =~= spec_u32_to_le_bytes(value));
        },
        WireValueView::Group(_) => {},
    }
}

/// Writing two lists one after the other writes their concatenation.
pub proof fn lemma_fields_bytes_concat(front: Seq<FieldView>, back: Seq<FieldView>)
    ensures
        fields_bytes(front + back) == fields_bytes(front) + fields_bytes(back),
    decreases front.len(),
{
    if front.len() == 0 {
        assert(front + back =~= back);
        assert(fields_bytes(front) + fields_bytes(back) =~= fields_bytes(back));
    } else {
        assert((front + back).skip(1) =~= front.skip(1) + back);
        lemma_fields_bytes_concat(front.skip(1), back);
        assert(fields_bytes(front + back) =~= fields_bytes(front) + fields_bytes(back));
    }
}

/// Writing a list of one field writes that field.
pub proof fn lemma_fields_bytes_single(field: FieldView)
    ensures
        fields_bytes(seq![field]) == field_bytes(field),
{
    reveal_with_fuel(fields_bytes, 2);
    assert(seq![field].skip(1) =~= Seq::<FieldView>::empty());
    assert(fields_bytes(seq![field]) =~= field_bytes(field));
}

/// Writing one more field appends its bytes.
pub proof fn lemma_fields_bytes_push(fields: Seq<FieldView>, last: FieldView)
    ensures
        fields_bytes(fields.push(last)) == fields_bytes(fields) + field_bytes(last),
{
    lemma_fields_bytes_concat(fields, seq![last]);
    lemma_fields_bytes_single(last);
    assert(fields.push(last) =~= fields + seq![last]);
}

/// Reading what was written gives the fields back: for every list of valid
/// fields, parsing its bytes succeeds with that list.
pub proof fn lemma_parse_fields_bytes(fields: Seq<FieldView>)
    requires
        valid_fields(fields),
    ensures
        parse_fields(fields_bytes(fields)) == Ok::<Seq<FieldView>, DecodeError>(fields),
    decreases fields.len(),
{
    if fields.len() == 0 {
        assert(fields =~= Seq::empty());
    } else {
        let first = fields[0];
        let rest = fields.skip(1);
        let input = fields_bytes(fields);
        lemma_parse_field_bytes(first, fields_bytes(rest));
        lemma_parse_fields_bytes(rest);
        assert(input.skip(field_bytes(first).len() as int) =~= fields_bytes(rest));
        assert(seq![first] + rest =~= fields);
    }
}

/// Appends `bytes` to `buf`.
pub fn append_bytes(buf: &mut Vec<u8>, bytes: &[u8])
    ensures
        final(buf)@ == old(buf)@ + bytes@,
{
    let mut i: usize = 0;
    while i < bytes.len()
        invariant
            i <= bytes.len(),
            buf@ == old(buf)@ + bytes@.take(i as int),
        decreases bytes.len() - i,
    {
        proof {
            assert(bytes@.take(i + 1) =~= bytes@.take(i as int).push(bytes@[i as int]));
            assert((old(buf)@ + bytes@.take(i as int)).push(bytes@[i as int]) =~= old(buf)@
                + bytes@.take(i + 1));
        }
        buf.push(bytes[i]);
        i = i + 1;
    }
    proof {
        assert(bytes@.take(i as int) =~= bytes@);
    }
}

/// Copies the bytes of `buf` from `start` up to `end`.
pub fn copy_range(buf: &[u8], start: usize, end: usize) -> (out: Vec<u8>)
    requires
        start <= end <= buf.len(),
    ensures
        out@ == buf@.subrange(start as int, end as int),
{
    let mut out: Vec<u8> = Vec::new();
    let mut i: usize = start;
    while i < end
        invariant
            start <= i <= end <= buf.len(),
            out@ == buf@.subrange(start as int, i as int),
        decreases end - i,
    {
        proof {
            let front = buf@.subrange(start as int, i as int);
            assert(buf@.subrange(start as int, i + 1) =~= front.push(buf@[i as int]));
        }
        out.push(buf[i]);
        i = i + 1;
    }
    out
}

/// Appends `field` to `buf`.
pub fn encode_field(field: &Field, buf: &mut Vec<u8>)
    requires
        1 <= field.number <= MAX_FIELD_NUMBER,
    ensures
        final(buf)@ == old(buf)@ + field_bytes(field@),
{
    match &field.value {
        WireValue::Varint(value) => {
            encode_varint(field.number as u64 * 8, buf);
            encode_varint(*value, buf);
        },
        WireValue::Bytes(bytes) => {
            encode_varint(field.number as u64 * 8 + 2, buf);
            encode_varint(bytes.len() as u64, buf);
            append_bytes(buf, bytes.as_slice());
        },
        WireValue::Fixed64(value) => {
            encode_varint(field.number as u64 * 8 + 1, buf);
            let bytes = u64_to_le_bytes(*value);
            append_bytes(buf, bytes.as_slice());
        },
        WireValue::Fixed32(value) => {
            encode_varint(field.number as u64 * 8 + 5, buf);
            let bytes = u32_to_le_bytes(*value);
            append_bytes(buf, bytes.as_slice());
        },
        WireValue::Group(bytes) => {
            encode_varint(field.number as u64 * 8 + 3, buf);
            append_bytes(buf, bytes.as_slice());
        },
    }
    proof {
        assert(buf@ =~= old(buf)@ + field_bytes(field@));
    }
}

/// The bytes of a message with the fields `fields`.
pub fn encode_fields(fields: &Vec<Field>) -> (bytes: Vec<u8>)
    requires
        valid_fields(fields_view(fields@)),
    ensures
        bytes@ == fields_bytes(fields_view(fields@)),
{
    let mut bytes: Vec<u8> = Vec::new();
    let mut i: usize = 0;
    let ghost all = fields_view(fields@);
    proof {
        assert(bytes@ =~= fields_bytes(all.take(0)));
    }
    while i < fields.len()
        invariant
            i <= fields.len(),
            all == fields_view(fields@),
            valid_fields(all),
            bytes@ == fields_bytes(all.take(i as int)),
        decreases fields.len() - i,
    {
        proof {
            assert(valid_field(all[i as int]));
            lemma_fields_bytes_push(all.take(i as int), all[i as int]);
            assert(all.take(i + 1) =~= all.take(i as int).push(all[i as int]));
        }
        encode_field(&fields[i], &mut bytes);
        i = i + 1;
    }
    proof {
        assert(all.take(i as int) =~= all);
    }
    bytes
}

/// Reads the key at `pos`: the key, checked, and the position after it.
fn decode_key(buf: &[u8], pos: usize) -> (r: Result<(u64, usize), DecodeError>)
    requires
        pos <= buf.len(),
    ensures
        match r {
            Ok((key, next)) => {
                &&& pos < next <= buf.len()
                &&& parse_varint(buf@.skip(pos as int)) == Ok::<(u64, nat), DecodeError>(
                    (key, (next - pos) as nat),
                )
                &&& check_key(key) is Ok
            },
            Err(e) => match parse_varint(buf@.skip(pos as int)) {
                Ok((key, _)) => check_key(key) == Err::<(), DecodeError>(e),
                Err(early) => early == e,
            },
        },
{
    let (key, next) = match decode_varint(buf, pos) {
        Ok(pair) => pair,
        Err(e) => {
            return Err(e);
        },
    };
    if key > 0xffff_ffff {
        Err(DecodeError::InvalidKey)
    } else if key % 8 > 5 {
        Err(DecodeError::InvalidWireType)
    } else if key / 8 == 0 {
        Err(DecodeError::InvalidTag)
    } else {
        Ok((key, next))
    }
}

/// Reads a value of one of the wire types `0`, `1`, `2` and `5` at `pos`:
/// the value and the position after it.
fn decode_flat_value(buf: &[u8], pos: usize, wire_type: u64) -> (r: Result<
    (WireValue, usize),
    DecodeError,
>)
    requires
        pos <= buf.len(),
        wire_type == 0 || wire_type == 1 || wire_type == 2 || wire_type == 5,
    ensures
        match r {
            Ok((value, next)) => pos <= next <= buf.len() && parse_flat_value(
                wire_type,
                buf@.skip(pos as int),
            ) == Ok::<(WireValueView, nat), DecodeError>((value@, (next - pos) as nat)),
            Err(e) => parse_flat_value(wire_type, buf@.skip(pos as int)) == Err::<
                (WireValueView, nat),
                DecodeError,
            >(e),
        },
{
    let ghost tail = buf@.skip(pos as int);
    proof {
        lemma_parse_varint_bounds(tail, 0);
    }
    if wire_type == 1 {
        if buf.len() - pos < 8 {
            return Err(DecodeError::BufferUnderflow);
        }
        let bytes = copy_range(buf, pos, pos + 8);
        proof {
            assert(tail.take(8) =~= bytes@);
        }
        return Ok((WireValue::Fixed64(u64_from_le_bytes(bytes.as_slice())), pos + 8));
    }
    if wire_type == 5 {
        if buf.len() - pos < 4 {
            return Err(DecodeError::BufferUnderflow);
        }
        let bytes = copy_range(buf, pos, pos + 4);
        proof {
            assert(tail.take(4) =~= bytes@);
        }
        return Ok((WireValue::Fixed32(u32_from_le_bytes(bytes.as_slice())), pos + 4));
    }
    let (value, after_value) = match decode_varint(buf, pos) {
        Ok(pair) => pair,
        Err(e) => {
            return Err(e);
        },
    };
    if wire_type == 0 {
        Ok((WireValue::Varint(value), after_value))
    } else if value > (buf.len() - after_value) as u64 {
        Err(DecodeError::BufferUnderflow)
    } else {
        let end: usize = after_value + value as usize;
        let bytes = copy_range(buf, after_value, end);
        proof {
            let used = after_value - pos;
            assert(tail.subrange(used, used + value) =~= buf@.subrange(
                after_value as int,
                end as int,
            ));
        }
        Ok((WireValue::Bytes(bytes), end))
    }
}

/// The outcome of reading the rest of a group once `front` bytes of it
/// have been read.
pub open spec fn group_after(front: int, rest: Result<nat, DecodeError>) -> Result<
    nat,
    DecodeError,
> {
    match rest {
        Ok(len) => Ok((front + len) as nat),
        Err(e) => Err(e),
    }
}

/// Finds the end of the group that started under `number` and whose rest
/// starts at `pos`: the position after the key that ends it.
fn skip_group(buf: &[u8], pos: usize, number: u64, depth: u32) -> (r: Result<usize, DecodeError>)
    requires
        pos <= buf.len(),
    ensures
        match r {
            Ok(next) => pos < next <= buf.len() && group_len(
                buf@.skip(pos as int),
                number,
                depth as nat,
            ) == Ok::<nat, DecodeError>((next - pos) as nat),
            Err(e) => group_len(buf@.skip(pos as int), number, depth as nat) == Err::<
                nat,
                DecodeError,
            >(e),
        },
    decreases depth,
{
    let mut at: usize = pos;
    let ghost whole = group_len(buf@.skip(pos as int), number, depth as nat);
    loop
        invariant
            pos <= at <= buf.len(),
            whole == group_len(buf@.skip(pos as int), number, depth as nat),
            whole == group_after(at - pos, group_len(buf@.skip(at as int), number, depth as nat)),
        decreases buf.len() - at,
    {
        let ghost input = buf@.skip(at as int);
        proof {
            lemma_parse_varint_bounds(input, 0);
        }
        let (key, after_key) = match decode_key(buf, at) {
            Ok(pair) => pair,
            Err(e) => {
                return Err(e);
            },
        };
        proof {
            assert(input.skip(after_key - at) =~= buf@.skip(after_key as int));
        }
        let wire_type: u64 = key % 8;
        if wire_type == 4 {
            if key / 8 == number {
                return Ok(after_key);
            } else {
                return Err(DecodeError::UnexpectedEndGroup);
            }
        }
        if depth == 0 {
            return Err(DecodeError::RecursionLimit);
        }
        let after_value: usize = if wire_type == 3 {
            match skip_group(buf, after_key, key / 8, depth - 1) {
                Ok(next) => next,
                Err(e) => {
                    return Err(e);
                },
            }
        } else {
            match decode_flat_value(buf, after_key, wire_type) {
                Ok((_, next)) => next,
                Err(e) => {
                    return Err(e);
                },
            }
        };
        proof {
            assert(buf@.skip(after_key as int).skip(after_value - after_key) =~= buf@.skip(
                after_value as int,
            ));
        }
        at = after_value;
    }
}

/// Reads the field that starts at `pos`: the field and the position after
/// it. Fails exactly when, and as, [`parse_field`] does.
pub fn decode_field(buf: &[u8], pos: usize) -> (r: Result<(Field, usize), DecodeError>)
    requires
        pos <= buf.len(),
    ensures
        match r {
            Ok((field, next)) => pos < next <= buf.len() && parse_field(buf@.skip(pos as int))
                == Ok::<(FieldView, nat), DecodeError>((field@, (next - pos) as nat)),
            Err(e) => parse_field(buf@.skip(pos as int)) == Err::<(FieldView, nat), DecodeError>(
                e,
            ),
        },
{
    let ghost input = buf@.skip(pos as int);
    let (key, after_key) = match decode_key(buf, pos) {
        Ok(pair) => pair,
        Err(e) => {
            return Err(e);
        },
    };
    proof {
        assert(input.skip(after_key - pos) =~= buf@.skip(after_key as int));
    }
    let ghost tail = buf@.skip(after_key as int);
    let wire_type: u64 = key % 8;
    let number: u32 = (key / 8) as u32;
    if wire_type == 4 {
        Err(DecodeError::UnexpectedEndGroup)
    } else if wire_type == 3 {
        let end = skip_group(buf, after_key, key / 8, GROUP_DEPTH)?;
        let bytes = copy_range(buf, after_key, end);
        proof {
            assert(tail.take(end - after_key) =~= bytes@);
        }
        Ok((Field { number, value: WireValue::Group(bytes) }, end))
    } else {
        let (value, next) = decode_flat_value(buf, after_key, wire_type)?;
        Ok((Field { number, value }, next))
    }
}

/// Reads a whole message. Fails exactly when, and as, [`parse_fields`]
/// does; otherwise returns the fields in the order they stand in.
pub fn decode_fields(buf: &[u8]) -> (r: Result<Vec<Field>, DecodeError>)
    ensures
        match r {
            Ok(fields) => parse_fields(buf@) == Ok::<Seq<FieldView>, DecodeError>(
                fields_view(fields@),
            ),
            Err(e) => parse_fields(buf@) == Err::<Seq<FieldView>, DecodeError>(e),
        },
{
    let mut fields: Vec<Field> = Vec::new();
    let mut pos: usize = 0;
    proof {
        assert(buf@.skip(0) =~= buf@);
        if let Ok(all) = parse_fields(buf@) {
            assert(fields_view(fields@) + all =~= all);
        }
    }
    while pos < buf.len()
        invariant
            pos <= buf.len(),
            parse_fields(buf@) == prepend_fields(
                fields_view(fields@),
                parse_fields(buf@.skip(pos as int)),
            ),
        decreases buf.len() - pos,
    {
        let ghost before = fields_view(fields@);
        match decode_field(buf, pos) {
            Err(e) => {
                return Err(e);
            },
            Ok((field, next)) => {
                proof {
                    assert(buf@.skip(pos as int).skip(next - pos) =~= buf@.skip(next as int));
                    assert(fields_view(fields@.push(field)) =~= before.push(field@));
                    if let Ok(rest) = parse_fields(buf@.skip(next as int)) {
                        assert(before + (seq![field@] + rest) =~= before.push(field@) + rest);
                    }
                }
                fields.push(field);
                pos = next;
            },
        }
    }
    proof {
        assert(fields_view(fields@) + Seq::<FieldView>::empty() =~= fields_view(fields@));
    }
    Ok(fields)
}

/// The outcome of a parse once `front` has been read before it.
pub open spec fn prepend_fields(
    front: Seq<FieldView>,
    tail: Result<Seq<FieldView>, DecodeError>,
) -> Result<Seq<FieldView>, DecodeError> {
    match tail {
        Ok(rest) => Ok(front + rest),
        Err(e) => Err(e),
    }
}

} // verus!
