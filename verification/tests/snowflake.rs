use iris_server::util::snowflake::Snowflake;
use iris_server::util::snowflake::SnowflakeIssuer;
use iris_server::util::snowflake::IRIS_EPOCH;
use iris_server::util::snowflake::ISSUER_BITS;
use iris_server::util::snowflake::SEQUENCE_BITS;
use iris_server::util::snowflake::WORKER_BITS;

#[test]
fn constants_are_as_published() {
    assert_eq!(IRIS_EPOCH, 1577836800);
    assert_eq!(SEQUENCE_BITS, 8);
    assert_eq!(WORKER_BITS, 5);
    assert_eq!(ISSUER_BITS, 5);
}

#[test]
fn snowflake_keeps_its_value() {
    assert_eq!(Snowflake::new(0).value(), 0);
    assert_eq!(Snowflake::new(u64::MAX).value(), u64::MAX);
    assert_eq!(Snowflake::new(123456789).value(), 123456789);
}

#[test]
fn fields_of_a_composed_snowflake() {
    let id = Snowflake::new((1000u64 << 18) | (1 << 13) | (2 << 8) | 3);
    assert_eq!(id.value(), 262_152_707);
    assert_eq!(id.timestamp(), 1000);
    assert_eq!(id.issuer_id(), 1);
    assert_eq!(id.worker_id(), 2 | (1 << 5));
    assert_eq!(id.sequence(), 3);
}

#[test]
fn fields_of_the_largest_snowflake() {
    let id = Snowflake::new(u64::MAX);
    assert_eq!(id.timestamp(), (1u64 << 46) - 1);
    assert_eq!(id.issuer_id(), 255);
    assert_eq!(id.worker_id(), 255);
    assert_eq!(id.sequence(), 255);
}

#[test]
fn issuer_reads_eight_bits_from_bit_thirteen() {
    let id = Snowflake::new((5u64 << 18) | (7 << 13));
    assert_eq!(id.issuer_id(), 7 | (5 << 5));
}

#[test]
fn generate_at_the_epoch() {
    let mut issuer = SnowflakeIssuer::new(1, 1);
    let id = issuer.generate_at(IRIS_EPOCH as i64);
    assert_eq!(id.value(), (1 << 13) | (1 << 8));
    assert_eq!(id.timestamp(), 0);
    assert_eq!(id.sequence(), 0);
}

#[test]
fn generate_at_a_later_second() {
    let mut issuer = SnowflakeIssuer::new(3, 4);
    let id = issuer.generate_at(IRIS_EPOCH as i64 + 86_400);
    assert_eq!(id.value(), (86_400u64 << 18) | (3 << 13) | (4 << 8));
    assert_eq!(id.value(), 22_649_267_200);
    assert_eq!(id.timestamp(), 86_400);
}

#[test]
fn generate_counts_the_sequence() {
    let mut issuer = SnowflakeIssuer::new(1, 1);
    let first = issuer.generate_at(IRIS_EPOCH as i64 + 5);
    let second = issuer.generate_at(IRIS_EPOCH as i64 + 5);
    let third = issuer.generate_at(IRIS_EPOCH as i64 + 5);
    assert_eq!(first.sequence(), 0);
    assert_eq!(second.sequence(), 1);
    assert_eq!(third.sequence(), 2);
    assert_eq!(second.value(), first.value() + 1);
    assert_eq!(third.timestamp(), 5);
}

#[test]
fn sequence_starts_over_after_255() {
    let mut issuer = SnowflakeIssuer::new(0, 0);
    let mut last = issuer.generate_at(IRIS_EPOCH as i64);
    for expected in 0..=255u16 {
        assert_eq!(last.sequence() as u16, expected);
        last = issuer.generate_at(IRIS_EPOCH as i64);
    }
    assert_eq!(last.sequence(), 0);
}

#[test]
fn later_seconds_give_larger_identifiers() {
    let mut issuer = SnowflakeIssuer::new(31, 31);
    let mut earlier = issuer.generate_at(IRIS_EPOCH as i64 + 1);
    for second in 2..50 {
        let later = issuer.generate_at(IRIS_EPOCH as i64 + second);
        assert!(earlier.value() < later.value());
        earlier = later;
    }
}

#[test]
fn seconds_before_the_epoch_wrap_around() {
    let mut issuer = SnowflakeIssuer::new(0, 0);
    let id = issuer.generate_at(IRIS_EPOCH as i64 - 1);
    assert_eq!(id.value(), u64::MAX << 18);
    let id = issuer.generate_at(-1);
    assert_eq!(id.value(), ((u64::MAX - IRIS_EPOCH) << 18) | 1);
}

#[test]
fn wide_fields_spill_into_the_slot_above() {
    let mut issuer = SnowflakeIssuer::new(255, 255);
    let id = issuer.generate_at(IRIS_EPOCH as i64);
    assert_eq!(id.value(), (255 << 13) | (255 << 8));
    assert_eq!(id.timestamp(), 7);
}

#[test]
fn generate_reads_the_clock() {
    let mut issuer = SnowflakeIssuer::new(1, 2);
    let first = issuer.generate();
    let second = issuer.generate();
    assert_eq!(first.sequence(), 0);
    assert_eq!(second.sequence(), 1);
    assert!(first.timestamp() > 200_000_000);
    assert!(first.timestamp() <= second.timestamp());
    assert_eq!(first.value() & 0x3ff00, (1 << 13) | (2 << 8));
}
