use embedded_presence_lighting::time::{seconds_to_nanos, Timestamp, NANOS_PER_SECOND};

#[test]
fn seconds_are_a_billion_nanoseconds() {
    assert_eq!(NANOS_PER_SECOND, 1_000_000_000);
    assert_eq!(seconds_to_nanos(0), 0);
    assert_eq!(seconds_to_nanos(300), 300_000_000_000);
    assert_eq!(seconds_to_nanos(u64::MAX), 18_446_744_073_709_551_615_000_000_000);
}

#[test]
fn timestamp_from_secs_and_nanos() {
    assert_eq!(Timestamp::from_secs(2).as_nanos(), 2_000_000_000);
    assert_eq!(Timestamp::from_nanos(17).as_nanos(), 17);
    assert_eq!(Timestamp::from_secs(1), Timestamp::from_nanos(1_000_000_000));
    assert_eq!(Timestamp::from_nanos(3).nanos, 3);
}

#[test]
fn checked_add_secs_adds_or_refuses() {
    let t = Timestamp::from_nanos(5);
    assert_eq!(t.checked_add_secs(0), Some(t));
    assert_eq!(t.checked_add_secs(3), Some(Timestamp::from_nanos(3_000_000_005)));
    let edge = Timestamp::from_nanos(u128::MAX - 1_000_000_000);
    assert_eq!(edge.checked_add_secs(1), Some(Timestamp::from_nanos(u128::MAX)));
    assert_eq!(edge.checked_add_secs(2), None);
    assert_eq!(Timestamp::from_nanos(u128::MAX).checked_add_secs(0), Some(Timestamp::from_nanos(u128::MAX)));
    assert_eq!(Timestamp::from_nanos(u128::MAX).checked_add_secs(1), None);
}

#[test]
fn nanos_since_saturates_at_zero() {
    let a = Timestamp::from_nanos(10);
    let b = Timestamp::from_nanos(25);
    assert_eq!(b.nanos_since(a), 15);
    assert_eq!(a.nanos_since(b), 0);
    assert_eq!(a.nanos_since(a), 0);
}
