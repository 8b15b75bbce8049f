use gcp_auth::time::{ClockReading, Timestamp, NANOS_PER_SEC};
use std::time::{SystemTime, UNIX_EPOCH};

#[test]
fn instants_count_nanoseconds_from_the_epoch() {
    assert_eq!(NANOS_PER_SEC, 1_000_000_000);
    assert_eq!(Timestamp::after_epoch(0, 0).as_nanos(), 0);
    assert_eq!(Timestamp::before_epoch(0, 0).as_nanos(), 0);
    assert_eq!(Timestamp::after_epoch(2, 5).as_nanos(), 2_000_000_005);
    assert_eq!(Timestamp::before_epoch(2, 5).as_nanos(), -2_000_000_005);
    assert_eq!(Timestamp::from_nanos(-17).as_nanos(), -17);
    assert_eq!(
        Timestamp::after_epoch(u64::MAX, u32::MAX).as_nanos(),
        (u64::MAX as i128) * 1_000_000_000 + (u32::MAX as i128)
    );
    assert_eq!(
        Timestamp::before_epoch(u64::MAX, u32::MAX).as_nanos(),
        -((u64::MAX as i128) * 1_000_000_000 + (u32::MAX as i128))
    );
}

#[test]
fn instants_are_ordered_by_time() {
    assert!(Timestamp::before_epoch(1, 0) < Timestamp::after_epoch(0, 0));
    assert!(Timestamp::after_epoch(1, 0) < Timestamp::after_epoch(1, 1));
    assert!(Timestamp::before_epoch(2, 0) < Timestamp::before_epoch(1, 999_999_999));
    assert_eq!(Timestamp::after_epoch(1, 0), Timestamp::from_nanos(1_000_000_000));
}

#[test]
fn readings_stand_on_either_side_of_the_epoch() {
    let after = ClockReading { before_epoch: false, secs: 3, subsec_nanos: 4 };
    let before = ClockReading { before_epoch: true, secs: 3, subsec_nanos: 4 };
    assert_eq!(Timestamp::from_reading(after), Timestamp::after_epoch(3, 4));
    assert_eq!(Timestamp::from_reading(before), Timestamp::before_epoch(3, 4));
    assert_eq!(Timestamp::from_reading(before).as_nanos(), -3_000_000_004);
}

#[test]
fn now_follows_the_system_clock() {
    let before = SystemTime::now().duration_since(UNIX_EPOCH).unwrap();
    let now = Timestamp::now();
    let after = SystemTime::now().duration_since(UNIX_EPOCH).unwrap();
    assert!(Timestamp::after_epoch(before.as_secs(), before.subsec_nanos()) <= now);
    assert!(now <= Timestamp::after_epoch(after.as_secs(), after.subsec_nanos()));
    assert!(now > Timestamp::after_epoch(1_600_000_000, 0));
}

#[test]
fn seconds_are_added() {
    assert_eq!(Timestamp::after_epoch(1, 5).plus_secs(0), Timestamp::after_epoch(1, 5));
    assert_eq!(Timestamp::after_epoch(1, 5).plus_secs(100), Timestamp::after_epoch(101, 5));
    assert_eq!(Timestamp::before_epoch(1, 0).plus_secs(3), Timestamp::after_epoch(2, 0));
    assert_eq!(
        Timestamp::from_nanos(i128::MAX - 1_000_000_000).plus_secs(1),
        Timestamp::from_nanos(i128::MAX)
    );
}

#[test]
fn distance_is_compared_without_overflow() {
    let base = Timestamp::after_epoch(100, 0);
    assert!(Timestamp::after_epoch(159, 999_999_999).within_secs_after(&base, 60));
    assert!(!Timestamp::after_epoch(160, 0).within_secs_after(&base, 60));
    assert!(Timestamp::after_epoch(160, 0).at_most_secs_after(&base, 60));
    assert!(!Timestamp::after_epoch(160, 1).at_most_secs_after(&base, 60));
    assert!(Timestamp::after_epoch(50, 0).within_secs_after(&base, 0));
    assert!(!base.within_secs_after(&base, 0));
    assert!(base.at_most_secs_after(&base, 0));

    let first = Timestamp::from_nanos(i128::MIN);
    let last = Timestamp::from_nanos(i128::MAX);
    assert!(!last.within_secs_after(&first, u32::MAX));
    assert!(!last.at_most_secs_after(&first, u32::MAX));
    assert!(first.within_secs_after(&last, 0));
    assert!(first.at_most_secs_after(&last, 1));
    assert!(last.at_most_secs_after(&last, 1));
    assert!(last.within_secs_after(&last, 1));
    assert!(!last.within_secs_after(&last, 0));
}

#[test]
fn distance_agrees_with_plain_arithmetic() {
    let instants: [i128; 9] = [
        i128::MIN,
        i128::MIN + 1,
        -61_000_000_000,
        -1,
        0,
        1,
        60_000_000_000,
        i128::MAX - 1,
        i128::MAX,
    ];
    let spans: [u32; 5] = [0, 1, 20, 60, u32::MAX];
    for left in instants {
        for right in instants {
            for secs in spans {
                let span = (secs as i128) * NANOS_PER_SEC;
                let apart = left.checked_sub(right);
                let within = match apart {
                    Some(apart) => apart < span,
                    None => left < right,
                };
                let at_most = match apart {
                    Some(apart) => apart <= span,
                    None => left < right,
                };
                let (left, right) = (Timestamp::from_nanos(left), Timestamp::from_nanos(right));
                assert_eq!(left.within_secs_after(&right, secs), within);
                assert_eq!(left.at_most_secs_after(&right, secs), at_most);
            }
        }
    }
}
