use epics_ca::types::{EpicsEnum, EpicsTimeStamp};

#[test]
fn epics_epoch_is_1990() {
    assert_eq!(EpicsTimeStamp::epics_epoch_offset(), Some(631_152_000));
}

#[test]
fn unix_time_of_timestamp() {
    let t = EpicsTimeStamp { sec_past_epoch: 10, nsec: 500 };
    assert_eq!(t.sec(), 10);
    assert_eq!(t.nsec(), 500);
    assert_eq!(t.to_unix(), Some((631_152_010, 500)));
    let zero = EpicsTimeStamp { sec_past_epoch: 0, nsec: 0 };
    assert_eq!(zero.to_unix(), Some((631_152_000, 0)));
}

#[test]
fn nanoseconds_carry_into_seconds() {
    let t = EpicsTimeStamp { sec_past_epoch: 1, nsec: 2_500_000_000 };
    assert_eq!(t.to_unix_with_offset(100), (103, 500_000_000));
    assert_eq!(t.to_unix(), Some((631_152_003, 500_000_000)));
}

#[test]
fn timestamps_order_by_seconds_then_nanoseconds() {
    let a = EpicsTimeStamp { sec_past_epoch: 1, nsec: 900 };
    let b = EpicsTimeStamp { sec_past_epoch: 2, nsec: 0 };
    let c = EpicsTimeStamp { sec_past_epoch: 2, nsec: 1 };
    assert!(a.is_before(&b));
    assert!(b.is_before(&c));
    assert!(a.is_before(&c));
    assert!(!b.is_before(&a));
    assert!(!b.is_before(&b));
    assert!(a < b && b < c);
}

#[test]
fn enum_values() {
    assert_eq!(EpicsEnum::from_u16(3).into_u16(), 3);
    assert_eq!(EpicsEnum::from_u16(7), EpicsEnum(7));
    assert_eq!(EpicsEnum::default(), EpicsEnum(0));
}
