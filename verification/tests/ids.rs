use epics_ca::types::{
    Alarm, AlarmCondition, AlarmSeverity, DbField, DbRequest, Dbe, EventMask, FieldId, RequestId,
};

#[test]
fn field_ids_round_trip() {
    for raw in -3..12 {
        match FieldId::try_from_raw(raw) {
            Some(id) => {
                assert!((0..7).contains(&raw));
                assert_eq!(id.raw(), raw);
            }
            None => assert!(!(0..7).contains(&raw)),
        }
    }
    assert_eq!(FieldId::try_from_raw(0), Some(FieldId::String));
    assert_eq!(FieldId::try_from_raw(4), Some(FieldId::Char));
    assert_eq!(FieldId::try_from_raw(6), Some(FieldId::Double));
    assert_eq!(FieldId::try_from_raw(7), None);
}

#[test]
fn request_ids_round_trip() {
    for raw in -3..45 {
        match RequestId::try_from_raw(raw) {
            Some(id) => {
                assert!((0..39).contains(&raw));
                assert_eq!(id.raw(), raw);
            }
            None => assert!(!(0..39).contains(&raw)),
        }
    }
    assert_eq!(RequestId::try_from_raw(5), Some(RequestId::Base(FieldId::Long)));
    assert_eq!(RequestId::try_from_raw(10), Some(RequestId::Sts(FieldId::Enum)));
    assert_eq!(RequestId::try_from_raw(20), Some(RequestId::Time(FieldId::Double)));
    assert_eq!(RequestId::try_from_raw(21), Some(RequestId::Gr(FieldId::String)));
    assert_eq!(RequestId::try_from_raw(32), Some(RequestId::Ctrl(FieldId::Char)));
    assert_eq!(RequestId::try_from_raw(35), Some(RequestId::PutAckt));
    assert_eq!(RequestId::try_from_raw(36), Some(RequestId::PutAcks));
    assert_eq!(RequestId::try_from_raw(37), Some(RequestId::StsackString));
    assert_eq!(RequestId::try_from_raw(38), Some(RequestId::ClassName));
    assert_eq!(RequestId::try_from_raw(39), None);
}

#[test]
fn db_fields_and_requests() {
    for raw in -2..9 {
        match DbField::try_from_raw(raw) {
            Some(dbf) => assert_eq!(dbf.raw(), raw),
            None => assert!(!(0..7).contains(&raw)),
        }
    }
    assert_eq!(DbRequest::Base(DbField::Short).raw(), 1);
    assert_eq!(DbRequest::Sts(DbField::Double).raw(), 13);
    assert_eq!(DbRequest::Time(DbField::Enum).raw(), 17);
    assert_eq!(DbRequest::Gr(DbField::Long).raw(), 26);
    assert_eq!(DbRequest::Ctrl(DbField::Float).raw(), 30);
    assert_eq!(DbRequest::PutAck(false).raw(), 35);
    assert_eq!(DbRequest::PutAck(true).raw(), 36);
    assert_eq!(DbRequest::StsackString.raw(), 37);
    assert_eq!(DbRequest::ClassName.raw(), 38);
    assert_eq!(Dbe::Value.raw(), 1);
    assert_eq!(Dbe::Archive.raw(), 2);
    assert_eq!(Dbe::Log.raw(), 2);
    assert_eq!(Dbe::Alarm.raw(), 4);
    assert_eq!(Dbe::Property.raw(), 8);
}

#[test]
fn event_masks() {
    let m = EventMask::value().union(EventMask::alarm());
    assert_eq!(m.bits(), 5);
    assert_eq!(m.raw(), 5);
    assert_eq!((EventMask::value() | EventMask::alarm()).bits(), 5);
    assert_eq!((EventMask::archive() | EventMask::archive()).raw(), 2);
    assert_eq!(EventMask::archive().raw(), 2);
    assert_eq!(EventMask::property().raw(), 8);
    assert_eq!(EventMask::try_from_raw(15).map(|m| m.bits()), Some(15));
    assert!(EventMask::try_from_raw(16).is_none());
    assert!(EventMask::try_from_raw(-1).is_none());
    assert!(EventMask::from_bits(0x10).is_none());
    assert_eq!(EventMask::from_bits(0).map(|m| m.raw()), Some(0));
}

#[test]
fn alarms_round_trip() {
    for raw in 0..30u16 {
        match AlarmSeverity::try_from_raw(raw) {
            Some(s) => assert_eq!(s.raw(), raw),
            None => assert!(raw >= 4),
        }
        match AlarmCondition::try_from_raw(raw) {
            Some(c) => assert_eq!(c.raw(), raw),
            None => assert!(raw >= 22),
        }
    }
    assert_eq!(AlarmSeverity::try_from_raw(2), Some(AlarmSeverity::Major));
    assert_eq!(AlarmCondition::try_from_raw(3), Some(AlarmCondition::HiHi));
    assert_eq!(AlarmCondition::try_from_raw(21), Some(AlarmCondition::WriteAccess));
    assert_eq!(
        Alarm::try_from_raw(4, 2),
        Some(Alarm { condition: AlarmCondition::High, severity: AlarmSeverity::Major })
    );
    assert_eq!(Alarm::try_from_raw(22, 0), None);
    assert_eq!(Alarm::try_from_raw(0, 4), None);
    let a = Alarm::default();
    assert_eq!(a.condition, AlarmCondition::NoAlarm);
    assert_eq!(a.severity, AlarmSeverity::NoAlarm);
    assert_eq!(AlarmSeverity::default(), AlarmSeverity::NoAlarm);
    assert_eq!(AlarmCondition::default(), AlarmCondition::NoAlarm);
}
