use epics_ca::caerr::{ECA_BADTYPE, ECA_NORMAL, ECA_PUTFAIL};
use epics_ca::channel::{
    channel_check, channel_check_field, connect_outcome, connection_state,
    element_count_from_raw, field_type_from_raw, host_name_check, reply_check, reply_check_id,
    Channel, ProcessData,
};
use epics_ca::db_access::{CA_OP_CONN_DOWN, CA_OP_CONN_UP, CA_OP_GET};
use epics_ca::error::{badcount, badtype, disconn, putfail, Error};
use epics_ca::request::{PutAckt, Sts, Time};
use epics_ca::types::{FieldId, RequestId};

#[test]
fn field_types_reported_by_library() {
    assert_eq!(field_type_from_raw(-1), Err(disconn()));
    assert_eq!(field_type_from_raw(5), Ok(FieldId::Long));
    assert_eq!(field_type_from_raw(7), Err(badtype()));
    assert_eq!(field_type_from_raw(-2), Err(badtype()));
}

#[test]
fn element_counts_reported_by_library() {
    assert_eq!(element_count_from_raw(0), Err(disconn()));
    assert_eq!(element_count_from_raw(1), Ok(1));
    assert_eq!(element_count_from_raw(256), Ok(256));
}

#[test]
fn host_names() {
    assert_eq!(host_name_check(b"<disconnected>"), Err(disconn()));
    assert_eq!(host_name_check(b"ioc.example:5064"), Ok(()));
    assert_eq!(host_name_check(b"<disconnected"), Ok(()));
    assert_eq!(host_name_check(b"<Disconnected>"), Ok(()));
}

#[test]
fn connection_events() {
    assert_eq!(connection_state(CA_OP_CONN_UP), Some(true));
    assert_eq!(connection_state(CA_OP_CONN_DOWN), Some(false));
    assert_eq!(connection_state(CA_OP_GET), None);
    assert_eq!(connect_outcome(-1), None);
    assert_eq!(connect_outcome(CA_OP_CONN_UP), Some(Ok(())));
    assert_eq!(connect_outcome(CA_OP_CONN_DOWN), Some(Err(disconn())));
}

#[test]
fn typed_checks() {
    assert_eq!(channel_check::<i32>(5, 1), Ok(()));
    assert_eq!(channel_check::<i32>(5, 3), Err(badcount()));
    assert_eq!(channel_check::<[i32]>(5, 3), Ok(()));
    assert_eq!(channel_check::<[u8]>(5, 3), Err(badtype()));
    assert_eq!(channel_check::<i32>(-1, 1), Err(disconn()));
    assert_eq!(channel_check::<i32>(5, 0), Err(disconn()));
    assert_eq!(channel_check::<i32>(9, 0), Err(badtype()));
    assert_eq!(channel_check_field(6, 1, FieldId::Double, true), Ok(()));
    assert_eq!(channel_check_field(6, 2, FieldId::Double, true), Err(badcount()));
    assert_eq!(channel_check_field(6, 2, FieldId::Double, false), Ok(()));
    assert_eq!(channel_check_field(2, 1, FieldId::Double, false), Err(badtype()));
}

#[test]
fn narrowing_channels() {
    let c = Channel::from_raw(0x10, 0x20);
    assert_eq!(c.context(), 0x10);
    assert_eq!(c.raw(), 0x20);
    let typed = match c.into_typed::<i32>(5, 1) {
        Ok(t) => t,
        Err(_) => panic!("i32 fits a long scalar"),
    };
    assert_eq!(typed.base().raw(), 0x20);
    let c = typed.into_base();
    let c = match c.into_typed::<u8>(5, 1) {
        Ok(_) => panic!("u8 does not fit a long field"),
        Err((e, c)) => {
            assert_eq!(e, badtype());
            c
        }
    };
    let c = match c.into_typed::<i16>(1, 4) {
        Ok(_) => panic!("four elements are no scalar"),
        Err((e, c)) => {
            assert_eq!(e, badcount());
            c
        }
    };
    let value = match c.into_typed::<[i16]>(1, 4) {
        Ok(t) => t.into_value(),
        Err(_) => panic!("an array takes any count"),
    };
    let c = value.into_typed().into_base();
    assert_eq!(c, Channel::from_raw(0x10, 0x20));
}

#[test]
fn array_and_scalar_channels() {
    let c = Channel::from_raw(1, 2);
    let c = match c.into_array::<i16>(-1) {
        Ok(_) => panic!("disconnected"),
        Err((e, c)) => {
            assert_eq!(e, disconn());
            c
        }
    };
    let c = match c.into_array::<i16>(5) {
        Ok(_) => panic!("wrong type"),
        Err((e, c)) => {
            assert_eq!(e, badtype());
            c
        }
    };
    let a = match c.into_array::<i16>(1) {
        Ok(a) => a,
        Err(_) => panic!("short field"),
    };
    let a = match a.into_scalar(0) {
        Ok(_) => panic!("disconnected"),
        Err((e, a)) => {
            assert_eq!(e, disconn());
            a
        }
    };
    let a = match a.into_scalar(2) {
        Ok(_) => panic!("two elements"),
        Err((e, a)) => {
            assert_eq!(e, badcount());
            a
        }
    };
    let s = match a.into_scalar(1) {
        Ok(s) => s,
        Err(_) => panic!("one element"),
    };
    assert_eq!(s.chan().base().raw(), 2);
}

#[test]
fn replies() {
    assert_eq!(reply_check::<i32>(ECA_NORMAL, 5, 1), Ok(()));
    assert_eq!(reply_check::<i32>(ECA_BADTYPE, 5, 1), Err(badtype()));
    assert_eq!(reply_check::<i32>(ECA_PUTFAIL, 5, 1), Err(putfail()));
    assert_eq!(reply_check::<i32>(ECA_NORMAL, 4, 1), Err(badtype()));
    assert_eq!(reply_check::<i32>(ECA_NORMAL, 5, 2), Err(badcount()));
    assert_eq!(reply_check::<[i32]>(ECA_NORMAL, 5, 2), Ok(()));
    assert_eq!(reply_check::<i32>(ECA_NORMAL, 39, 1), Err(badtype()));
    assert_eq!(reply_check::<i32>(ECA_NORMAL, -1, 1), Err(badtype()));
    assert_eq!(reply_check::<Sts<i32>>(ECA_NORMAL, 12, 1), Ok(()));
    assert_eq!(reply_check::<Time<[u8]>>(ECA_NORMAL, 18, 10), Ok(()));
    assert_eq!(reply_check::<Time<[u8]>>(ECA_NORMAL, 11, 10), Err(badtype()));
    assert_eq!(reply_check::<PutAckt>(ECA_NORMAL, 35, 1), Ok(()));
    let expected = RequestId::Time(FieldId::Double);
    assert_eq!(reply_check_id(ECA_NORMAL, 20, 1, expected, true), Ok(()));
    assert_eq!(reply_check_id(ECA_NORMAL, 20, 3, expected, true), Err(badcount()));
    assert_eq!(reply_check_id(ECA_NORMAL, 20, 3, expected, false), Ok(()));
    assert_eq!(reply_check_id(ECA_NORMAL, 13, 1, expected, true), Err(badtype()));
    assert_eq!(reply_check_id(ECA_BADTYPE, 20, 1, expected, true), Err(badtype()));
}

#[test]
fn stale_write_callbacks_are_ignored() {
    let mut p = ProcessData::new();
    assert_eq!(p.id(), 0);
    p.start_put();
    assert_eq!(p.take_put_result(), None);
    assert!(!p.complete_put(5, ECA_NORMAL));
    assert_eq!(p.take_put_result(), None);
    assert!(p.complete_put(0, ECA_PUTFAIL));
    assert_eq!(p.take_put_result(), Some(Err(putfail())));
    assert_eq!(p.take_put_result(), None);
    p.cancel();
    assert_eq!(p.id(), 1);
    assert!(!p.accepts(0));
    assert!(p.accepts(1));
    assert!(!p.complete_put(0, ECA_NORMAL));
    assert_eq!(p.take_put_result(), None);
    assert!(p.complete_put(1, ECA_NORMAL));
    p.change_id();
    assert_eq!(p.id(), 2);
    assert_eq!(p.take_put_result(), Some(Ok::<(), Error>(())));
}

#[test]
fn request_numbers_count_changes() {
    let mut p = ProcessData::new();
    let mut seen = vec![p.id()];
    for k in 1..=20usize {
        p.change_id();
        assert_eq!(p.id(), k);
        assert!(seen.iter().all(|&old| !p.accepts(old)));
        seen.push(p.id());
    }
}
