use epics_ca::caerr::{ECA_BADTYPE, ECA_NORMAL};
use epics_ca::channel::ProcessData;
use epics_ca::error::{badcount, badtype, disconn, Error};
use epics_ca::request::{CtrlEnum, GrEnum, Request};
use epics_ca::types::{EpicsEnum, FieldId, RequestId};
use epics_ca::get::{
    clone_vec, clone_vec_some, copied, copied_some, copy, copy_some, copy_to_slice, Get, GetFn,
    GetToSlice, GetVec, GetWrapper,
};
use epics_ca::subscribe::{LastFn, Queue, QueueFn, Subscription};
use epics_ca::types::EventMask;

#[test]
fn copy_to_short_and_long_buffers() {
    let mut short = [0i32; 2];
    assert_eq!(copy_to_slice(&mut short, &[1, 2, 3]), 3);
    assert_eq!(short, [1, 2]);
    let mut long = [9i32; 5];
    assert_eq!(copy_to_slice(&mut long, &[1, 2, 3]), 3);
    assert_eq!(long, [1, 2, 3, 9, 9]);
}

#[test]
fn get_to_slice_reports_received_length() {
    let mut dst = [0u8; 3];
    let src = [7u8, 8, 9, 10];
    let r = GetToSlice { dst: &mut dst }.apply(Ok(&src[..]));
    assert_eq!(r, Ok(4));
    assert_eq!(dst, [7, 8, 9]);
    let mut dst = [5u8; 2];
    let r = GetToSlice { dst: &mut dst }.apply(Err(disconn()));
    assert_eq!(r, Err(disconn()));
    assert_eq!(dst, [5, 5]);
}

#[test]
fn vec_handlers() {
    let src = [1i16, -2, 3];
    assert_eq!(GetVec::<i16>::new().apply(Ok(&src[..])), Ok(vec![1, -2, 3]));
    assert_eq!(GetVec::<i16>::new().apply(Err(badcount())), Err(badcount()));
    assert_eq!(clone_vec(Ok(&src[..])), Ok(vec![1, -2, 3]));
    assert_eq!(clone_vec_some::<i16>(Err(disconn())), Some(Err(disconn())));
}

#[test]
fn copy_handlers() {
    assert_eq!(copy(Ok(&5i32)), Ok(5));
    assert_eq!(copy::<i32>(Err(disconn())), Err(disconn()));
    assert_eq!(copy_some(Ok(&5u8)), Some(Ok(5)));
    assert_eq!(copied(Ok(&-1i16)), Ok(-1));
    assert_eq!(copied_some::<i16>(Err(badcount())), Some(Err(badcount())));
}

#[test]
fn wrapped_handler() {
    let w = GetWrapper::<i32, i32, _>::new(|r: Result<&i32, Error>| r.map(|v| *v * 2));
    assert_eq!(w.apply(Ok(&21)), Ok(42));
}

#[test]
fn a_read_hands_its_reply_once() {
    let mut get = Get::new(GetVec::<u8>::new());
    assert!(!get.is_started());
    assert_eq!(get.take_ready(), None);
    let args = get.request(&ProcessData::new());
    assert_eq!((args.dbr_type, args.count, args.usr), (4, 0, 0));
    assert_eq!(get.start(ECA_BADTYPE), Err(badtype()));
    assert!(!get.is_started());
    assert_eq!(get.start(ECA_NORMAL), Ok(()));
    assert!(get.is_started());
    let src = [1u8, 2];
    assert!(get.complete(Ok(&src[..])));
    assert!(!get.complete(Ok(&src[..1])));
    assert_eq!(get.take_ready(), Some(Ok(vec![1, 2])));
    assert_eq!(get.take_ready(), None);
    assert!(!get.complete(Err(disconn())));
}

#[test]
fn last_update_wins() {
    let mut q = LastFn::<i32, i32, _>::new(copy_some::<i32>);
    assert_eq!(q.pop(), None);
    q.push(Ok(&1));
    q.push(Ok(&2));
    q.push(Err(disconn()));
    q.push(Ok(&3));
    assert_eq!(q.pop(), Some(Ok(3)));
    assert_eq!(q.pop(), None);
}

#[test]
fn skipped_updates_keep_the_last_one() {
    let keep_even = |r: Result<&i32, Error>| match r {
        Ok(v) if *v % 2 == 0 => Some(Ok(*v)),
        Ok(_) => None,
        Err(e) => Some(Err(e)),
    };
    let mut q = LastFn::<i32, i32, _>::new(keep_even);
    q.push(Ok(&2));
    q.push(Ok(&3));
    assert_eq!(q.pop(), Some(Ok(2)));
}

#[test]
fn buffered_updates_come_out_in_order() {
    let mut q = QueueFn::<[i16], Vec<i16>, _>::new(clone_vec_some::<i16>);
    q.push(Ok(&[1, 2][..]));
    q.push(Err(badcount()));
    q.push(Ok(&[3][..]));
    assert_eq!(q.pop(), Some(Ok(vec![1, 2])));
    assert_eq!(q.pop(), Some(Err(badcount())));
    assert_eq!(q.pop(), Some(Ok(vec![3])));
    assert_eq!(q.pop(), None);
}

#[test]
fn subscriptions() {
    let mut s = Subscription::new(LastFn::<u8, u8, _>::new(copy_some::<u8>));
    assert_eq!(s.mask().bits(), 5);
    assert_eq!(s.evid(), None);
    s.set_event_mask(EventMask::property());
    assert_eq!(s.mask().raw(), 8);
    let mut p = ProcessData::new();
    p.change_id();
    let args = s.request(&p);
    assert_eq!((args.dbr_type, args.count, args.mask, args.usr), (4, 0, 8, 1));
    assert_eq!(s.start(ECA_BADTYPE, 76), Err(badtype()));
    assert_eq!(s.evid(), None);
    assert_eq!(s.start(ECA_NORMAL, 77), Ok(()));
    assert_eq!(s.evid(), Some(77));
    s.state_mut().push(Ok(&4));
    assert_eq!(s.state_mut().pop(), Some(Ok(4)));
}

#[test]
fn every_buffered_update_comes_out_in_order() {
    let mut q = QueueFn::<i32, i32, _>::new(copy_some::<i32>);
    assert_eq!(q.pop(), None);
    for i in 0..16 {
        q.push(Ok(&i));
    }
    for i in 0..16 {
        assert_eq!(q.pop(), Some(Ok(i)));
    }
    assert_eq!(q.pop(), None);
}

#[test]
fn enum_metadata_requests_ask_for_the_status_type() {
    assert_eq!(<GrEnum<EpicsEnum> as Request>::id(), RequestId::Sts(FieldId::Enum));
    assert_eq!(<CtrlEnum<EpicsEnum> as Request>::id(), RequestId::Sts(FieldId::Enum));
    assert_eq!(<GrEnum<EpicsEnum> as Request>::id().raw(), 10);
    assert_eq!(<CtrlEnum<EpicsEnum> as Request>::id().raw(), 10);
}
