use epics_ca::db_access::{dbr_size, dbr_size_n, dbr_value_size, type_text_index, DBR_COUNT};
use epics_ca::error::{badcount, badtype};
use epics_ca::request::{check_request, ClassName, PutAckt, PutAcks, Request, Sts, Time, TypedRequest};
use epics_ca::traits::{Scalar, Type};
use epics_ca::types::value::{check_field, check_type, EpicsString, Field, Value};
use epics_ca::types::{Alarm, DbField, EpicsEnum, FieldId, RequestId};

#[test]
fn request_sizes_grow_by_value_size() {
    assert_eq!(dbr_size_n(6, 1), 8);
    assert_eq!(dbr_size_n(6, 10), 80);
    assert_eq!(dbr_size_n(13, 0), 8);
    assert_eq!(dbr_size_n(13, 3), 32);
    assert_eq!(dbr_size_n(0, 2), 80);
    assert_eq!(dbr_size_n(34, 1), 88);
    for t in 0..DBR_COUNT {
        assert!(dbr_value_size(t) >= 1);
        assert!(dbr_value_size(t) <= dbr_size(t));
        assert_eq!(dbr_size_n(t, 1), dbr_size(t));
        assert_eq!(dbr_size_n(t, 2), dbr_size(t) + dbr_value_size(t));
    }
}

#[test]
fn values_start_where_empty_requests_end() {
    assert_eq!(dbr_size_n(0, 0), 0);
    assert_eq!(dbr_size_n(11, 0), 5);
    assert_eq!(dbr_size_n(13, 0), 8);
    assert_eq!(dbr_size_n(18, 0), 15);
    assert_eq!(dbr_size_n(20, 0), 16);
    assert_eq!(dbr_size_n(24, 0), 422);
    assert_eq!(dbr_size_n(37, 0), 8);
}

#[test]
fn type_names_table_index() {
    assert_eq!(type_text_index(0, 41), Some(1));
    assert_eq!(type_text_index(38, 41), Some(39));
    assert_eq!(type_text_index(39, 41), None);
    assert_eq!(type_text_index(0, 2), None);
}

#[test]
fn request_ids_and_lengths() {
    assert_eq!(<i32 as Request>::id(), RequestId::Base(FieldId::Long));
    assert_eq!(<[u8] as Request>::id(), RequestId::Base(FieldId::Char));
    assert_eq!(<Sts<i16> as Request>::id(), RequestId::Sts(FieldId::Short));
    assert_eq!(<Time<[EpicsEnum]> as Request>::id(), RequestId::Time(FieldId::Enum));
    assert_eq!(<PutAckt as Request>::id(), RequestId::PutAckt);
    assert_eq!(<PutAcks as Request>::id(), RequestId::PutAcks);
    assert_eq!(<ClassName as Request>::id(), RequestId::ClassName);
    assert!(<i32 as Request>::check_len(1));
    assert!(!<i32 as Request>::check_len(2));
    assert!(<[i32] as Request>::check_len(0));
    let arr = [1i32, 2, 3];
    assert_eq!(Request::len(&arr[..]), 3);
    assert_eq!(Request::len(&5i32), 1);
    let s = Sts { alarm: Alarm::default(), value: 7i16 };
    assert_eq!(*s.value(), 7);
    assert_eq!(Request::len(&s), 1);
    assert_eq!(Request::len(&PutAckt(1)), 1);
}

#[test]
fn reply_types_are_checked() {
    assert_eq!(check_request::<i32>(RequestId::Base(FieldId::Long), 1), Ok(()));
    assert_eq!(check_request::<i32>(RequestId::Base(FieldId::Long), 2), Err(badcount()));
    assert_eq!(check_request::<i32>(RequestId::Sts(FieldId::Long), 1), Err(badtype()));
    assert_eq!(check_request::<Sts<[u8]>>(RequestId::Sts(FieldId::Char), 9), Ok(()));
}

#[test]
fn value_types_are_checked() {
    assert_eq!(<EpicsString as Field>::id(), FieldId::String);
    assert_eq!(<EpicsEnum as Field>::id(), FieldId::Enum);
    assert_eq!(check_type::<i16>(FieldId::Short, 1), Ok(()));
    assert_eq!(check_type::<i16>(FieldId::Short, 2), Err(badcount()));
    assert_eq!(check_type::<[i16]>(FieldId::Short, 2), Ok(()));
    assert_eq!(check_type::<[i16]>(FieldId::Enum, 2), Err(badtype()));
    assert_eq!(check_field(FieldId::Float, FieldId::Float, true, 1), Ok(()));
    assert_eq!(check_field(FieldId::Float, FieldId::Double, true, 1), Err(badtype()));
    assert_eq!(check_field(FieldId::Double, FieldId::Double, true, 0), Err(badcount()));
    assert!(<[u8] as Value>::check_len(100));
    assert_eq!(Value::len(&[1u8, 2][..]), 2);
}

#[test]
fn first_generation_type_matching() {
    assert!(<i16 as Scalar>::matches_field(DbField::Short));
    assert!(<i16 as Scalar>::matches_field(DbField::Enum));
    assert!(!<i16 as Scalar>::matches_field(DbField::Long));
    assert!(<i8 as Scalar>::matches_field(DbField::Char));
    assert!(<EpicsString as Scalar>::matches_field(DbField::String));
    assert!(<i32 as Type>::matches(DbField::Long, 1));
    assert!(!<i32 as Type>::matches(DbField::Long, 2));
    assert!(<[i32] as Type>::matches(DbField::Long, 2));
    assert!(!<[i32] as Type>::matches(DbField::Short, 2));
}
