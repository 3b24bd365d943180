use epics_ca::db_access::{dbr_size, CA_READ_ACCESS, CA_WRITE_ACCESS, MAX_STRING_SIZE};
use epics_ca::request::{ClassName, PutAckt, PutAcks, Request};
use epics_ca::types::{AccessRights, DbField, EpicsEnum, FieldId};
use epics_ca::types::value::EpicsString;
use std::mem::{align_of, size_of};

fn dbf_size(dbf: FieldId) -> usize {
    dbr_size(dbf.raw())
}

#[test]
fn id_dbr_sizes() {
    assert_eq!(dbf_size(FieldId::String), MAX_STRING_SIZE);
    assert_eq!(dbf_size(FieldId::Short), 2);
    assert_eq!(dbf_size(FieldId::Float), 4);
    assert_eq!(dbf_size(FieldId::Enum), 2);
    assert_eq!(dbf_size(FieldId::Char), 1);
    assert_eq!(dbf_size(FieldId::Long), 4);
    assert_eq!(dbf_size(FieldId::Double), 8);
}

fn db_field_size(dbf: DbField) -> usize {
    dbr_size(dbf.raw())
}

#[test]
fn types_dbr_sizes() {
    assert_eq!(db_field_size(DbField::String), size_of::<EpicsString>());
    assert_eq!(db_field_size(DbField::Short), size_of::<i16>());
    assert_eq!(db_field_size(DbField::Float), size_of::<f32>());
    assert_eq!(db_field_size(DbField::Enum), size_of::<i16>());
    assert_eq!(db_field_size(DbField::Char), size_of::<i8>());
    assert_eq!(db_field_size(DbField::Long), size_of::<i32>());
    assert_eq!(db_field_size(DbField::Double), size_of::<f64>());
}

fn assert_layout<T, Raw>() {
    assert_eq!(size_of::<T>(), size_of::<Raw>());
    assert_eq!(align_of::<T>(), align_of::<Raw>());
}

#[test]
fn put_ackt() {
    assert_layout::<PutAckt, u16>();
}

#[test]
fn put_acks() {
    assert_layout::<PutAcks, u16>();
}

#[test]
fn field_layout() {
    assert_layout::<u8, u8>();
    assert_layout::<i16, i16>();
    assert_layout::<EpicsEnum, u16>();
    assert_layout::<i32, i32>();
    assert_layout::<f32, f32>();
    assert_layout::<f64, f64>();
    assert_layout::<EpicsString, [u8; MAX_STRING_SIZE]>();
}

#[test]
fn ca_access_rights() {
    let values = [
        AccessRights::new(false, false).raw(),
        AccessRights::new(true, false).raw(),
        AccessRights::new(false, true).raw(),
        AccessRights::new(true, true).raw(),
    ];
    assert_eq!(values[0], 0);
    assert_eq!(values[1], CA_READ_ACCESS);
    assert_eq!(values[2], CA_WRITE_ACCESS);
    assert_eq!(values[3], CA_READ_ACCESS | CA_WRITE_ACCESS);
}

fn assert_request_size<R: Request>() {
    assert_eq!(size_of::<R>(), dbr_size(R::id().raw()));
}

#[test]
fn value() {
    assert_request_size::<u8>();
    assert_request_size::<i16>();
    assert_request_size::<EpicsEnum>();
    assert_request_size::<i32>();
    assert_request_size::<EpicsString>();
}

#[test]
fn class_name() {
    assert_request_size::<ClassName>();
    assert_layout::<ClassName, [u8; MAX_STRING_SIZE]>();
}

fn assert_field_size<T: epics_ca::types::value::Field>() {
    assert_eq!(size_of::<T>(), dbr_size(T::id().raw()));
}

#[test]
fn value_layout() {
    assert_field_size::<u8>();
    assert_field_size::<i16>();
    assert_field_size::<EpicsEnum>();
    assert_field_size::<i32>();
    assert_field_size::<EpicsString>();
    assert_layout::<EpicsEnum, u16>();
    assert_layout::<EpicsString, [u8; MAX_STRING_SIZE]>();
}
