//! Matching of Rust types against field types, in the form that channels of the first
//! generation of this interface use: an `i16` also reads enumerated fields.
use vstd::prelude::*;

use crate::types::dbr::{spec_db_field_raw, DbField};
use crate::types::epics::EpicsEnum;
use crate::types::id::{lemma_field_roundtrip, spec_field_raw, FieldId};
use crate::types::value::{spec_check_type, EpicsString, Field};

verus! {

/// Element type and the field types it can read.
pub trait Scalar {
    /// Whether this type can hold elements of field type `dbf`.
    spec fn spec_matches_field(dbf: DbField) -> bool;

    /// Whether this type can hold elements of field type `dbf`.
    fn matches_field(dbf: DbField) -> (r: bool)
        ensures
            r == Self::spec_matches_field(dbf),
    ;
}

impl Scalar for i8 {
    open spec fn spec_matches_field(dbf: DbField) -> bool {
        dbf == DbField::Char
    }

    fn matches_field(dbf: DbField) -> (r: bool) {
        matches!(dbf, DbField::Char)
    }
}

impl Scalar for i16 {
    open spec fn spec_matches_field(dbf: DbField) -> bool {
        dbf == DbField::Short || dbf == DbField::Enum
    }

    fn matches_field(dbf: DbField) -> (r: bool) {
        matches!(dbf, DbField::Short | DbField::Enum)
    }
}

impl Scalar for i32 {
    open spec fn spec_matches_field(dbf: DbField) -> bool {
        dbf == DbField::Long
    }

    fn matches_field(dbf: DbField) -> (r: bool) {
        matches!(dbf, DbField::Long)
    }
}

impl Scalar for EpicsString {
    open spec fn spec_matches_field(dbf: DbField) -> bool {
        dbf == DbField::String
    }

    fn matches_field(dbf: DbField) -> (r: bool) {
        matches!(dbf, DbField::String)
    }
}

/// Value type and the channels it can read: a scalar reads channels of one element, an array
/// channels of any number of them.
pub trait Type {
    /// Whether this type can hold the value of a channel of field type `dbf` with `count`
    /// elements.
    spec fn spec_matches(dbf: DbField, count: usize) -> bool;

    /// Whether this type can hold the value of a channel of field type `dbf` with `count`
    /// elements.
    fn matches(dbf: DbField, count: usize) -> (r: bool)
        ensures
            r == Self::spec_matches(dbf, count),
    ;
}

impl<T: Scalar> Type for T {
    open spec fn spec_matches(dbf: DbField, count: usize) -> bool {
        T::spec_matches_field(dbf) && count == 1
    }

    fn matches(dbf: DbField, count: usize) -> (r: bool) {
        Self::matches_field(dbf) && count == 1
    }
}

impl<T: Scalar> Type for [T] {
    open spec fn spec_matches(dbf: DbField, count: usize) -> bool {
        T::spec_matches_field(dbf)
    }

    fn matches(dbf: DbField, count: usize) -> (r: bool) {
        T::matches_field(dbf)
    }
}


/// Each scalar type reads exactly the fields whose elements have its representation: `i8` the
/// fields of bytes, `i16` the fields of 16-bit integers and of enumerations, `i32` the fields
/// of 32-bit integers, and strings the fields of strings (the field types that the element
/// types of the same representation name). A scalar reads a channel of one such element, an
/// array any number of them.
pub proof fn lemma_scalar_fields(dbf: DbField, count: usize)
    ensures
        <i8 as Scalar>::spec_matches_field(dbf) <==> spec_db_field_raw(dbf) == spec_field_raw(
            <u8 as Field>::spec_id(),
        ),
        <i16 as Scalar>::spec_matches_field(dbf) <==> spec_db_field_raw(dbf) == spec_field_raw(
            <i16 as Field>::spec_id(),
        ) || spec_db_field_raw(dbf) == spec_field_raw(<EpicsEnum as Field>::spec_id()),
        <i32 as Scalar>::spec_matches_field(dbf) <==> spec_db_field_raw(dbf) == spec_field_raw(
            <i32 as Field>::spec_id(),
        ),
        <EpicsString as Scalar>::spec_matches_field(dbf) <==> spec_db_field_raw(dbf)
            == spec_field_raw(<EpicsString as Field>::spec_id()),
        <i32 as Type>::spec_matches(dbf, count) <==> <i32 as Scalar>::spec_matches_field(dbf)
            && count == 1,
        <[i32] as Type>::spec_matches(dbf, count) <==> <i32 as Scalar>::spec_matches_field(dbf),
{
}

/// Matching a field in this form agrees with the check of value types: for the field type
/// with the same raw code, `i32` and strings, scalar or array, match exactly when the check
/// of that value type passes.
pub proof fn lemma_scalar_matches_check(dbf: DbField, fid: FieldId, count: usize)
    requires
        spec_field_raw(fid) == spec_db_field_raw(dbf),
    ensures
        <i32 as Type>::spec_matches(dbf, count) <==> spec_check_type::<i32>(fid, count) is Ok,
        <[i32] as Type>::spec_matches(dbf, count) <==> spec_check_type::<[i32]>(fid, count) is Ok,
        <EpicsString as Type>::spec_matches(dbf, count) <==> spec_check_type::<EpicsString>(
            fid,
            count,
        ) is Ok,
        <[EpicsString] as Type>::spec_matches(dbf, count) <==> spec_check_type::<[EpicsString]>(
            fid,
            count,
        ) is Ok,
{
    lemma_field_roundtrip(fid, 0);
}

} // verus!
