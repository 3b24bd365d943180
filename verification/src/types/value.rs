//! Types of channel values: single elements and arrays of them.
use vstd::prelude::*;

use super::cstring::StaticCString;
use super::epics::EpicsEnum;
use super::id::FieldId;
use crate::db_access::MAX_STRING_SIZE;
use crate::error::{badcount, badtype, spec_badcount, spec_badtype, Error};

verus! {

/// String value of a channel.
pub type EpicsString = StaticCString<MAX_STRING_SIZE>;

/// Element type that a channel can hold.
pub trait Field: Copy + Sized {
    /// Identifier of the field type.
    spec fn spec_id() -> FieldId;

    /// Identifier of the field type.
    fn id() -> (r: FieldId)
        ensures
            r == Self::spec_id(),
    ;
}

/// Integral element type.
pub trait Int: Field {

}

/// Floating-point element type.
pub trait Float: Field {

}

impl Field for u8 {
    open spec fn spec_id() -> FieldId {
        FieldId::Char
    }

    fn id() -> (r: FieldId) {
        FieldId::Char
    }
}

impl Int for u8 {

}

impl Field for i16 {
    open spec fn spec_id() -> FieldId {
        FieldId::Short
    }

    fn id() -> (r: FieldId) {
        FieldId::Short
    }
}

impl Int for i16 {

}

impl Field for EpicsEnum {
    open spec fn spec_id() -> FieldId {
        FieldId::Enum
    }

    fn id() -> (r: FieldId) {
        FieldId::Enum
    }
}

impl Field for i32 {
    open spec fn spec_id() -> FieldId {
        FieldId::Long
    }

    fn id() -> (r: FieldId) {
        FieldId::Long
    }
}

impl Int for i32 {

}

impl Field for EpicsString {
    open spec fn spec_id() -> FieldId {
        FieldId::String
    }

    fn id() -> (r: FieldId) {
        FieldId::String
    }
}

/// Value of a channel: one element, or an array of any number of them.
pub trait Value {
    /// Type of the elements.
    type Item: Field;

    /// Whether a value of this type may hold `count` elements.
    spec fn spec_check_len(count: usize) -> bool;

    /// Number of elements in the value.
    spec fn spec_len(&self) -> nat;

    /// Number of elements in the value.
    fn len(&self) -> (r: usize)
        ensures
            r == self.spec_len(),
    ;

    /// Whether a value of this type may hold `count` elements.
    fn check_len(count: usize) -> (r: bool)
        ensures
            r == Self::spec_check_len(count),
    ;
}

impl<T: Field> Value for T {
    type Item = T;

    open spec fn spec_check_len(count: usize) -> bool {
        count == 1
    }

    open spec fn spec_len(&self) -> nat {
        1
    }

    fn len(&self) -> (r: usize) {
        1
    }

    fn check_len(count: usize) -> (r: bool) {
        count == 1
    }
}

impl<T: Field> Value for [T] {
    type Item = T;

    open spec fn spec_check_len(count: usize) -> bool {
        true
    }

    open spec fn spec_len(&self) -> nat {
        self@.len()
    }

    fn len(&self) -> (r: usize) {
        <[T]>::len(self)
    }

    fn check_len(count: usize) -> (r: bool) {
        true
    }
}

/// What checking a channel of field type `dbf` with `count` elements against value type `V`
/// gives: a type error when the element types differ, else a count error when `V` cannot hold
/// `count` elements.
pub open spec fn spec_check_type<V: Value + ?Sized>(dbf: FieldId, count: usize) -> Result<(), Error> {
    if dbf != V::Item::spec_id() {
        Err(spec_badtype())
    } else if !V::spec_check_len(count) {
        Err(spec_badcount())
    } else {
        Ok(())
    }
}

/// Checks that a channel of field type `dbf` with `count` elements holds values of type `V`.
pub fn check_type<V: Value + ?Sized>(dbf: FieldId, count: usize) -> (r: Result<(), Error>)
    ensures
        r == spec_check_type::<V>(dbf, count),
{
    if dbf != V::Item::id() {
        Err(badtype())
    } else if !V::check_len(count) {
        Err(badcount())
    } else {
        Ok(())
    }
}

/// What checking a channel of field type `dbf` with `count` elements against elements of type
/// `item`, one of them or any number, gives: a type error when the element types differ, else a
/// count error when one element is wanted and there are more or fewer.
pub open spec fn spec_check_field(dbf: FieldId, item: FieldId, single: bool, count: usize) -> Result<
    (),
    Error,
> {
    if dbf != item {
        Err(spec_badtype())
    } else if single && count != 1 {
        Err(spec_badcount())
    } else {
        Ok(())
    }
}

/// Checks that a channel of field type `dbf` with `count` elements holds elements of type
/// `item`, one of them if `single`; for element types that have no [`Field`] implementation.
pub fn check_field(dbf: FieldId, item: FieldId, single: bool, count: usize) -> (r: Result<
    (),
    Error,
>)
    ensures
        r == spec_check_field(dbf, item, single, count),
{
    if dbf != item {
        Err(badtype())
    } else if single && count != 1 {
        Err(badcount())
    } else {
        Ok(())
    }
}

/// Checking a value type is checking its element type, and whether it holds one element.
pub proof fn lemma_check_type_is_check_field<T: Field>(dbf: FieldId, count: usize)
    ensures
        spec_check_type::<T>(dbf, count) == spec_check_field(dbf, T::spec_id(), true, count),
        spec_check_type::<[T]>(dbf, count) == spec_check_field(dbf, T::spec_id(), false, count),
{
}

} // verus!
