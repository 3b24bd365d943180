//! Requests to channels: what a read returns and what a write sends.
//!
//! A read request asks for the value of a channel and optional metadata (alarm, timestamp,
//! display and control limits); a write request sends a value or an acknowledgement.
use vstd::prelude::*;

use crate::db_access::{
    DBR_CTRL_STRING, DBR_GR_STRING, DBR_STSACK_STRING, DBR_STS_STRING, DBR_TIME_STRING,
    MAX_ENUM_STATES, MAX_ENUM_STRING_SIZE, MAX_UNITS_SIZE,
};
use crate::error::{badcount, badtype, spec_badcount, spec_badtype, Error};
use crate::types::alarm::Alarm;
use crate::types::cstring::StaticCString;
use crate::types::epics::{EpicsEnum, EpicsTimeStamp};
use crate::types::id::{spec_request_raw, FieldId, RequestId};
use crate::types::value::{EpicsString, Field, Float, Int, Value};

verus! {

/// Request to a channel.
pub trait Request {
    /// Identifier of the request type.
    spec fn spec_id() -> RequestId;

    /// Whether a request of this type may hold `count` elements.
    spec fn spec_check_len(count: usize) -> bool;

    /// Number of elements in the request's value.
    spec fn spec_len(&self) -> nat;

    /// Identifier of the request type.
    fn id() -> (r: RequestId)
        ensures
            r == Self::spec_id(),
    ;

    /// Whether a request of this type may hold `count` elements.
    fn check_len(count: usize) -> (r: bool)
        ensures
            r == Self::spec_check_len(count),
    ;

    /// Number of elements in the request's value.
    fn len(&self) -> (r: usize)
        ensures
            r == self.spec_len(),
    ;
}

/// Request that writes data to a channel.
pub trait WriteRequest: Request {

}

/// Request that reads data from a channel.
pub trait ReadRequest: Request {

}

/// What checking a reply of type `dbr` with `count` elements against request type `R` gives:
/// a type error when the types differ, else a count error when `R` cannot hold `count`
/// elements.
pub open spec fn spec_check_request<R: Request + ?Sized>(dbr: RequestId, count: usize) -> Result<
    (),
    Error,
> {
    if dbr != R::spec_id() {
        Err(spec_badtype())
    } else if !R::spec_check_len(count) {
        Err(spec_badcount())
    } else {
        Ok(())
    }
}

/// Checks that a reply of type `dbr` with `count` elements can be read as a request of type
/// `R`.
pub fn check_request<R: Request + ?Sized>(dbr: RequestId, count: usize) -> (r: Result<(), Error>)
    ensures
        r == spec_check_request::<R>(dbr, count),
{
    if dbr != R::id() {
        Err(badtype())
    } else if !R::check_len(count) {
        Err(badcount())
    } else {
        Ok(())
    }
}

/// Acknowledgement of a transient alarm.
#[derive(Clone, Copy, Default, Debug, PartialEq, Eq, PartialOrd, Ord, Hash, Structural)]
pub struct PutAckt(pub u16);

/// Acknowledgement of an alarm severity.
#[derive(Clone, Copy, Default, Debug, PartialEq, Eq, PartialOrd, Ord, Hash, Structural)]
pub struct PutAcks(pub u16);

/// Name of the record class that a channel belongs to.
#[derive(Clone, Copy, Debug, PartialEq, Eq)]
pub struct ClassName(pub EpicsString);

impl Request for PutAckt {
    open spec fn spec_id() -> RequestId {
        RequestId::PutAckt
    }

    open spec fn spec_check_len(count: usize) -> bool {
        count == 1
    }

    open spec fn spec_len(&self) -> nat {
        1
    }

    fn id() -> (r: RequestId) {
        RequestId::PutAckt
    }

    fn check_len(count: usize) -> (r: bool) {
        count == 1
    }

    fn len(&self) -> (r: usize) {
        1
    }
}

impl WriteRequest for PutAckt {

}

impl Request for PutAcks {
    open spec fn spec_id() -> RequestId {
        RequestId::PutAcks
    }

    open spec fn spec_check_len(count: usize) -> bool {
        count == 1
    }

    open spec fn spec_len(&self) -> nat {
        1
    }

    fn id() -> (r: RequestId) {
        RequestId::PutAcks
    }

    fn check_len(count: usize) -> (r: bool) {
        count == 1
    }

    fn len(&self) -> (r: usize) {
        1
    }
}

impl WriteRequest for PutAcks {

}

impl Request for ClassName {
    open spec fn spec_id() -> RequestId {
        RequestId::ClassName
    }

    open spec fn spec_check_len(count: usize) -> bool {
        count == 1
    }

    open spec fn spec_len(&self) -> nat {
        1
    }

    fn id() -> (r: RequestId) {
        RequestId::ClassName
    }

    fn check_len(count: usize) -> (r: bool) {
        count == 1
    }

    fn len(&self) -> (r: usize) {
        1
    }
}

impl ReadRequest for ClassName {

}

/// Units of a channel's value.
#[derive(Clone, Copy, Debug, PartialEq, Eq)]
pub struct Units(pub StaticCString<MAX_UNITS_SIZE>);

/// Request that holds a value of a given type, with or without metadata.
pub trait TypedRequest: Request {
    /// Type of the value.
    type Value: Value + ?Sized;

    /// The value held.
    spec fn spec_value(&self) -> &Self::Value;

    /// The value held.
    fn value(&self) -> (r: &Self::Value)
        ensures
            r == self.spec_value(),
    ;
}

impl<V: Value + ?Sized> Request for V {
    open spec fn spec_id() -> RequestId {
        RequestId::Base(<V::Item as Field>::spec_id())
    }

    open spec fn spec_check_len(count: usize) -> bool {
        V::spec_check_len(count)
    }

    open spec fn spec_len(&self) -> nat {
        Value::spec_len(self)
    }

    fn id() -> (r: RequestId) {
        RequestId::Base(<V::Item as Field>::id())
    }

    fn check_len(count: usize) -> (r: bool) {
        V::check_len(count)
    }

    fn len(&self) -> (r: usize) {
        Value::len(self)
    }
}

impl<V: Value + ?Sized> TypedRequest for V {
    type Value = V;

    open spec fn spec_value(&self) -> &V {
        self
    }

    fn value(&self) -> (r: &V) {
        self
    }
}

impl<V: Value + ?Sized> ReadRequest for V {

}

impl<V: Value + ?Sized> WriteRequest for V {

}

/// Value with its alarm.
pub struct Sts<V: Value + ?Sized>
{
    pub alarm: Alarm,
    pub value: V,
}

impl<V: Value + ?Sized> Request for Sts<V>
{
    open spec fn spec_id() -> RequestId {
        RequestId::Sts(<V::Item as Field>::spec_id())
    }

    open spec fn spec_check_len(count: usize) -> bool {
        V::spec_check_len(count)
    }

    open spec fn spec_len(&self) -> nat {
        self.value.spec_len()
    }

    fn id() -> (r: RequestId) {
        RequestId::Sts(<V::Item as Field>::id())
    }

    fn check_len(count: usize) -> (r: bool) {
        V::check_len(count)
    }

    fn len(&self) -> (r: usize) {
        self.value.len()
    }
}

impl<V: Value + ?Sized> TypedRequest for Sts<V>
{
    type Value = V;

    open spec fn spec_value(&self) -> &V {
        &self.value
    }

    fn value(&self) -> (r: &V) {
        &self.value
    }
}

impl<V: Value + ?Sized> ReadRequest for Sts<V>
{

}

/// Value with its alarm and timestamp.
pub struct Time<V: Value + ?Sized>
{
    pub alarm: Alarm,
    pub stamp: EpicsTimeStamp,
    pub value: V,
}

impl<V: Value + ?Sized> Request for Time<V>
{
    open spec fn spec_id() -> RequestId {
        RequestId::Time(<V::Item as Field>::spec_id())
    }

    open spec fn spec_check_len(count: usize) -> bool {
        V::spec_check_len(count)
    }

    open spec fn spec_len(&self) -> nat {
        self.value.spec_len()
    }

    fn id() -> (r: RequestId) {
        RequestId::Time(<V::Item as Field>::id())
    }

    fn check_len(count: usize) -> (r: bool) {
        V::check_len(count)
    }

    fn len(&self) -> (r: usize) {
        self.value.len()
    }
}

impl<V: Value + ?Sized> TypedRequest for Time<V>
{
    type Value = V;

    open spec fn spec_value(&self) -> &V {
        &self.value
    }

    fn value(&self) -> (r: &V) {
        &self.value
    }
}

impl<V: Value + ?Sized> ReadRequest for Time<V>
{

}

/// Integral value with its alarm, units and display and alarm limits.
pub struct GrInt<V: Value + ?Sized>
where
    V::Item: Int,
{
    pub alarm: Alarm,
    pub units: Units,
    pub upper_disp_limit: V::Item,
    pub lower_disp_limit: V::Item,
    pub upper_alarm_limit: V::Item,
    pub upper_warning_limit: V::Item,
    pub lower_warning_limit: V::Item,
    pub lower_alarm_limit: V::Item,
    pub value: V,
}

impl<V: Value + ?Sized> Request for GrInt<V>
where
    V::Item: Int,
{
    open spec fn spec_id() -> RequestId {
        RequestId::Gr(<V::Item as Field>::spec_id())
    }

    open spec fn spec_check_len(count: usize) -> bool {
        V::spec_check_len(count)
    }

    open spec fn spec_len(&self) -> nat {
        self.value.spec_len()
    }

    fn id() -> (r: RequestId) {
        RequestId::Gr(<V::Item as Field>::id())
    }

    fn check_len(count: usize) -> (r: bool) {
        V::check_len(count)
    }

    fn len(&self) -> (r: usize) {
        self.value.len()
    }
}

impl<V: Value + ?Sized> TypedRequest for GrInt<V>
where
    V::Item: Int,
{
    type Value = V;

    open spec fn spec_value(&self) -> &V {
        &self.value
    }

    fn value(&self) -> (r: &V) {
        &self.value
    }
}

impl<V: Value + ?Sized> ReadRequest for GrInt<V>
where
    V::Item: Int,
{

}

/// Floating-point value with its alarm, precision, units and display and alarm limits.
pub struct GrFloat<V: Value + ?Sized>
where
    V::Item: Float,
{
    pub alarm: Alarm,
    pub precision: i16,
    pub units: Units,
    pub upper_disp_limit: V::Item,
    pub lower_disp_limit: V::Item,
    pub upper_alarm_limit: V::Item,
    pub upper_warning_limit: V::Item,
    pub lower_warning_limit: V::Item,
    pub lower_alarm_limit: V::Item,
    pub value: V,
}

impl<V: Value + ?Sized> Request for GrFloat<V>
where
    V::Item: Float,
{
    open spec fn spec_id() -> RequestId {
        RequestId::Gr(<V::Item as Field>::spec_id())
    }

    open spec fn spec_check_len(count: usize) -> bool {
        V::spec_check_len(count)
    }

    open spec fn spec_len(&self) -> nat {
        self.value.spec_len()
    }

    fn id() -> (r: RequestId) {
        RequestId::Gr(<V::Item as Field>::id())
    }

    fn check_len(count: usize) -> (r: bool) {
        V::check_len(count)
    }

    fn len(&self) -> (r: usize) {
        self.value.len()
    }
}

impl<V: Value + ?Sized> TypedRequest for GrFloat<V>
where
    V::Item: Float,
{
    type Value = V;

    open spec fn spec_value(&self) -> &V {
        &self.value
    }

    fn value(&self) -> (r: &V) {
        &self.value
    }
}

impl<V: Value + ?Sized> ReadRequest for GrFloat<V>
where
    V::Item: Float,
{

}

/// Enumerated value with its alarm and the names of its states.
pub struct GrEnum<V: Value<Item = EpicsEnum> + ?Sized>
{
    pub alarm: Alarm,
    pub no_str: u16,
    pub strs: [StaticCString<MAX_ENUM_STRING_SIZE>; MAX_ENUM_STATES],
    pub value: V,
}

impl<V: Value<Item = EpicsEnum> + ?Sized> Request for GrEnum<V>
{
    open spec fn spec_id() -> RequestId {
        RequestId::Sts(<V::Item as Field>::spec_id())
    }

    open spec fn spec_check_len(count: usize) -> bool {
        V::spec_check_len(count)
    }

    open spec fn spec_len(&self) -> nat {
        self.value.spec_len()
    }

    fn id() -> (r: RequestId) {
        RequestId::Sts(<V::Item as Field>::id())
    }

    fn check_len(count: usize) -> (r: bool) {
        V::check_len(count)
    }

    fn len(&self) -> (r: usize) {
        self.value.len()
    }
}

impl<V: Value<Item = EpicsEnum> + ?Sized> TypedRequest for GrEnum<V>
{
    type Value = V;

    open spec fn spec_value(&self) -> &V {
        &self.value
    }

    fn value(&self) -> (r: &V) {
        &self.value
    }
}

impl<V: Value<Item = EpicsEnum> + ?Sized> ReadRequest for GrEnum<V>
{

}

/// String value with its alarm.
pub struct GrString<V: Value<Item = EpicsString> + ?Sized>
{
    pub alarm: Alarm,
    pub value: V,
}

impl<V: Value<Item = EpicsString> + ?Sized> Request for GrString<V>
{
    open spec fn spec_id() -> RequestId {
        RequestId::Gr(<V::Item as Field>::spec_id())
    }

    open spec fn spec_check_len(count: usize) -> bool {
        V::spec_check_len(count)
    }

    open spec fn spec_len(&self) -> nat {
        self.value.spec_len()
    }

    fn id() -> (r: RequestId) {
        RequestId::Gr(<V::Item as Field>::id())
    }

    fn check_len(count: usize) -> (r: bool) {
        V::check_len(count)
    }

    fn len(&self) -> (r: usize) {
        self.value.len()
    }
}

impl<V: Value<Item = EpicsString> + ?Sized> TypedRequest for GrString<V>
{
    type Value = V;

    open spec fn spec_value(&self) -> &V {
        &self.value
    }

    fn value(&self) -> (r: &V) {
        &self.value
    }
}

impl<V: Value<Item = EpicsString> + ?Sized> ReadRequest for GrString<V>
{

}

/// Integral value with its alarm, units and display, alarm and control limits.
pub struct CtrlInt<V: Value + ?Sized>
where
    V::Item: Int,
{
    pub alarm: Alarm,
    pub units: Units,
    pub upper_disp_limit: V::Item,
    pub lower_disp_limit: V::Item,
    pub upper_alarm_limit: V::Item,
    pub upper_warning_limit: V::Item,
    pub lower_warning_limit: V::Item,
    pub lower_alarm_limit: V::Item,
    pub upper_ctrl_limit: V::Item,
    pub lower_ctrl_limit: V::Item,
    pub value: V,
}

impl<V: Value + ?Sized> Request for CtrlInt<V>
where
    V::Item: Int,
{
    open spec fn spec_id() -> RequestId {
        RequestId::Ctrl(<V::Item as Field>::spec_id())
    }

    open spec fn spec_check_len(count: usize) -> bool {
        V::spec_check_len(count)
    }

    open spec fn spec_len(&self) -> nat {
        self.value.spec_len()
    }

    fn id() -> (r: RequestId) {
        RequestId::Ctrl(<V::Item as Field>::id())
    }

    fn check_len(count: usize) -> (r: bool) {
        V::check_len(count)
    }

    fn len(&self) -> (r: usize) {
        self.value.len()
    }
}

impl<V: Value + ?Sized> TypedRequest for CtrlInt<V>
where
    V::Item: Int,
{
    type Value = V;

    open spec fn spec_value(&self) -> &V {
        &self.value
    }

    fn value(&self) -> (r: &V) {
        &self.value
    }
}

impl<V: Value + ?Sized> ReadRequest for CtrlInt<V>
where
    V::Item: Int,
{

}

/// Floating-point value with its alarm, precision, units and display, alarm and control limits.
pub struct CtrlFloat<V: Value + ?Sized>
where
    V::Item: Float,
{
    pub alarm: Alarm,
    pub precision: i16,
    pub units: Units,
    pub upper_disp_limit: V::Item,
    pub lower_disp_limit: V::Item,
    pub upper_alarm_limit: V::Item,
    pub upper_warning_limit: V::Item,
    pub lower_warning_limit: V::Item,
    pub lower_alarm_limit: V::Item,
    pub upper_ctrl_limit: V::Item,
    pub lower_ctrl_limit: V::Item,
    pub value: V,
}

impl<V: Value + ?Sized> Request for CtrlFloat<V>
where
    V::Item: Float,
{
    open spec fn spec_id() -> RequestId {
        RequestId::Ctrl(<V::Item as Field>::spec_id())
    }

    open spec fn spec_check_len(count: usize) -> bool {
        V::spec_check_len(count)
    }

    open spec fn spec_len(&self) -> nat {
        self.value.spec_len()
    }

    fn id() -> (r: RequestId) {
        RequestId::Ctrl(<V::Item as Field>::id())
    }

    fn check_len(count: usize) -> (r: bool) {
        V::check_len(count)
    }

    fn len(&self) -> (r: usize) {
        self.value.len()
    }
}

impl<V: Value + ?Sized> TypedRequest for CtrlFloat<V>
where
    V::Item: Float,
{
    type Value = V;

    open spec fn spec_value(&self) -> &V {
        &self.value
    }

    fn value(&self) -> (r: &V) {
        &self.value
    }
}

impl<V: Value + ?Sized> ReadRequest for CtrlFloat<V>
where
    V::Item: Float,
{

}

/// Enumerated value with its alarm and the names of its states.
pub struct CtrlEnum<V: Value<Item = EpicsEnum> + ?Sized>
{
    pub alarm: Alarm,
    pub no_str: u16,
    pub strs: [StaticCString<MAX_ENUM_STRING_SIZE>; MAX_ENUM_STATES],
    pub value: V,
}

impl<V: Value<Item = EpicsEnum> + ?Sized> Request for CtrlEnum<V>
{
    open spec fn spec_id() -> RequestId {
        RequestId::Sts(<V::Item as Field>::spec_id())
    }

    open spec fn spec_check_len(count: usize) -> bool {
        V::spec_check_len(count)
    }

    open spec fn spec_len(&self) -> nat {
        self.value.spec_len()
    }

    fn id() -> (r: RequestId) {
        RequestId::Sts(<V::Item as Field>::id())
    }

    fn check_len(count: usize) -> (r: bool) {
        V::check_len(count)
    }

    fn len(&self) -> (r: usize) {
        self.value.len()
    }
}

impl<V: Value<Item = EpicsEnum> + ?Sized> TypedRequest for CtrlEnum<V>
{
    type Value = V;

    open spec fn spec_value(&self) -> &V {
        &self.value
    }

    fn value(&self) -> (r: &V) {
        &self.value
    }
}

impl<V: Value<Item = EpicsEnum> + ?Sized> ReadRequest for CtrlEnum<V>
{

}

/// String value with its alarm.
pub struct CtrlString<V: Value<Item = EpicsString> + ?Sized>
{
    pub alarm: Alarm,
    pub value: V,
}

impl<V: Value<Item = EpicsString> + ?Sized> Request for CtrlString<V>
{
    open spec fn spec_id() -> RequestId {
        RequestId::Ctrl(<V::Item as Field>::spec_id())
    }

    open spec fn spec_check_len(count: usize) -> bool {
        V::spec_check_len(count)
    }

    open spec fn spec_len(&self) -> nat {
        self.value.spec_len()
    }

    fn id() -> (r: RequestId) {
        RequestId::Ctrl(<V::Item as Field>::id())
    }

    fn check_len(count: usize) -> (r: bool) {
        V::check_len(count)
    }

    fn len(&self) -> (r: usize) {
        self.value.len()
    }
}

impl<V: Value<Item = EpicsString> + ?Sized> TypedRequest for CtrlString<V>
{
    type Value = V;

    open spec fn spec_value(&self) -> &V {
        &self.value
    }

    fn value(&self) -> (r: &V) {
        &self.value
    }
}

impl<V: Value<Item = EpicsString> + ?Sized> ReadRequest for CtrlString<V>
{

}

/// String value with its alarm and the alarm's acknowledgement state.
pub struct StsackString<V: Value<Item = EpicsString> + ?Sized>
{
    pub alarm: Alarm,
    pub ackt: u16,
    pub acks: u16,
    pub value: V,
}

impl<V: Value<Item = EpicsString> + ?Sized> Request for StsackString<V>
{
    open spec fn spec_id() -> RequestId {
        RequestId::StsackString
    }

    open spec fn spec_check_len(count: usize) -> bool {
        V::spec_check_len(count)
    }

    open spec fn spec_len(&self) -> nat {
        self.value.spec_len()
    }

    fn id() -> (r: RequestId) {
        RequestId::StsackString
    }

    fn check_len(count: usize) -> (r: bool) {
        V::check_len(count)
    }

    fn len(&self) -> (r: usize) {
        self.value.len()
    }
}

impl<V: Value<Item = EpicsString> + ?Sized> TypedRequest for StsackString<V>
{
    type Value = V;

    open spec fn spec_value(&self) -> &V {
        &self.value
    }

    fn value(&self) -> (r: &V) {
        &self.value
    }
}

impl<V: Value<Item = EpicsString> + ?Sized> ReadRequest for StsackString<V>
{

}


/// Raw request type that a request of type `R` asks for.
pub open spec fn spec_dbr<R: Request + ?Sized>() -> int {
    spec_request_raw(R::spec_id())
}

/// A request with alarm, or with alarm and timestamp, asks for the layout of that kind for its
/// element type: the raw type of its value's plain request moved into the block of that layout,
/// which starts at the string type of the layout. It holds as many elements as its value type.
pub proof fn lemma_metadata_requests<V: Value + ?Sized>(count: usize)
    ensures
        spec_dbr::<Sts<V>>() == spec_dbr::<V>() + DBR_STS_STRING,
        spec_dbr::<Time<V>>() == spec_dbr::<V>() + DBR_TIME_STRING,
        <Sts<V> as Request>::spec_check_len(count) == <V as Request>::spec_check_len(count),
        <Time<V> as Request>::spec_check_len(count) == <V as Request>::spec_check_len(count),
{
}

/// Graphic and control requests of integral values ask for the graphic and control layouts of
/// their element type, and hold as many elements as their value type.
pub proof fn lemma_int_metadata_requests<V: Value + ?Sized>(count: usize)
    where
        V::Item: Int,
    ensures
        spec_dbr::<GrInt<V>>() == spec_dbr::<V>() + DBR_GR_STRING,
        spec_dbr::<CtrlInt<V>>() == spec_dbr::<V>() + DBR_CTRL_STRING,
        <GrInt<V> as Request>::spec_check_len(count) == <V as Request>::spec_check_len(count),
        <CtrlInt<V> as Request>::spec_check_len(count) == <V as Request>::spec_check_len(count),
{
}

/// Graphic and control requests of floating-point values ask for the graphic and control
/// layouts of their element type, and hold as many elements as their value type.
pub proof fn lemma_float_metadata_requests<V: Value + ?Sized>(count: usize)
    where
        V::Item: Float,
    ensures
        spec_dbr::<GrFloat<V>>() == spec_dbr::<V>() + DBR_GR_STRING,
        spec_dbr::<CtrlFloat<V>>() == spec_dbr::<V>() + DBR_CTRL_STRING,
        <GrFloat<V> as Request>::spec_check_len(count) == <V as Request>::spec_check_len(count),
        <CtrlFloat<V> as Request>::spec_check_len(count) == <V as Request>::spec_check_len(count),
{
}

/// Graphic and control requests of strings ask for the graphic and control layouts of strings,
/// the request with acknowledgements asks for its own type, and all hold as many elements as
/// their value type.
pub proof fn lemma_string_metadata_requests<V: Value<Item = EpicsString> + ?Sized>(count: usize)
    ensures
        spec_dbr::<GrString<V>>() == spec_dbr::<V>() + DBR_GR_STRING,
        spec_dbr::<CtrlString<V>>() == spec_dbr::<V>() + DBR_CTRL_STRING,
        spec_dbr::<StsackString<V>>() == DBR_STSACK_STRING,
        <GrString<V> as Request>::spec_check_len(count) == <V as Request>::spec_check_len(count),
        <CtrlString<V> as Request>::spec_check_len(count) == <V as Request>::spec_check_len(count),
        <StsackString<V> as Request>::spec_check_len(count) == <V as Request>::spec_check_len(
            count,
        ),
{
}

/// Graphic and control requests of enumerated values ask for the status layout of
/// enumerations, and hold as many elements as their value type.
pub proof fn lemma_enum_metadata_requests<V: Value<Item = EpicsEnum> + ?Sized>(count: usize)
    ensures
        spec_dbr::<GrEnum<V>>() == spec_dbr::<V>() + DBR_STS_STRING,
        spec_dbr::<CtrlEnum<V>>() == spec_dbr::<V>() + DBR_STS_STRING,
        <GrEnum<V> as Request>::spec_check_len(count) == <V as Request>::spec_check_len(count),
        <CtrlEnum<V> as Request>::spec_check_len(count) == <V as Request>::spec_check_len(count),
{
}

/// A reply to a read of one element with alarm, or with alarm and timestamp, is accepted
/// exactly when it has that request's type and one element; a reply to such a read of an
/// array is accepted with any number of elements.
pub proof fn lemma_metadata_reply_counts<T: Field>(dbr: RequestId, count: usize)
    ensures
        spec_check_request::<Sts<T>>(dbr, count) is Ok <==> dbr == RequestId::Sts(T::spec_id())
            && count == 1,
        spec_check_request::<Time<T>>(dbr, count) is Ok <==> dbr == RequestId::Time(T::spec_id())
            && count == 1,
        spec_check_request::<Sts<[T]>>(dbr, count) is Ok <==> dbr == RequestId::Sts(
            T::spec_id(),
        ),
        spec_check_request::<Time<[T]>>(dbr, count) is Ok <==> dbr == RequestId::Time(
            T::spec_id(),
        ),
{
}

} // verus!
