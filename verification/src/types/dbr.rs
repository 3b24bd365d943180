//! Field, request and event identifiers in the form that channels of the first
//! generation of this interface use: acknowledgement requests share one variant and
//! event kinds are single values rather than masks.
use vstd::prelude::*;

use crate::db_access::{
    DBE_ALARM, DBE_ARCHIVE, DBE_LOG, DBE_PROPERTY, DBE_VALUE, DBF_CHAR, DBF_DOUBLE, DBF_ENUM,
    DBF_FLOAT, DBF_LONG, DBF_SHORT, DBF_STRING, DBR_CHAR, DBR_CLASS_NAME, DBR_CTRL_CHAR,
    DBR_CTRL_DOUBLE, DBR_CTRL_ENUM, DBR_CTRL_FLOAT, DBR_CTRL_LONG, DBR_CTRL_SHORT,
    DBR_CTRL_STRING, DBR_DOUBLE, DBR_ENUM, DBR_FLOAT, DBR_GR_CHAR, DBR_GR_DOUBLE, DBR_GR_ENUM,
    DBR_GR_FLOAT, DBR_GR_LONG, DBR_GR_SHORT, DBR_GR_STRING, DBR_LONG, DBR_PUT_ACKS, DBR_PUT_ACKT,
    DBR_SHORT, DBR_STRING, DBR_STSACK_STRING, DBR_STS_CHAR, DBR_STS_DOUBLE, DBR_STS_ENUM,
    DBR_STS_FLOAT, DBR_STS_LONG, DBR_STS_SHORT, DBR_STS_STRING, DBR_TIME_CHAR, DBR_TIME_DOUBLE,
    DBR_TIME_ENUM, DBR_TIME_FLOAT, DBR_TIME_LONG, DBR_TIME_SHORT, DBR_TIME_STRING,
};

verus! {

/// Type of the elements of a channel's field.
#[derive(Debug, Clone, Copy, Hash, PartialEq, Eq, Structural)]
pub enum DbField {
    String,
    Short,
    Float,
    Enum,
    Char,
    Long,
    Double,
}

/// Raw code of a field type.
pub open spec fn spec_db_field_raw(dbf: DbField) -> int {
    match dbf {
        DbField::String => 0,
        DbField::Short => 1,
        DbField::Float => 2,
        DbField::Enum => 3,
        DbField::Char => 4,
        DbField::Long => 5,
        DbField::Double => 6,
    }
}

/// Field type with the given raw code, if any.
pub open spec fn spec_db_field_from_raw(raw: i32) -> Option<DbField> {
    if 0 <= raw < 7 {
        Some(choose|f: DbField| spec_db_field_raw(f) == raw)
    } else {
        None
    }
}

impl DbField {
    /// Field type with the given raw code; `None` for codes outside `0..7`.
    pub fn try_from_raw(raw: i32) -> (r: Option<Self>)
        ensures
            r == spec_db_field_from_raw(raw),
            r is Some <==> 0 <= raw < 7,
            r matches Some(dbf) ==> spec_db_field_raw(dbf) == raw,
    {
        let r = match raw {
            DBF_STRING => Some(DbField::String),
            DBF_SHORT => Some(DbField::Short),
            DBF_FLOAT => Some(DbField::Float),
            DBF_ENUM => Some(DbField::Enum),
            DBF_CHAR => Some(DbField::Char),
            DBF_LONG => Some(DbField::Long),
            DBF_DOUBLE => Some(DbField::Double),
            _ => None,
        };
        proof {
            if let Some(f) = r {
                lemma_db_field_roundtrip(f, raw);
            }
        }
        r
    }

    /// Raw code of the field type.
    pub fn raw(&self) -> (r: i32)
        ensures
            r == spec_db_field_raw(*self),
    {
        match self {
            DbField::String => DBF_STRING,
            DbField::Short => DBF_SHORT,
            DbField::Float => DBF_FLOAT,
            DbField::Enum => DBF_ENUM,
            DbField::Char => DBF_CHAR,
            DbField::Long => DBF_LONG,
            DbField::Double => DBF_DOUBLE,
        }
    }
}

/// Decoding the raw code of a field type gives the type back, and a code that decodes is the
/// code of what it decodes to.
pub proof fn lemma_db_field_roundtrip(dbf: DbField, raw: i32)
    ensures
        spec_db_field_from_raw(spec_db_field_raw(dbf) as i32) == Some(dbf),
        spec_db_field_from_raw(raw) matches Some(f) ==> spec_db_field_raw(f) == raw,
{
    let c = spec_db_field_raw(dbf);
    assert(spec_db_field_raw(choose|f: DbField| spec_db_field_raw(f) == c) == c);
    if 0 <= raw < 7 {
        let w = if raw == 0 { DbField::String } else if raw == 1 { DbField::Short }
            else if raw == 2 { DbField::Float } else if raw == 3 { DbField::Enum }
            else if raw == 4 { DbField::Char } else if raw == 5 { DbField::Long }
            else { DbField::Double };
        assert(spec_db_field_raw(w) == raw);
    }
}

/// Type of a request; `PutAck(false)` acknowledges a transient alarm and `PutAck(true)` an
/// alarm severity.
#[derive(Debug, Clone, Copy, Hash, PartialEq, Eq, Structural)]
pub enum DbRequest {
    Base(DbField),
    Sts(DbField),
    Time(DbField),
    Gr(DbField),
    Ctrl(DbField),
    PutAck(bool),
    StsackString,
    ClassName,
}

/// Raw code of a request type.
pub open spec fn spec_db_request_raw(req: DbRequest) -> int {
    match req {
        DbRequest::Base(f) => spec_db_field_raw(f),
        DbRequest::Sts(f) => 7 + spec_db_field_raw(f),
        DbRequest::Time(f) => 14 + spec_db_field_raw(f),
        DbRequest::Gr(f) => 21 + spec_db_field_raw(f),
        DbRequest::Ctrl(f) => 28 + spec_db_field_raw(f),
        DbRequest::PutAck(severity) => if severity {
            36
        } else {
            35
        },
        DbRequest::StsackString => 37,
        DbRequest::ClassName => 38,
    }
}

impl DbRequest {
    /// Raw code of the request type.
    pub fn raw(&self) -> (r: i32)
        ensures
            r == spec_db_request_raw(*self),
    {
        match self {
            DbRequest::Base(dbf) => match dbf {
                DbField::String => DBR_STRING,
                DbField::Short => DBR_SHORT,
                DbField::Float => DBR_FLOAT,
                DbField::Enum => DBR_ENUM,
                DbField::Char => DBR_CHAR,
                DbField::Long => DBR_LONG,
                DbField::Double => DBR_DOUBLE,
            },
            DbRequest::Sts(dbf) => match dbf {
                DbField::String => DBR_STS_STRING,
                DbField::Short => DBR_STS_SHORT,
                DbField::Float => DBR_STS_FLOAT,
                DbField::Enum => DBR_STS_ENUM,
                DbField::Char => DBR_STS_CHAR,
                DbField::Long => DBR_STS_LONG,
                DbField::Double => DBR_STS_DOUBLE,
            },
            DbRequest::Time(dbf) => match dbf {
                DbField::String => DBR_TIME_STRING,
                DbField::Short => DBR_TIME_SHORT,
                DbField::Float => DBR_TIME_FLOAT,
                DbField::Enum => DBR_TIME_ENUM,
                DbField::Char => DBR_TIME_CHAR,
                DbField::Long => DBR_TIME_LONG,
                DbField::Double => DBR_TIME_DOUBLE,
            },
            DbRequest::Gr(dbf) => match dbf {
                DbField::String => DBR_GR_STRING,
                DbField::Short => DBR_GR_SHORT,
                DbField::Float => DBR_GR_FLOAT,
                DbField::Enum => DBR_GR_ENUM,
                DbField::Char => DBR_GR_CHAR,
                DbField::Long => DBR_GR_LONG,
                DbField::Double => DBR_GR_DOUBLE,
            },
            DbRequest::Ctrl(dbf) => match dbf {
                DbField::String => DBR_CTRL_STRING,
                DbField::Short => DBR_CTRL_SHORT,
                DbField::Float => DBR_CTRL_FLOAT,
                DbField::Enum => DBR_CTRL_ENUM,
                DbField::Char => DBR_CTRL_CHAR,
                DbField::Long => DBR_CTRL_LONG,
                DbField::Double => DBR_CTRL_DOUBLE,
            },
            DbRequest::PutAck(ts) => match ts {
                false => DBR_PUT_ACKT,
                true => DBR_PUT_ACKS,
            },
            DbRequest::StsackString => DBR_STSACK_STRING,
            DbRequest::ClassName => DBR_CLASS_NAME,
        }
    }
}

/// Distinct request types have distinct raw codes.
pub proof fn lemma_db_request_raw_injective(a: DbRequest, b: DbRequest)
    requires
        spec_db_request_raw(a) == spec_db_request_raw(b),
    ensures
        a == b,
{
}

/// Kind of event that a subscription reports.
#[derive(Debug, Clone, Copy, Hash, PartialEq, Eq, Structural)]
pub enum Dbe {
    Value,
    Archive,
    Log,
    Alarm,
    Property,
}

impl Dbe {
    /// Raw bit of the event kind; `Archive` and `Log` share one.
    pub fn raw(&self) -> (r: i32)
        ensures
            r == (match *self {
                Dbe::Value => 1i32,
                Dbe::Archive => 2i32,
                Dbe::Log => 2i32,
                Dbe::Alarm => 4i32,
                Dbe::Property => 8i32,
            }),
    {
        match self {
            Dbe::Value => DBE_VALUE,
            Dbe::Archive => DBE_ARCHIVE,
            Dbe::Log => DBE_LOG,
            Dbe::Alarm => DBE_ALARM,
            Dbe::Property => DBE_PROPERTY,
        }
    }
}


/// Each field type has the code that the database interface gives its `DBF_` name, and every
/// code of a field type decodes to the type of that name.
pub proof fn lemma_db_field_codes()
    ensures
        spec_db_field_raw(DbField::String) == DBF_STRING,
        spec_db_field_raw(DbField::Short) == DBF_SHORT,
        spec_db_field_raw(DbField::Float) == DBF_FLOAT,
        spec_db_field_raw(DbField::Enum) == DBF_ENUM,
        spec_db_field_raw(DbField::Char) == DBF_CHAR,
        spec_db_field_raw(DbField::Long) == DBF_LONG,
        spec_db_field_raw(DbField::Double) == DBF_DOUBLE,
        forall|raw: i32| 0 <= raw < 7 ==> (#[trigger] spec_db_field_from_raw(raw) matches Some(f) && spec_db_field_raw(f) == raw),
{
    assert forall|raw: i32| 0 <= raw < 7 implies (#[trigger] spec_db_field_from_raw(raw) matches Some(f) && spec_db_field_raw(f) == raw) by {
        lemma_db_field_roundtrip(DbField::String, raw);
    }
}

} // verus!
