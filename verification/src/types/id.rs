//! Identifiers of field types, request types and event masks, and access rights.
use vstd::prelude::*;

use crate::db_access::{
    CA_READ_ACCESS, CA_WRITE_ACCESS, DBE_ALARM, DBE_ARCHIVE, DBE_PROPERTY, DBE_VALUE, DBF_CHAR,
    DBF_DOUBLE, DBF_ENUM, DBF_FLOAT, DBF_LONG, DBF_SHORT, DBF_STRING, DBR_CHAR, DBR_CLASS_NAME,
    DBR_CTRL_CHAR, DBR_CTRL_DOUBLE, DBR_CTRL_ENUM, DBR_CTRL_FLOAT, DBR_CTRL_LONG, DBR_CTRL_SHORT,
    DBR_CTRL_STRING, DBR_DOUBLE, DBR_ENUM, DBR_FLOAT, DBR_GR_CHAR, DBR_GR_DOUBLE, DBR_GR_ENUM,
    DBR_GR_FLOAT, DBR_GR_LONG, DBR_GR_SHORT, DBR_GR_STRING, DBR_LONG, DBR_PUT_ACKS, DBR_PUT_ACKT,
    DBR_SHORT, DBR_STRING, DBR_STSACK_STRING, DBR_STS_CHAR, DBR_STS_DOUBLE, DBR_STS_ENUM,
    DBR_STS_FLOAT, DBR_STS_LONG, DBR_STS_SHORT, DBR_STS_STRING, DBR_TIME_CHAR, DBR_TIME_DOUBLE,
    DBR_TIME_ENUM, DBR_TIME_FLOAT, DBR_TIME_LONG, DBR_TIME_SHORT, DBR_TIME_STRING,
};

use vstd::std_specs::ops::BitOrSpecImpl;

verus! {

/// Type of the elements of a channel's field.
#[derive(Debug, Clone, Copy, Hash, PartialEq, Eq, Structural)]
pub enum FieldId {
    String,
    Short,
    Float,
    Enum,
    Char,
    Long,
    Double,
}

/// Raw code of a field type.
pub open spec fn spec_field_raw(id: FieldId) -> i32 {
    match id {
        FieldId::String => 0,
        FieldId::Short => 1,
        FieldId::Float => 2,
        FieldId::Enum => 3,
        FieldId::Char => 4,
        FieldId::Long => 5,
        FieldId::Double => 6,
    }
}

/// Field type with the given raw code, if any.
pub open spec fn spec_field_from_raw(raw: i32) -> Option<FieldId> {
    if 0 <= raw < 7 {
        Some(choose|id: FieldId| spec_field_raw(id) == raw)
    } else {
        None
    }
}

impl FieldId {
    /// Field type with the given raw code; `None` for codes outside `0..7`.
    pub fn try_from_raw(raw: i32) -> (r: Option<Self>)
        ensures
            r == spec_field_from_raw(raw),
            r is Some <==> 0 <= raw < 7,
            r matches Some(id) ==> spec_field_raw(id) == raw,
    {
        let r = match raw {
            DBF_STRING => Some(FieldId::String),
            DBF_SHORT => Some(FieldId::Short),
            DBF_FLOAT => Some(FieldId::Float),
            DBF_ENUM => Some(FieldId::Enum),
            DBF_CHAR => Some(FieldId::Char),
            DBF_LONG => Some(FieldId::Long),
            DBF_DOUBLE => Some(FieldId::Double),
            _ => None,
        };
        proof {
            if let Some(id) = r {
                lemma_field_roundtrip(id, raw);
            }
        }
        r
    }

    /// Raw code of the field type.
    pub fn raw(&self) -> (r: i32)
        ensures
            r == spec_field_raw(*self),
    {
        match self {
            FieldId::String => DBF_STRING,
            FieldId::Short => DBF_SHORT,
            FieldId::Float => DBF_FLOAT,
            FieldId::Enum => DBF_ENUM,
            FieldId::Char => DBF_CHAR,
            FieldId::Long => DBF_LONG,
            FieldId::Double => DBF_DOUBLE,
        }
    }
}

/// Decoding the raw code of a field type gives the type back, and a code that decodes is the
/// code of what it decodes to.
pub proof fn lemma_field_roundtrip(id: FieldId, raw: i32)
    ensures
        spec_field_from_raw(spec_field_raw(id)) == Some(id),
        spec_field_from_raw(raw) matches Some(f) ==> spec_field_raw(f) == raw,
{
    let r = spec_field_raw(id);
    assert(spec_field_raw(choose|f: FieldId| spec_field_raw(f) == r) == r);
    if 0 <= raw < 7 {
        assert(exists|f: FieldId| spec_field_raw(f) == raw) by {
            if raw == 0 { assert(spec_field_raw(FieldId::String) == raw); }
            else if raw == 1 { assert(spec_field_raw(FieldId::Short) == raw); }
            else if raw == 2 { assert(spec_field_raw(FieldId::Float) == raw); }
            else if raw == 3 { assert(spec_field_raw(FieldId::Enum) == raw); }
            else if raw == 4 { assert(spec_field_raw(FieldId::Char) == raw); }
            else if raw == 5 { assert(spec_field_raw(FieldId::Long) == raw); }
            else { assert(spec_field_raw(FieldId::Double) == raw); }
        }
    }
}

/// Type of a request: a field type in one of five layouts, or one of four special requests.
#[derive(Debug, Clone, Copy, Hash, PartialEq, Eq, Structural)]
pub enum RequestId {
    Base(FieldId),
    Sts(FieldId),
    Time(FieldId),
    Gr(FieldId),
    Ctrl(FieldId),
    PutAckt,
    PutAcks,
    StsackString,
    ClassName,
}

/// Raw code of a request type: each layout occupies seven consecutive codes, in the order of
/// the field types, and the special requests follow.
pub open spec fn spec_request_raw(id: RequestId) -> int {
    match id {
        RequestId::Base(f) => spec_field_raw(f) as int,
        RequestId::Sts(f) => 7 + spec_field_raw(f),
        RequestId::Time(f) => 14 + spec_field_raw(f),
        RequestId::Gr(f) => 21 + spec_field_raw(f),
        RequestId::Ctrl(f) => 28 + spec_field_raw(f),
        RequestId::PutAckt => 35,
        RequestId::PutAcks => 36,
        RequestId::StsackString => 37,
        RequestId::ClassName => 38,
    }
}

/// Request type with the given raw code, if any.
pub open spec fn spec_request_from_raw(raw: i32) -> Option<RequestId> {
    if 0 <= raw < 39 {
        Some(choose|id: RequestId| spec_request_raw(id) == raw)
    } else {
        None
    }
}

impl RequestId {
    /// Request type with the given raw code; `None` for codes outside `0..39`.
    pub fn try_from_raw(raw: i32) -> (r: Option<Self>)
        ensures
            r == spec_request_from_raw(raw),
            r is Some <==> 0 <= raw < 39,
            r matches Some(id) ==> spec_request_raw(id) == raw,
    {
        let r = match raw {
            DBR_STRING => Some(RequestId::Base(FieldId::String)),
            DBR_SHORT => Some(RequestId::Base(FieldId::Short)),
            DBR_FLOAT => Some(RequestId::Base(FieldId::Float)),
            DBR_ENUM => Some(RequestId::Base(FieldId::Enum)),
            DBR_CHAR => Some(RequestId::Base(FieldId::Char)),
            DBR_LONG => Some(RequestId::Base(FieldId::Long)),
            DBR_DOUBLE => Some(RequestId::Base(FieldId::Double)),
            DBR_STS_STRING => Some(RequestId::Sts(FieldId::String)),
            DBR_STS_SHORT => Some(RequestId::Sts(FieldId::Short)),
            DBR_STS_FLOAT => Some(RequestId::Sts(FieldId::Float)),
            DBR_STS_ENUM => Some(RequestId::Sts(FieldId::Enum)),
            DBR_STS_CHAR => Some(RequestId::Sts(FieldId::Char)),
            DBR_STS_LONG => Some(RequestId::Sts(FieldId::Long)),
            DBR_STS_DOUBLE => Some(RequestId::Sts(FieldId::Double)),
            DBR_TIME_STRING => Some(RequestId::Time(FieldId::String)),
            DBR_TIME_SHORT => Some(RequestId::Time(FieldId::Short)),
            DBR_TIME_FLOAT => Some(RequestId::Time(FieldId::Float)),
            DBR_TIME_ENUM => Some(RequestId::Time(FieldId::Enum)),
            DBR_TIME_CHAR => Some(RequestId::Time(FieldId::Char)),
            DBR_TIME_LONG => Some(RequestId::Time(FieldId::Long)),
            DBR_TIME_DOUBLE => Some(RequestId::Time(FieldId::Double)),
            DBR_GR_STRING => Some(RequestId::Gr(FieldId::String)),
            DBR_GR_SHORT => Some(RequestId::Gr(FieldId::Short)),
            DBR_GR_FLOAT => Some(RequestId::Gr(FieldId::Float)),
            DBR_GR_ENUM => Some(RequestId::Gr(FieldId::Enum)),
            DBR_GR_CHAR => Some(RequestId::Gr(FieldId::Char)),
            DBR_GR_LONG => Some(RequestId::Gr(FieldId::Long)),
            DBR_GR_DOUBLE => Some(RequestId::Gr(FieldId::Double)),
            DBR_CTRL_STRING => Some(RequestId::Ctrl(FieldId::String)),
            DBR_CTRL_SHORT => Some(RequestId::Ctrl(FieldId::Short)),
            DBR_CTRL_FLOAT => Some(RequestId::Ctrl(FieldId::Float)),
            DBR_CTRL_ENUM => Some(RequestId::Ctrl(FieldId::Enum)),
            DBR_CTRL_CHAR => Some(RequestId::Ctrl(FieldId::Char)),
            DBR_CTRL_LONG => Some(RequestId::Ctrl(FieldId::Long)),
            DBR_CTRL_DOUBLE => Some(RequestId::Ctrl(FieldId::Double)),
            DBR_PUT_ACKT => Some(RequestId::PutAckt),
            DBR_PUT_ACKS => Some(RequestId::PutAcks),
            DBR_STSACK_STRING => Some(RequestId::StsackString),
            DBR_CLASS_NAME => Some(RequestId::ClassName),
            _ => None,
        };
        proof {
            if let Some(id) = r {
                lemma_request_roundtrip(id, raw);
            }
        }
        r
    }

    /// Raw code of the request type.
    pub fn raw(&self) -> (r: i32)
        ensures
            r == spec_request_raw(*self),
            0 <= r < 39,
    {
        match self {
            RequestId::Base(dbf) => match dbf {
                FieldId::String => DBR_STRING,
                FieldId::Short => DBR_SHORT,
                FieldId::Float => DBR_FLOAT,
                FieldId::Enum => DBR_ENUM,
                FieldId::Char => DBR_CHAR,
                FieldId::Long => DBR_LONG,
                FieldId::Double => DBR_DOUBLE,
            },
            RequestId::Sts(dbf) => match dbf {
                FieldId::String => DBR_STS_STRING,
                FieldId::Short => DBR_STS_SHORT,
                FieldId::Float => DBR_STS_FLOAT,
                FieldId::Enum => DBR_STS_ENUM,
                FieldId::Char => DBR_STS_CHAR,
                FieldId::Long => DBR_STS_LONG,
                FieldId::Double => DBR_STS_DOUBLE,
            },
            RequestId::Time(dbf) => match dbf {
                FieldId::String => DBR_TIME_STRING,
                FieldId::Short => DBR_TIME_SHORT,
                FieldId::Float => DBR_TIME_FLOAT,
                FieldId::Enum => DBR_TIME_ENUM,
                FieldId::Char => DBR_TIME_CHAR,
                FieldId::Long => DBR_TIME_LONG,
                FieldId::Double => DBR_TIME_DOUBLE,
            },
            RequestId::Gr(dbf) => match dbf {
                FieldId::String => DBR_GR_STRING,
                FieldId::Short => DBR_GR_SHORT,
                FieldId::Float => DBR_GR_FLOAT,
                FieldId::Enum => DBR_GR_ENUM,
                FieldId::Char => DBR_GR_CHAR,
                FieldId::Long => DBR_GR_LONG,
                FieldId::Double => DBR_GR_DOUBLE,
            },
            RequestId::Ctrl(dbf) => match dbf {
                FieldId::String => DBR_CTRL_STRING,
                FieldId::Short => DBR_CTRL_SHORT,
                FieldId::Float => DBR_CTRL_FLOAT,
                FieldId::Enum => DBR_CTRL_ENUM,
                FieldId::Char => DBR_CTRL_CHAR,
                FieldId::Long => DBR_CTRL_LONG,
                FieldId::Double => DBR_CTRL_DOUBLE,
            },
            RequestId::PutAckt => DBR_PUT_ACKT,
            RequestId::PutAcks => DBR_PUT_ACKS,
            RequestId::StsackString => DBR_STSACK_STRING,
            RequestId::ClassName => DBR_CLASS_NAME,
        }
    }
}

/// Decoding the raw code of a request type gives the type back, and a code that decodes is
/// the code of what it decodes to.
pub proof fn lemma_request_roundtrip(id: RequestId, raw: i32)
    ensures
        spec_request_from_raw(spec_request_raw(id) as i32) == Some(id),
        spec_request_from_raw(raw) matches Some(r) ==> spec_request_raw(r) == raw,
{
    let c = spec_request_raw(id);
    assert(spec_request_raw(choose|r: RequestId| spec_request_raw(r) == c) == c);
    if 0 <= raw < 39 {
        let f = if raw % 7 == 0 { FieldId::String } else if raw % 7 == 1 { FieldId::Short }
            else if raw % 7 == 2 { FieldId::Float } else if raw % 7 == 3 { FieldId::Enum }
            else if raw % 7 == 4 { FieldId::Char } else if raw % 7 == 5 { FieldId::Long }
            else { FieldId::Double };
        let w = if raw < 7 { RequestId::Base(f) } else if raw < 14 { RequestId::Sts(f) }
            else if raw < 21 { RequestId::Time(f) } else if raw < 28 { RequestId::Gr(f) }
            else if raw < 35 { RequestId::Ctrl(f) } else if raw == 35 { RequestId::PutAckt }
            else if raw == 36 { RequestId::PutAcks } else if raw == 37 { RequestId::StsackString }
            else { RequestId::ClassName };
        assert(spec_request_raw(w) == raw);
    }
}

/// Set of events that a subscription reports.
#[derive(Debug, Clone, Copy, Hash, PartialEq, Eq)]
pub struct EventMask {
    bits: u32,
}

/// Bits that stand for an event.
pub open spec fn spec_event_bits_known(bits: u32) -> bool {
    bits & 0xfu32 == bits
}

impl EventMask {
    #[verifier::type_invariant]
    spec fn inv(self) -> bool {
        spec_event_bits_known(self.bits)
    }

    /// The raw bits of the mask.
    pub closed spec fn spec_bits(self) -> u32 {
        self.bits
    }

    /// Changes of the value.
    pub fn value() -> (r: Self)
        ensures
            r.spec_bits() == DBE_VALUE,
    {
        assert(1u32 & 0xfu32 == 1u32) by (bit_vector);
        EventMask { bits: 1 }
    }

    /// Changes worth archiving.
    pub fn archive() -> (r: Self)
        ensures
            r.spec_bits() == DBE_ARCHIVE,
    {
        assert(2u32 & 0xfu32 == 2u32) by (bit_vector);
        EventMask { bits: 2 }
    }

    /// Changes of the alarm state.
    pub fn alarm() -> (r: Self)
        ensures
            r.spec_bits() == DBE_ALARM,
    {
        assert(4u32 & 0xfu32 == 4u32) by (bit_vector);
        EventMask { bits: 4 }
    }

    /// Changes of properties.
    pub fn property() -> (r: Self)
        ensures
            r.spec_bits() == DBE_PROPERTY,
    {
        assert(8u32 & 0xfu32 == 8u32) by (bit_vector);
        EventMask { bits: 8 }
    }

    /// Mask with the events of both masks.
    pub fn union(self, other: Self) -> (r: Self)
        ensures
            r.spec_bits() == self.spec_bits() | other.spec_bits(),
    {
        proof {
            use_type_invariant(self);
            use_type_invariant(other);
        }
        let a = self.bits;
        let b = other.bits;
        let bits = a | b;
        assert(bits & 0xfu32 == bits) by (bit_vector)
            requires
                bits == a | b,
                a & 0xfu32 == a,
                b & 0xfu32 == b,
        ;
        EventMask { bits }
    }

    /// Mask made of the given bits; `None` when a bit stands for no event.
    pub fn from_bits(bits: u32) -> (r: Option<Self>)
        ensures
            r is Some <==> spec_event_bits_known(bits),
            r matches Some(m) ==> m.spec_bits() == bits,
    {
        if bits & 0xf == bits {
            Some(EventMask { bits })
        } else {
            None
        }
    }

    /// Raw bits of the mask.
    pub fn bits(&self) -> (r: u32)
        ensures
            r == self.spec_bits(),
            spec_event_bits_known(r),
    {
        proof {
            use_type_invariant(self);
        }
        self.bits
    }

    /// Mask with the given raw value; `None` when a bit stands for no event, negative values
    /// included.
    pub fn try_from_raw(raw: i32) -> (r: Option<Self>)
        ensures
            r is Some <==> 0 <= raw < 16,
            r matches Some(m) ==> m.spec_bits() == raw,
    {
        let bits = raw as u32;
        assert(spec_event_bits_known(bits) <==> 0 <= raw && raw < 16) by (bit_vector)
            requires
                bits == raw as u32,
        ;
        Self::from_bits(bits)
    }

    /// Raw value of the mask.
    pub fn raw(&self) -> (r: i32)
        ensures
            r == self.spec_bits(),
            0 <= r < 16,
    {
        proof {
            use_type_invariant(self);
        }
        let bits = self.bits;
        assert(bits < 16u32) by (bit_vector)
            requires
                bits & 0xfu32 == bits,
        ;
        bits as i32
    }
}

impl core::ops::BitOr for EventMask {
    type Output = EventMask;

    /// Mask with the events of both masks.
    fn bitor(self, rhs: Self) -> (r: Self)
        ensures
            r.spec_bits() == self.spec_bits() | rhs.spec_bits(),
    {
        self.union(rhs)
    }
}

impl BitOrSpecImpl for EventMask {
    open spec fn obeys_bitor_spec() -> bool {
        true
    }

    open spec fn bitor_req(self, rhs: Self) -> bool {
        true
    }

    closed spec fn bitor_spec(self, rhs: Self) -> Self {
        EventMask { bits: self.bits | rhs.bits }
    }
}

/// Whether a channel may be read and written.
#[derive(Debug, Clone, Copy, Hash, PartialEq, Eq, Structural)]
pub struct AccessRights {
    read_access: bool,
    write_access: bool,
}

/// Raw bits of access rights.
pub open spec fn spec_access_raw(read_access: bool, write_access: bool) -> int {
    (if read_access { CA_READ_ACCESS } else { 0u32 }) + (if write_access {
        CA_WRITE_ACCESS
    } else {
        0u32
    })
}

impl AccessRights {
    /// Whether these rights allow reading.
    pub closed spec fn spec_read(self) -> bool {
        self.read_access
    }

    /// Whether these rights allow writing.
    pub closed spec fn spec_write(self) -> bool {
        self.write_access
    }

    /// Access rights with the given permissions.
    pub fn new(read_access: bool, write_access: bool) -> (r: Self)
        ensures
            r.spec_read() == read_access,
            r.spec_write() == write_access,
    {
        AccessRights { read_access, write_access }
    }

    /// Whether the channel may be read.
    pub fn read_access(&self) -> (r: bool)
        ensures
            r == self.spec_read(),
    {
        self.read_access
    }

    /// Whether the channel may be written.
    pub fn write_access(&self) -> (r: bool)
        ensures
            r == self.spec_write(),
    {
        self.write_access
    }

    /// Raw bits of the access rights.
    pub fn raw(self) -> (r: u32)
        ensures
            r == spec_access_raw(self.spec_read(), self.spec_write()),
    {
        let mut raw: u32 = 0;
        if self.read_access {
            raw = raw | CA_READ_ACCESS;
            assert(0u32 | 1u32 == 1u32) by (bit_vector);
        }
        if self.write_access {
            let before = raw;
            raw = raw | CA_WRITE_ACCESS;
            assert(before == 0u32 || before == 1u32 ==> before | 2u32 == before + 2) by (bit_vector);
        }
        raw
    }
}


/// Each field type has the code that the database interface gives its `DBF_` name, and every
/// code of a field type decodes to the type of that name.
pub proof fn lemma_field_codes()
    ensures
        spec_field_raw(FieldId::String) == DBF_STRING,
        spec_field_raw(FieldId::Short) == DBF_SHORT,
        spec_field_raw(FieldId::Float) == DBF_FLOAT,
        spec_field_raw(FieldId::Enum) == DBF_ENUM,
        spec_field_raw(FieldId::Char) == DBF_CHAR,
        spec_field_raw(FieldId::Long) == DBF_LONG,
        spec_field_raw(FieldId::Double) == DBF_DOUBLE,
        forall|raw: i32| 0 <= raw < 7 ==> (#[trigger] spec_field_from_raw(raw) matches Some(f) && spec_field_raw(f) == raw),
{
    assert forall|raw: i32| 0 <= raw < 7 implies (#[trigger] spec_field_from_raw(raw) matches Some(f) && spec_field_raw(f) == raw) by {
        lemma_field_roundtrip(FieldId::String, raw);
    }
}

} // verus!
