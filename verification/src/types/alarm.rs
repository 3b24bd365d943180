//! Alarm state of a channel.
use vstd::prelude::*;

verus! {

/// How serious an alarm is.
#[derive(Debug, Clone, Copy, Hash, PartialEq, Eq, Structural)]
pub enum AlarmSeverity {
    NoAlarm,
    Minor,
    Major,
    Invalid,
}

/// Raw code of the value.
pub open spec fn spec_severity_raw(v: AlarmSeverity) -> u16 {
    match v {
        AlarmSeverity::NoAlarm => 0,
        AlarmSeverity::Minor => 1,
        AlarmSeverity::Major => 2,
        AlarmSeverity::Invalid => 3,
    }
}

/// Value with the given raw code, if any.
pub open spec fn spec_alarm_severity_from_raw(raw: u16) -> Option<AlarmSeverity> {
    if raw < 4 {
        Some(choose|v: AlarmSeverity| spec_severity_raw(v) == raw)
    } else {
        None
    }
}

impl AlarmSeverity {
    /// Value with the given raw code; `None` for codes from 4 on.
    pub fn try_from_raw(raw: u16) -> (r: Option<Self>)
        ensures
            r == spec_alarm_severity_from_raw(raw),
            r is Some <==> raw < 4,
            r matches Some(v) ==> spec_severity_raw(v) == raw,
    {
        let r = match raw {
            0 => Some(AlarmSeverity::NoAlarm),
            1 => Some(AlarmSeverity::Minor),
            2 => Some(AlarmSeverity::Major),
            3 => Some(AlarmSeverity::Invalid),
            _ => None,
        };
        proof {
            if let Some(v) = r {
                lemma_severity_raw_roundtrip(v, raw);
            }
        }
        r
    }

    /// Raw code of the value.
    pub fn raw(&self) -> (r: u16)
        ensures
            r == spec_severity_raw(*self),
            r < 4,
    {
        match self {
            AlarmSeverity::NoAlarm => 0,
            AlarmSeverity::Minor => 1,
            AlarmSeverity::Major => 2,
            AlarmSeverity::Invalid => 3,
        }
    }
}

impl Default for AlarmSeverity {
    fn default() -> (r: Self)
        ensures
            r == AlarmSeverity::NoAlarm,
    {
        AlarmSeverity::NoAlarm
    }
}

/// The value with a raw code below 4.
spec fn severity_witness(raw: u16) -> AlarmSeverity {
    match raw {
        0 => AlarmSeverity::NoAlarm,
        1 => AlarmSeverity::Minor,
        2 => AlarmSeverity::Major,
        3 => AlarmSeverity::Invalid,
        _ => AlarmSeverity::NoAlarm,
    }
}

/// Decoding the raw code of a value gives the value back, and a code that decodes is the
/// code of what it decodes to.
pub proof fn lemma_severity_raw_roundtrip(v: AlarmSeverity, raw: u16)
    ensures
        spec_alarm_severity_from_raw(spec_severity_raw(v)) == Some(v),
        spec_alarm_severity_from_raw(raw) matches Some(w) ==> spec_severity_raw(w) == raw,
{
    let c = spec_severity_raw(v);
    assert(spec_severity_raw(choose|w: AlarmSeverity| spec_severity_raw(w) == c) == c);
    if raw < 4 {
        assert(exists|w: AlarmSeverity| spec_severity_raw(w) == raw) by {
            let w = severity_witness(raw);
            assert(spec_severity_raw(w) == raw);
        }
    }
}

/// What raised an alarm.
#[derive(Debug, Clone, Copy, Hash, PartialEq, Eq, Structural)]
pub enum AlarmCondition {
    NoAlarm,
    Read,
    Write,
    HiHi,
    High,
    LoLo,
    Low,
    State,
    Cos,
    Comm,
    Timeout,
    HwLimit,
    Calc,
    Scan,
    Link,
    Soft,
    BadSub,
    Udf,
    Disable,
    Simm,
    ReadAccess,
    WriteAccess,
}

/// Raw code of the value.
pub open spec fn spec_condition_raw(v: AlarmCondition) -> u16 {
    match v {
        AlarmCondition::NoAlarm => 0,
        AlarmCondition::Read => 1,
        AlarmCondition::Write => 2,
        AlarmCondition::HiHi => 3,
        AlarmCondition::High => 4,
        AlarmCondition::LoLo => 5,
        AlarmCondition::Low => 6,
        AlarmCondition::State => 7,
        AlarmCondition::Cos => 8,
        AlarmCondition::Comm => 9,
        AlarmCondition::Timeout => 10,
        AlarmCondition::HwLimit => 11,
        AlarmCondition::Calc => 12,
        AlarmCondition::Scan => 13,
        AlarmCondition::Link => 14,
        AlarmCondition::Soft => 15,
        AlarmCondition::BadSub => 16,
        AlarmCondition::Udf => 17,
        AlarmCondition::Disable => 18,
        AlarmCondition::Simm => 19,
        AlarmCondition::ReadAccess => 20,
        AlarmCondition::WriteAccess => 21,
    }
}

/// Value with the given raw code, if any.
pub open spec fn spec_alarm_condition_from_raw(raw: u16) -> Option<AlarmCondition> {
    if raw < 22 {
        Some(choose|v: AlarmCondition| spec_condition_raw(v) == raw)
    } else {
        None
    }
}

impl AlarmCondition {
    /// Value with the given raw code; `None` for codes from 22 on.
    pub fn try_from_raw(raw: u16) -> (r: Option<Self>)
        ensures
            r == spec_alarm_condition_from_raw(raw),
            r is Some <==> raw < 22,
            r matches Some(v) ==> spec_condition_raw(v) == raw,
    {
        let r = match raw {
            0 => Some(AlarmCondition::NoAlarm),
            1 => Some(AlarmCondition::Read),
            2 => Some(AlarmCondition::Write),
            3 => Some(AlarmCondition::HiHi),
            4 => Some(AlarmCondition::High),
            5 => Some(AlarmCondition::LoLo),
            6 => Some(AlarmCondition::Low),
            7 => Some(AlarmCondition::State),
            8 => Some(AlarmCondition::Cos),
            9 => Some(AlarmCondition::Comm),
            10 => Some(AlarmCondition::Timeout),
            11 => Some(AlarmCondition::HwLimit),
            12 => Some(AlarmCondition::Calc),
            13 => Some(AlarmCondition::Scan),
            14 => Some(AlarmCondition::Link),
            15 => Some(AlarmCondition::Soft),
            16 => Some(AlarmCondition::BadSub),
            17 => Some(AlarmCondition::Udf),
            18 => Some(AlarmCondition::Disable),
            19 => Some(AlarmCondition::Simm),
            20 => Some(AlarmCondition::ReadAccess),
            21 => Some(AlarmCondition::WriteAccess),
            _ => None,
        };
        proof {
            if let Some(v) = r {
                lemma_condition_raw_roundtrip(v, raw);
            }
        }
        r
    }

    /// Raw code of the value.
    pub fn raw(&self) -> (r: u16)
        ensures
            r == spec_condition_raw(*self),
            r < 22,
    {
        match self {
            AlarmCondition::NoAlarm => 0,
            AlarmCondition::Read => 1,
            AlarmCondition::Write => 2,
            AlarmCondition::HiHi => 3,
            AlarmCondition::High => 4,
            AlarmCondition::LoLo => 5,
            AlarmCondition::Low => 6,
            AlarmCondition::State => 7,
            AlarmCondition::Cos => 8,
            AlarmCondition::Comm => 9,
            AlarmCondition::Timeout => 10,
            AlarmCondition::HwLimit => 11,
            AlarmCondition::Calc => 12,
            AlarmCondition::Scan => 13,
            AlarmCondition::Link => 14,
            AlarmCondition::Soft => 15,
            AlarmCondition::BadSub => 16,
            AlarmCondition::Udf => 17,
            AlarmCondition::Disable => 18,
            AlarmCondition::Simm => 19,
            AlarmCondition::ReadAccess => 20,
            AlarmCondition::WriteAccess => 21,
        }
    }
}

impl Default for AlarmCondition {
    fn default() -> (r: Self)
        ensures
            r == AlarmCondition::NoAlarm,
    {
        AlarmCondition::NoAlarm
    }
}

/// The value with a raw code below 22.
spec fn condition_witness(raw: u16) -> AlarmCondition {
    match raw {
        0 => AlarmCondition::NoAlarm,
        1 => AlarmCondition::Read,
        2 => AlarmCondition::Write,
        3 => AlarmCondition::HiHi,
        4 => AlarmCondition::High,
        5 => AlarmCondition::LoLo,
        6 => AlarmCondition::Low,
        7 => AlarmCondition::State,
        8 => AlarmCondition::Cos,
        9 => AlarmCondition::Comm,
        10 => AlarmCondition::Timeout,
        11 => AlarmCondition::HwLimit,
        12 => AlarmCondition::Calc,
        13 => AlarmCondition::Scan,
        14 => AlarmCondition::Link,
        15 => AlarmCondition::Soft,
        16 => AlarmCondition::BadSub,
        17 => AlarmCondition::Udf,
        18 => AlarmCondition::Disable,
        19 => AlarmCondition::Simm,
        20 => AlarmCondition::ReadAccess,
        21 => AlarmCondition::WriteAccess,
        _ => AlarmCondition::NoAlarm,
    }
}

/// Decoding the raw code of a value gives the value back, and a code that decodes is the
/// code of what it decodes to.
pub proof fn lemma_condition_raw_roundtrip(v: AlarmCondition, raw: u16)
    ensures
        spec_alarm_condition_from_raw(spec_condition_raw(v)) == Some(v),
        spec_alarm_condition_from_raw(raw) matches Some(w) ==> spec_condition_raw(w) == raw,
{
    let c = spec_condition_raw(v);
    assert(spec_condition_raw(choose|w: AlarmCondition| spec_condition_raw(w) == c) == c);
    if raw < 22 {
        assert(exists|w: AlarmCondition| spec_condition_raw(w) == raw) by {
            let w = condition_witness(raw);
            assert(spec_condition_raw(w) == raw);
        }
    }
}

/// Alarm of a channel.
#[derive(Debug, Clone, Copy, Hash, PartialEq, Eq, Structural)]
pub struct Alarm {
    pub condition: AlarmCondition,
    pub severity: AlarmSeverity,
}

impl Alarm {
    /// Alarm with the given raw condition and severity codes; `None` when either is out of
    /// range.
    pub fn try_from_raw(status: u16, severity: u16) -> (r: Option<Self>)
        ensures
            r is Some <==> status < 22 && severity < 4,
            r matches Some(a) ==> spec_condition_raw(a.condition) == status
                && spec_severity_raw(a.severity) == severity,
            r matches Some(a) ==> Some(a.condition) == spec_alarm_condition_from_raw(status)
                && Some(a.severity) == spec_alarm_severity_from_raw(severity),
    {
        match (AlarmCondition::try_from_raw(status), AlarmSeverity::try_from_raw(severity)) {
            (Some(condition), Some(severity)) => Some(Alarm { condition, severity }),
            _ => None,
        }
    }
}

impl Default for Alarm {
    fn default() -> (r: Self)
        ensures
            r.condition == AlarmCondition::NoAlarm,
            r.severity == AlarmSeverity::NoAlarm,
    {
        Alarm { condition: AlarmCondition::NoAlarm, severity: AlarmSeverity::NoAlarm }
    }
}


/// Alarm conditions in the order of EPICS' list of alarm conditions, from no alarm to write access.
pub open spec fn epics_conditions() -> Seq<AlarmCondition> {
    seq![AlarmCondition::NoAlarm, AlarmCondition::Read, AlarmCondition::Write, AlarmCondition::HiHi, AlarmCondition::High, AlarmCondition::LoLo, AlarmCondition::Low, AlarmCondition::State, AlarmCondition::Cos, AlarmCondition::Comm, AlarmCondition::Timeout, AlarmCondition::HwLimit, AlarmCondition::Calc, AlarmCondition::Scan, AlarmCondition::Link, AlarmCondition::Soft, AlarmCondition::BadSub, AlarmCondition::Udf, AlarmCondition::Disable, AlarmCondition::Simm, AlarmCondition::ReadAccess, AlarmCondition::WriteAccess]
}

/// The raw code of an alarm condition is its position in EPICS' list of alarm conditions (low-low comes fifth, low sixth), every code below 22 decodes to the condition at that position, and every condition has its place in the list.
pub proof fn lemma_condition_codes()
    ensures
        epics_conditions().len() == 22,
        forall|i: int| 0 <= i < 22 ==> spec_condition_raw(#[trigger] epics_conditions()[i]) == i,
        forall|raw: u16| raw < 22 ==> spec_alarm_condition_from_raw(raw) == Some(#[trigger] epics_conditions()[raw as int]),
        forall|v: AlarmCondition| #[trigger] epics_conditions().contains(v),
{
    assert forall|i: int| 0 <= i < 22 implies spec_condition_raw(#[trigger] epics_conditions()[i]) == i by {
        if i == 0 {
            assert(epics_conditions()[0] == AlarmCondition::NoAlarm);
        } else if i == 1 {
            assert(epics_conditions()[1] == AlarmCondition::Read);
        } else if i == 2 {
            assert(epics_conditions()[2] == AlarmCondition::Write);
        } else if i == 3 {
            assert(epics_conditions()[3] == AlarmCondition::HiHi);
        } else if i == 4 {
            assert(epics_conditions()[4] == AlarmCondition::High);
        } else if i == 5 {
            assert(epics_conditions()[5] == AlarmCondition::LoLo);
        } else if i == 6 {
            assert(epics_conditions()[6] == AlarmCondition::Low);
        } else if i == 7 {
            assert(epics_conditions()[7] == AlarmCondition::State);
        } else if i == 8 {
            assert(epics_conditions()[8] == AlarmCondition::Cos);
        } else if i == 9 {
            assert(epics_conditions()[9] == AlarmCondition::Comm);
        } else if i == 10 {
            assert(epics_conditions()[10] == AlarmCondition::Timeout);
        } else if i == 11 {
            assert(epics_conditions()[11] == AlarmCondition::HwLimit);
        } else if i == 12 {
            assert(epics_conditions()[12] == AlarmCondition::Calc);
        } else if i == 13 {
            assert(epics_conditions()[13] == AlarmCondition::Scan);
        } else if i == 14 {
            assert(epics_conditions()[14] == AlarmCondition::Link);
        } else if i == 15 {
            assert(epics_conditions()[15] == AlarmCondition::Soft);
        } else if i == 16 {
            assert(epics_conditions()[16] == AlarmCondition::BadSub);
        } else if i == 17 {
            assert(epics_conditions()[17] == AlarmCondition::Udf);
        } else if i == 18 {
            assert(epics_conditions()[18] == AlarmCondition::Disable);
        } else if i == 19 {
            assert(epics_conditions()[19] == AlarmCondition::Simm);
        } else if i == 20 {
            assert(epics_conditions()[20] == AlarmCondition::ReadAccess);
        } else if i == 21 {
            assert(epics_conditions()[21] == AlarmCondition::WriteAccess);
        }
    }
        lemma_condition_raw_roundtrip(AlarmCondition::NoAlarm, 0);
        lemma_condition_raw_roundtrip(AlarmCondition::Read, 0);
        lemma_condition_raw_roundtrip(AlarmCondition::Write, 0);
        lemma_condition_raw_roundtrip(AlarmCondition::HiHi, 0);
        lemma_condition_raw_roundtrip(AlarmCondition::High, 0);
        lemma_condition_raw_roundtrip(AlarmCondition::LoLo, 0);
        lemma_condition_raw_roundtrip(AlarmCondition::Low, 0);
        lemma_condition_raw_roundtrip(AlarmCondition::State, 0);
        lemma_condition_raw_roundtrip(AlarmCondition::Cos, 0);
        lemma_condition_raw_roundtrip(AlarmCondition::Comm, 0);
        lemma_condition_raw_roundtrip(AlarmCondition::Timeout, 0);
        lemma_condition_raw_roundtrip(AlarmCondition::HwLimit, 0);
        lemma_condition_raw_roundtrip(AlarmCondition::Calc, 0);
        lemma_condition_raw_roundtrip(AlarmCondition::Scan, 0);
        lemma_condition_raw_roundtrip(AlarmCondition::Link, 0);
        lemma_condition_raw_roundtrip(AlarmCondition::Soft, 0);
        lemma_condition_raw_roundtrip(AlarmCondition::BadSub, 0);
        lemma_condition_raw_roundtrip(AlarmCondition::Udf, 0);
        lemma_condition_raw_roundtrip(AlarmCondition::Disable, 0);
        lemma_condition_raw_roundtrip(AlarmCondition::Simm, 0);
        lemma_condition_raw_roundtrip(AlarmCondition::ReadAccess, 0);
        lemma_condition_raw_roundtrip(AlarmCondition::WriteAccess, 0);
    assert forall|raw: u16| raw < 22 implies spec_alarm_condition_from_raw(raw) == Some(#[trigger] epics_conditions()[raw as int]) by {
        let v = epics_conditions()[raw as int];
        assert(spec_condition_raw(v) == raw);
        lemma_condition_raw_roundtrip(v, raw);
    }
    assert forall|v: AlarmCondition| #[trigger] epics_conditions().contains(v) by {
        let i = spec_condition_raw(v) as int;
        lemma_condition_raw_roundtrip(v, 0);
        assert(0 <= i < 22);
        assert(spec_alarm_condition_from_raw(spec_condition_raw(v)) == Some(epics_conditions()[i]));
    }
}

/// Alarm severities in the order of EPICS' list of severities, from none to invalid.
pub open spec fn epics_severities() -> Seq<AlarmSeverity> {
    seq![AlarmSeverity::NoAlarm, AlarmSeverity::Minor, AlarmSeverity::Major, AlarmSeverity::Invalid]
}

/// The raw code of an alarm severity is its position in EPICS' list of severities, every code below 4 decodes to the severity at that position, and every severity has its place in the list.
pub proof fn lemma_severity_codes()
    ensures
        epics_severities().len() == 4,
        forall|i: int| 0 <= i < 4 ==> spec_severity_raw(#[trigger] epics_severities()[i]) == i,
        forall|raw: u16| raw < 4 ==> spec_alarm_severity_from_raw(raw) == Some(#[trigger] epics_severities()[raw as int]),
        forall|v: AlarmSeverity| #[trigger] epics_severities().contains(v),
{
    assert forall|i: int| 0 <= i < 4 implies spec_severity_raw(#[trigger] epics_severities()[i]) == i by {
        if i == 0 {
            assert(epics_severities()[0] == AlarmSeverity::NoAlarm);
        } else if i == 1 {
            assert(epics_severities()[1] == AlarmSeverity::Minor);
        } else if i == 2 {
            assert(epics_severities()[2] == AlarmSeverity::Major);
        } else if i == 3 {
            assert(epics_severities()[3] == AlarmSeverity::Invalid);
        }
    }
        lemma_severity_raw_roundtrip(AlarmSeverity::NoAlarm, 0);
        lemma_severity_raw_roundtrip(AlarmSeverity::Minor, 0);
        lemma_severity_raw_roundtrip(AlarmSeverity::Major, 0);
        lemma_severity_raw_roundtrip(AlarmSeverity::Invalid, 0);
    assert forall|raw: u16| raw < 4 implies spec_alarm_severity_from_raw(raw) == Some(#[trigger] epics_severities()[raw as int]) by {
        let v = epics_severities()[raw as int];
        assert(spec_severity_raw(v) == raw);
        lemma_severity_raw_roundtrip(v, raw);
    }
    assert forall|v: AlarmSeverity| #[trigger] epics_severities().contains(v) by {
        let i = spec_severity_raw(v) as int;
        lemma_severity_raw_roundtrip(v, 0);
        assert(0 <= i < 4);
        assert(spec_alarm_severity_from_raw(spec_severity_raw(v)) == Some(epics_severities()[i]));
    }
}

} // verus!
