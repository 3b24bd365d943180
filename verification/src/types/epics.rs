//! Native EPICS scalar types: enumeration values, timestamps and fixed-size C strings.
use vstd::prelude::*;

use chrono::{TimeZone, Utc};

verus! {

/// Value of an enumerated field: the index of one of its states.
#[derive(Clone, Copy, Default, Debug, PartialEq, Eq, PartialOrd, Ord, Hash, Structural)]
pub struct EpicsEnum(pub u16);

impl EpicsEnum {
    /// Wraps a state index.
    pub fn from_u16(value: u16) -> (r: Self)
        ensures
            r.0 == value,
    {
        EpicsEnum(value)
    }

    /// The state index.
    pub fn into_u16(self) -> (r: u16)
        ensures
            r == self.0,
    {
        self.0
    }
}

/// Point in time: seconds since the EPICS epoch (1990-01-01 00:00:00 UTC) and nanoseconds.
///
/// Timestamps are ordered by seconds first and nanoseconds second.
#[derive(Clone, Copy, Debug, PartialEq, Eq, PartialOrd, Ord, Hash, Structural)]
pub struct EpicsTimeStamp {
    pub sec_past_epoch: u32,
    pub nsec: u32,
}

/// `a` comes strictly before `b`: seconds first, then nanoseconds.
pub open spec fn stamp_before(a: EpicsTimeStamp, b: EpicsTimeStamp) -> bool {
    a.sec_past_epoch < b.sec_past_epoch || (a.sec_past_epoch == b.sec_past_epoch && a.nsec
        < b.nsec)
}

/// Unix timestamp of a calendar moment in UTC, as chrono computes it; `None` for a moment that
/// chrono does not represent.
pub uninterp spec fn spec_utc_timestamp(
    year: i32,
    month: u32,
    day: u32,
    hour: u32,
    min: u32,
    sec: u32,
) -> Option<i64>;

/// Calls chrono's `Utc.with_ymd_and_hms(..)`, keeps the single result and takes its
/// `timestamp()`. The result is named, not stated: this library claims only that it is a
/// function of the arguments.
#[verifier::external_body]
fn utc_timestamp(year: i32, month: u32, day: u32, hour: u32, min: u32, sec: u32) -> (r: Option<
    i64,
>)
    ensures
        r == spec_utc_timestamp(year, month, day, hour, min, sec),
{
    match Utc.with_ymd_and_hms(year, month, day, hour, min, sec).single() {
        Some(t) => Some(t.timestamp()),
        None => None,
    }
}

/// Seconds from the Unix epoch to the EPICS epoch, as chrono counts them; `None` when chrono
/// gives no single moment for either epoch or the EPICS epoch would come first.
pub open spec fn spec_epics_epoch_offset() -> Option<u64> {
    match (spec_utc_timestamp(1990, 1, 1, 0, 0, 0), spec_utc_timestamp(1970, 1, 1, 0, 0, 0)) {
        (Some(epics), Some(unix)) => if epics >= unix && epics - unix <= u64::MAX {
            Some((epics - unix) as u64)
        } else {
            None
        },
        _ => None,
    }
}

/// Whole seconds and remaining nanoseconds since the Unix epoch of a timestamp, given the
/// offset between the two epochs.
pub open spec fn spec_unix_time(stamp: EpicsTimeStamp, offset: u64) -> (int, int) {
    (
        offset + stamp.sec_past_epoch + stamp.nsec / 1_000_000_000,
        (stamp.nsec % 1_000_000_000) as int,
    )
}

impl EpicsTimeStamp {
    /// Seconds since the EPICS epoch.
    pub fn sec(&self) -> (r: u32)
        ensures
            r == self.sec_past_epoch,
    {
        self.sec_past_epoch
    }

    /// Nanoseconds within the second.
    pub fn nsec(&self) -> (r: u32)
        ensures
            r == self.nsec,
    {
        self.nsec
    }

    /// Whether this timestamp comes strictly before `other`.
    pub fn is_before(&self, other: &Self) -> (r: bool)
        ensures
            r == stamp_before(*self, *other),
    {
        self.sec_past_epoch < other.sec_past_epoch || (self.sec_past_epoch == other.sec_past_epoch
            && self.nsec < other.nsec)
    }

    /// Seconds from the Unix epoch to the EPICS epoch.
    pub fn epics_epoch_offset() -> (r: Option<u64>)
        ensures
            r == spec_epics_epoch_offset(),
    {
        let epics = utc_timestamp(1990, 1, 1, 0, 0, 0);
        let unix = utc_timestamp(1970, 1, 1, 0, 0, 0);
        match (epics, unix) {
            (Some(epics), Some(unix)) => {
                if epics >= unix {
                    let diff = (epics as i128) - (unix as i128);
                    if diff <= u64::MAX as i128 {
                        Some(diff as u64)
                    } else {
                        None
                    }
                } else {
                    None
                }
            },
            _ => None,
        }
    }

    /// Whole seconds and nanoseconds since the Unix epoch, given the offset between the epochs;
    /// nanoseconds beyond a second carry into the seconds.
    pub fn to_unix_with_offset(self, offset: u64) -> (r: (u64, u32))
        requires
            offset + self.sec_past_epoch + self.nsec / 1_000_000_000 <= u64::MAX,
        ensures
            (r.0 as int, r.1 as int) == spec_unix_time(self, offset),
    {
        let carry: u32 = self.nsec / 1_000_000_000;
        let nanos: u32 = self.nsec % 1_000_000_000;
        (offset + self.sec_past_epoch as u64 + carry as u64, nanos)
    }

    /// Whole seconds and nanoseconds since the Unix epoch; `None` when the offset between the
    /// epochs is unavailable or the seconds do not fit in a `u64`.
    pub fn to_unix(self) -> (r: Option<(u64, u32)>)
        ensures
            match spec_epics_epoch_offset() {
                Some(offset) => if offset + self.sec_past_epoch + self.nsec / 1_000_000_000
                    <= u64::MAX {
                    r matches Some(t) && (t.0 as int, t.1 as int) == spec_unix_time(self, offset)
                } else {
                    r is None
                },
                None => r is None,
            },
    {
        match Self::epics_epoch_offset() {
            Some(offset) => {
                let carry: u32 = self.nsec / 1_000_000_000;
                if offset <= u64::MAX - self.sec_past_epoch as u64 - carry as u64 {
                    Some(self.to_unix_with_offset(offset))
                } else {
                    None
                }
            },
            None => None,
        }
    }
}

/// A timestamp never comes before itself, and of two distinct timestamps exactly one comes
/// first.
pub proof fn lemma_stamp_order_total(a: EpicsTimeStamp, b: EpicsTimeStamp)
    ensures
        !stamp_before(a, a),
        a != b ==> (stamp_before(a, b) != stamp_before(b, a)),
        a == b ==> !stamp_before(a, b),
{
}

/// Coming before is transitive.
pub proof fn lemma_stamp_order_transitive(a: EpicsTimeStamp, b: EpicsTimeStamp, c: EpicsTimeStamp)
    requires
        stamp_before(a, b),
        stamp_before(b, c),
    ensures
        stamp_before(a, c),
{
}

} // verus!
