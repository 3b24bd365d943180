//! Errors reported by Channel Access, decoded from raw status codes.
use vstd::prelude::*;

use crate::caerr::{
    spec_defmsg, spec_extract_msg_no, spec_extract_severity, spec_extract_success,
    lemma_defmsg_extract, lemma_extract_defmsg, CA_EXTRACT_MSG_NO, CA_EXTRACT_SEVERITY,
    CA_EXTRACT_SUCCESS, CA_INSERT_MSG_NO, CA_INSERT_SEVERITY, CA_K_ERROR, CA_K_FATAL, CA_K_SEVERE,
    CA_K_WARNING,
};
use crate::caerr::{
    ECA_ALLOCMEM, ECA_TOLARGE, ECA_TIMEOUT, ECA_BADTYPE, ECA_INTERNAL, ECA_GETFAIL, ECA_PUTFAIL, ECA_BADCOUNT, ECA_BADSTR, ECA_DISCONN, ECA_DBLCHNL, ECA_EVDISALLOW, ECA_BADMONID, ECA_BADMASK, ECA_BADSYNCGRP, ECA_PUTCBINPROG, ECA_NORDACCESS, ECA_NOWTACCESS, ECA_ANACHRONISM, ECA_NOSEARCHADDR, ECA_NOCONVERT, ECA_BADCHID, ECA_BADFUNCPTR, ECA_ISATTACHED, ECA_UNAVAILINSERV, ECA_CHANDESTROY, ECA_BADPRIORITY, ECA_NOTTHREADED, ECA_16KARRAYCLIENT, ECA_CONNSEQTMO, ECA_UNRESPTMO,
};

verus! {

/// Kind of an error, identified by its message number.
#[derive(Debug, Clone, Copy, Hash, PartialEq, Eq, Structural)]
pub enum ErrorKind {
    Allocmem,
    Tolarge,
    Timeout,
    Badtype,
    Internal,
    Getfail,
    Putfail,
    Badcount,
    Badstr,
    Disconn,
    Dblchnl,
    Evdisallow,
    Badmonid,
    Badmask,
    Badsyncgrp,
    Putcbinprog,
    Nordaccess,
    Nowtaccess,
    Anachronism,
    Nosearchaddr,
    Noconvert,
    Badchid,
    Badfuncptr,
    Isattached,
    Unavailinserv,
    Chandestroy,
    Badpriority,
    Notthreaded,
    N16karrayclient,
    Connseqtmo,
    Unresptmo,
    Other(i32),
}

/// The message number that a kind stands for.
pub open spec fn spec_kind_msg_no(kind: ErrorKind) -> i32 {
    match kind {
        ErrorKind::Allocmem => 6,
        ErrorKind::Tolarge => 9,
        ErrorKind::Timeout => 10,
        ErrorKind::Badtype => 14,
        ErrorKind::Internal => 17,
        ErrorKind::Getfail => 19,
        ErrorKind::Putfail => 20,
        ErrorKind::Badcount => 22,
        ErrorKind::Badstr => 23,
        ErrorKind::Disconn => 24,
        ErrorKind::Dblchnl => 25,
        ErrorKind::Evdisallow => 26,
        ErrorKind::Badmonid => 30,
        ErrorKind::Badmask => 41,
        ErrorKind::Badsyncgrp => 44,
        ErrorKind::Putcbinprog => 45,
        ErrorKind::Nordaccess => 46,
        ErrorKind::Nowtaccess => 47,
        ErrorKind::Anachronism => 48,
        ErrorKind::Nosearchaddr => 49,
        ErrorKind::Noconvert => 50,
        ErrorKind::Badchid => 51,
        ErrorKind::Badfuncptr => 52,
        ErrorKind::Isattached => 53,
        ErrorKind::Unavailinserv => 54,
        ErrorKind::Chandestroy => 55,
        ErrorKind::Badpriority => 56,
        ErrorKind::Notthreaded => 57,
        ErrorKind::N16karrayclient => 58,
        ErrorKind::Connseqtmo => 59,
        ErrorKind::Unresptmo => 60,
        ErrorKind::Other(n) => n,
    }
}

/// Message numbers that have a kind of their own.
pub open spec fn is_known_msg_no(n: i32) -> bool {
    ||| n == 6
    ||| n == 9
    ||| n == 10
    ||| n == 14
    ||| n == 17
    ||| n == 19
    ||| n == 20
    ||| n == 22
    ||| n == 23
    ||| n == 24
    ||| n == 25
    ||| n == 26
    ||| n == 30
    ||| n == 41
    ||| n == 44
    ||| n == 45
    ||| n == 46
    ||| n == 47
    ||| n == 48
    ||| n == 49
    ||| n == 50
    ||| n == 51
    ||| n == 52
    ||| n == 53
    ||| n == 54
    ||| n == 55
    ||| n == 56
    ||| n == 57
    ||| n == 58
    ||| n == 59
    ||| n == 60
}

/// A kind as decoding produces it: `Other` only for message numbers without a kind of their own.
pub open spec fn is_canonical_kind(kind: ErrorKind) -> bool {
    match kind {
        ErrorKind::Other(n) => !is_known_msg_no(n),
        _ => true,
    }
}

/// Kind of the error with the given message number: the one that stands for it, else `Other`.
pub open spec fn spec_kind_from_msg_no(msg_no: i32) -> ErrorKind {
    choose|k: ErrorKind| spec_kind_msg_no(k) == msg_no && is_canonical_kind(k)
}

impl ErrorKind {
    /// Kind of the error with the given message number.
    pub fn from_raw_msg_no(msg_no: i32) -> (r: Self)
        ensures
            r == spec_kind_from_msg_no(msg_no),
            spec_kind_msg_no(r) == msg_no,
            is_canonical_kind(r),
    {
        let r = match msg_no {
            6 => ErrorKind::Allocmem,
            9 => ErrorKind::Tolarge,
            10 => ErrorKind::Timeout,
            14 => ErrorKind::Badtype,
            17 => ErrorKind::Internal,
            19 => ErrorKind::Getfail,
            20 => ErrorKind::Putfail,
            22 => ErrorKind::Badcount,
            23 => ErrorKind::Badstr,
            24 => ErrorKind::Disconn,
            25 => ErrorKind::Dblchnl,
            26 => ErrorKind::Evdisallow,
            30 => ErrorKind::Badmonid,
            41 => ErrorKind::Badmask,
            44 => ErrorKind::Badsyncgrp,
            45 => ErrorKind::Putcbinprog,
            46 => ErrorKind::Nordaccess,
            47 => ErrorKind::Nowtaccess,
            48 => ErrorKind::Anachronism,
            49 => ErrorKind::Nosearchaddr,
            50 => ErrorKind::Noconvert,
            51 => ErrorKind::Badchid,
            52 => ErrorKind::Badfuncptr,
            53 => ErrorKind::Isattached,
            54 => ErrorKind::Unavailinserv,
            55 => ErrorKind::Chandestroy,
            56 => ErrorKind::Badpriority,
            57 => ErrorKind::Notthreaded,
            58 => ErrorKind::N16karrayclient,
            59 => ErrorKind::Connseqtmo,
            60 => ErrorKind::Unresptmo,
            _ => ErrorKind::Other(msg_no),
        };
        proof {
            lemma_kind_roundtrip(r, msg_no);
        }
        r
    }

    /// Message number of the kind.
    pub fn to_raw_msg_no(self) -> (r: i32)
        ensures
            r == spec_kind_msg_no(self),
    {
        match self {
            ErrorKind::Allocmem => 6,
            ErrorKind::Tolarge => 9,
            ErrorKind::Timeout => 10,
            ErrorKind::Badtype => 14,
            ErrorKind::Internal => 17,
            ErrorKind::Getfail => 19,
            ErrorKind::Putfail => 20,
            ErrorKind::Badcount => 22,
            ErrorKind::Badstr => 23,
            ErrorKind::Disconn => 24,
            ErrorKind::Dblchnl => 25,
            ErrorKind::Evdisallow => 26,
            ErrorKind::Badmonid => 30,
            ErrorKind::Badmask => 41,
            ErrorKind::Badsyncgrp => 44,
            ErrorKind::Putcbinprog => 45,
            ErrorKind::Nordaccess => 46,
            ErrorKind::Nowtaccess => 47,
            ErrorKind::Anachronism => 48,
            ErrorKind::Nosearchaddr => 49,
            ErrorKind::Noconvert => 50,
            ErrorKind::Badchid => 51,
            ErrorKind::Badfuncptr => 52,
            ErrorKind::Isattached => 53,
            ErrorKind::Unavailinserv => 54,
            ErrorKind::Chandestroy => 55,
            ErrorKind::Badpriority => 56,
            ErrorKind::Notthreaded => 57,
            ErrorKind::N16karrayclient => 58,
            ErrorKind::Connseqtmo => 59,
            ErrorKind::Unresptmo => 60,
            ErrorKind::Other(msg_no) => msg_no,
        }
    }
}

/// Two kinds that decoding can produce are equal when their message numbers are.
pub proof fn lemma_kind_unique(a: ErrorKind, b: ErrorKind)
    requires
        is_canonical_kind(a),
        is_canonical_kind(b),
        spec_kind_msg_no(a) == spec_kind_msg_no(b),
    ensures
        a == b,
{
}

/// The kind that stands for a known message number.
spec fn kind_with_msg_no(msg_no: i32) -> ErrorKind {
    match msg_no {
        6 => ErrorKind::Allocmem,
        9 => ErrorKind::Tolarge,
        10 => ErrorKind::Timeout,
        14 => ErrorKind::Badtype,
        17 => ErrorKind::Internal,
        19 => ErrorKind::Getfail,
        20 => ErrorKind::Putfail,
        22 => ErrorKind::Badcount,
        23 => ErrorKind::Badstr,
        24 => ErrorKind::Disconn,
        25 => ErrorKind::Dblchnl,
        26 => ErrorKind::Evdisallow,
        30 => ErrorKind::Badmonid,
        41 => ErrorKind::Badmask,
        44 => ErrorKind::Badsyncgrp,
        45 => ErrorKind::Putcbinprog,
        46 => ErrorKind::Nordaccess,
        47 => ErrorKind::Nowtaccess,
        48 => ErrorKind::Anachronism,
        49 => ErrorKind::Nosearchaddr,
        50 => ErrorKind::Noconvert,
        51 => ErrorKind::Badchid,
        52 => ErrorKind::Badfuncptr,
        53 => ErrorKind::Isattached,
        54 => ErrorKind::Unavailinserv,
        55 => ErrorKind::Chandestroy,
        56 => ErrorKind::Badpriority,
        57 => ErrorKind::Notthreaded,
        58 => ErrorKind::N16karrayclient,
        59 => ErrorKind::Connseqtmo,
        60 => ErrorKind::Unresptmo,
        _ => ErrorKind::Other(msg_no),
    }
}

/// Decoding the message number of a kind that decoding can produce gives the kind back, and
/// the kind that a message number decodes to has that message number.
pub proof fn lemma_kind_roundtrip(kind: ErrorKind, msg_no: i32)
    ensures
        is_canonical_kind(kind) ==> spec_kind_from_msg_no(spec_kind_msg_no(kind)) == kind,
        spec_kind_msg_no(spec_kind_from_msg_no(msg_no)) == msg_no,
        is_canonical_kind(spec_kind_from_msg_no(msg_no)),
{
    let w = if is_known_msg_no(msg_no) {
        kind_with_msg_no(msg_no)
    } else {
        ErrorKind::Other(msg_no)
    };
    assert(spec_kind_msg_no(w) == msg_no && is_canonical_kind(w));
    if is_canonical_kind(kind) {
        let n = spec_kind_msg_no(kind);
        assert(spec_kind_msg_no(kind) == n && is_canonical_kind(kind));
        lemma_kind_unique(kind, spec_kind_from_msg_no(n));
    }
}

/// Each named kind carries the message number of the status code it is named after, so that
/// this status code decodes to that kind: `ECA_PUTFAIL` to `Putfail`, `ECA_GETFAIL` to
/// `Getfail`, and so on for every named kind.
pub proof fn lemma_kinds_of_status_codes()
    ensures
        spec_kind_msg_no(ErrorKind::Allocmem) == spec_extract_msg_no(ECA_ALLOCMEM),
        spec_decode(ECA_ALLOCMEM).kind == ErrorKind::Allocmem,
        spec_kind_msg_no(ErrorKind::Tolarge) == spec_extract_msg_no(ECA_TOLARGE),
        spec_decode(ECA_TOLARGE).kind == ErrorKind::Tolarge,
        spec_kind_msg_no(ErrorKind::Timeout) == spec_extract_msg_no(ECA_TIMEOUT),
        spec_decode(ECA_TIMEOUT).kind == ErrorKind::Timeout,
        spec_kind_msg_no(ErrorKind::Badtype) == spec_extract_msg_no(ECA_BADTYPE),
        spec_decode(ECA_BADTYPE).kind == ErrorKind::Badtype,
        spec_kind_msg_no(ErrorKind::Internal) == spec_extract_msg_no(ECA_INTERNAL),
        spec_decode(ECA_INTERNAL).kind == ErrorKind::Internal,
        spec_kind_msg_no(ErrorKind::Getfail) == spec_extract_msg_no(ECA_GETFAIL),
        spec_decode(ECA_GETFAIL).kind == ErrorKind::Getfail,
        spec_kind_msg_no(ErrorKind::Putfail) == spec_extract_msg_no(ECA_PUTFAIL),
        spec_decode(ECA_PUTFAIL).kind == ErrorKind::Putfail,
        spec_kind_msg_no(ErrorKind::Badcount) == spec_extract_msg_no(ECA_BADCOUNT),
        spec_decode(ECA_BADCOUNT).kind == ErrorKind::Badcount,
        spec_kind_msg_no(ErrorKind::Badstr) == spec_extract_msg_no(ECA_BADSTR),
        spec_decode(ECA_BADSTR).kind == ErrorKind::Badstr,
        spec_kind_msg_no(ErrorKind::Disconn) == spec_extract_msg_no(ECA_DISCONN),
        spec_decode(ECA_DISCONN).kind == ErrorKind::Disconn,
        spec_kind_msg_no(ErrorKind::Dblchnl) == spec_extract_msg_no(ECA_DBLCHNL),
        spec_decode(ECA_DBLCHNL).kind == ErrorKind::Dblchnl,
        spec_kind_msg_no(ErrorKind::Evdisallow) == spec_extract_msg_no(ECA_EVDISALLOW),
        spec_decode(ECA_EVDISALLOW).kind == ErrorKind::Evdisallow,
        spec_kind_msg_no(ErrorKind::Badmonid) == spec_extract_msg_no(ECA_BADMONID),
        spec_decode(ECA_BADMONID).kind == ErrorKind::Badmonid,
        spec_kind_msg_no(ErrorKind::Badmask) == spec_extract_msg_no(ECA_BADMASK),
        spec_decode(ECA_BADMASK).kind == ErrorKind::Badmask,
        spec_kind_msg_no(ErrorKind::Badsyncgrp) == spec_extract_msg_no(ECA_BADSYNCGRP),
        spec_decode(ECA_BADSYNCGRP).kind == ErrorKind::Badsyncgrp,
        spec_kind_msg_no(ErrorKind::Putcbinprog) == spec_extract_msg_no(ECA_PUTCBINPROG),
        spec_decode(ECA_PUTCBINPROG).kind == ErrorKind::Putcbinprog,
        spec_kind_msg_no(ErrorKind::Nordaccess) == spec_extract_msg_no(ECA_NORDACCESS),
        spec_decode(ECA_NORDACCESS).kind == ErrorKind::Nordaccess,
        spec_kind_msg_no(ErrorKind::Nowtaccess) == spec_extract_msg_no(ECA_NOWTACCESS),
        spec_decode(ECA_NOWTACCESS).kind == ErrorKind::Nowtaccess,
        spec_kind_msg_no(ErrorKind::Anachronism) == spec_extract_msg_no(ECA_ANACHRONISM),
        spec_decode(ECA_ANACHRONISM).kind == ErrorKind::Anachronism,
        spec_kind_msg_no(ErrorKind::Nosearchaddr) == spec_extract_msg_no(ECA_NOSEARCHADDR),
        spec_decode(ECA_NOSEARCHADDR).kind == ErrorKind::Nosearchaddr,
        spec_kind_msg_no(ErrorKind::Noconvert) == spec_extract_msg_no(ECA_NOCONVERT),
        spec_decode(ECA_NOCONVERT).kind == ErrorKind::Noconvert,
        spec_kind_msg_no(ErrorKind::Badchid) == spec_extract_msg_no(ECA_BADCHID),
        spec_decode(ECA_BADCHID).kind == ErrorKind::Badchid,
        spec_kind_msg_no(ErrorKind::Badfuncptr) == spec_extract_msg_no(ECA_BADFUNCPTR),
        spec_decode(ECA_BADFUNCPTR).kind == ErrorKind::Badfuncptr,
        spec_kind_msg_no(ErrorKind::Isattached) == spec_extract_msg_no(ECA_ISATTACHED),
        spec_decode(ECA_ISATTACHED).kind == ErrorKind::Isattached,
        spec_kind_msg_no(ErrorKind::Unavailinserv) == spec_extract_msg_no(ECA_UNAVAILINSERV),
        spec_decode(ECA_UNAVAILINSERV).kind == ErrorKind::Unavailinserv,
        spec_kind_msg_no(ErrorKind::Chandestroy) == spec_extract_msg_no(ECA_CHANDESTROY),
        spec_decode(ECA_CHANDESTROY).kind == ErrorKind::Chandestroy,
        spec_kind_msg_no(ErrorKind::Badpriority) == spec_extract_msg_no(ECA_BADPRIORITY),
        spec_decode(ECA_BADPRIORITY).kind == ErrorKind::Badpriority,
        spec_kind_msg_no(ErrorKind::Notthreaded) == spec_extract_msg_no(ECA_NOTTHREADED),
        spec_decode(ECA_NOTTHREADED).kind == ErrorKind::Notthreaded,
        spec_kind_msg_no(ErrorKind::N16karrayclient) == spec_extract_msg_no(ECA_16KARRAYCLIENT),
        spec_decode(ECA_16KARRAYCLIENT).kind == ErrorKind::N16karrayclient,
        spec_kind_msg_no(ErrorKind::Connseqtmo) == spec_extract_msg_no(ECA_CONNSEQTMO),
        spec_decode(ECA_CONNSEQTMO).kind == ErrorKind::Connseqtmo,
        spec_kind_msg_no(ErrorKind::Unresptmo) == spec_extract_msg_no(ECA_UNRESPTMO),
        spec_decode(ECA_UNRESPTMO).kind == ErrorKind::Unresptmo,
{
    assert((48i32 & 0xfff8i32) >> 3i32 == 6i32 && (72i32 & 0xfff8i32) >> 3i32 == 9i32 && (80i32 & 0xfff8i32) >> 3i32 == 10i32 && (114i32 & 0xfff8i32) >> 3i32 == 14i32 && (142i32 & 0xfff8i32) >> 3i32 == 17i32 && (152i32 & 0xfff8i32) >> 3i32 == 19i32 && (160i32 & 0xfff8i32) >> 3i32 == 20i32 && (176i32 & 0xfff8i32) >> 3i32 == 22i32 && (186i32 & 0xfff8i32) >> 3i32 == 23i32 && (192i32 & 0xfff8i32) >> 3i32 == 24i32 && (200i32 & 0xfff8i32) >> 3i32 == 25i32 && (210i32 & 0xfff8i32) >> 3i32 == 26i32 && (242i32 & 0xfff8i32) >> 3i32 == 30i32 && (330i32 & 0xfff8i32) >> 3i32 == 41i32 && (354i32 & 0xfff8i32) >> 3i32 == 44i32 && (362i32 & 0xfff8i32) >> 3i32 == 45i32 && (368i32 & 0xfff8i32) >> 3i32 == 46i32 && (376i32 & 0xfff8i32) >> 3i32 == 47i32 && (386i32 & 0xfff8i32) >> 3i32 == 48i32 && (392i32 & 0xfff8i32) >> 3i32 == 49i32 && (400i32 & 0xfff8i32) >> 3i32 == 50i32 && (410i32 & 0xfff8i32) >> 3i32 == 51i32 && (418i32 & 0xfff8i32) >> 3i32 == 52i32 && (424i32 & 0xfff8i32) >> 3i32 == 53i32 && (432i32 & 0xfff8i32) >> 3i32 == 54i32 && (440i32 & 0xfff8i32) >> 3i32 == 55i32 && (450i32 & 0xfff8i32) >> 3i32 == 56i32 && (458i32 & 0xfff8i32) >> 3i32 == 57i32 && (464i32 & 0xfff8i32) >> 3i32 == 58i32 && (472i32 & 0xfff8i32) >> 3i32 == 59i32 && (480i32 & 0xfff8i32) >> 3i32 == 60i32) by (bit_vector);
    lemma_kind_roundtrip(ErrorKind::Allocmem, 0);
    lemma_kind_roundtrip(ErrorKind::Tolarge, 0);
    lemma_kind_roundtrip(ErrorKind::Timeout, 0);
    lemma_kind_roundtrip(ErrorKind::Badtype, 0);
    lemma_kind_roundtrip(ErrorKind::Internal, 0);
    lemma_kind_roundtrip(ErrorKind::Getfail, 0);
    lemma_kind_roundtrip(ErrorKind::Putfail, 0);
    lemma_kind_roundtrip(ErrorKind::Badcount, 0);
    lemma_kind_roundtrip(ErrorKind::Badstr, 0);
    lemma_kind_roundtrip(ErrorKind::Disconn, 0);
    lemma_kind_roundtrip(ErrorKind::Dblchnl, 0);
    lemma_kind_roundtrip(ErrorKind::Evdisallow, 0);
    lemma_kind_roundtrip(ErrorKind::Badmonid, 0);
    lemma_kind_roundtrip(ErrorKind::Badmask, 0);
    lemma_kind_roundtrip(ErrorKind::Badsyncgrp, 0);
    lemma_kind_roundtrip(ErrorKind::Putcbinprog, 0);
    lemma_kind_roundtrip(ErrorKind::Nordaccess, 0);
    lemma_kind_roundtrip(ErrorKind::Nowtaccess, 0);
    lemma_kind_roundtrip(ErrorKind::Anachronism, 0);
    lemma_kind_roundtrip(ErrorKind::Nosearchaddr, 0);
    lemma_kind_roundtrip(ErrorKind::Noconvert, 0);
    lemma_kind_roundtrip(ErrorKind::Badchid, 0);
    lemma_kind_roundtrip(ErrorKind::Badfuncptr, 0);
    lemma_kind_roundtrip(ErrorKind::Isattached, 0);
    lemma_kind_roundtrip(ErrorKind::Unavailinserv, 0);
    lemma_kind_roundtrip(ErrorKind::Chandestroy, 0);
    lemma_kind_roundtrip(ErrorKind::Badpriority, 0);
    lemma_kind_roundtrip(ErrorKind::Notthreaded, 0);
    lemma_kind_roundtrip(ErrorKind::N16karrayclient, 0);
    lemma_kind_roundtrip(ErrorKind::Connseqtmo, 0);
    lemma_kind_roundtrip(ErrorKind::Unresptmo, 0);
}

/// Severity of an error.
#[derive(Debug, Clone, Copy, Hash, PartialEq, Eq, Structural)]
pub enum ErrorSeverity {
    Error,
    Warning,
    Severe,
    Fatal,
    Unknown(i32),
}

/// The raw severity that a severity stands for.
pub open spec fn spec_severity_raw(severity: ErrorSeverity) -> i32 {
    match severity {
        ErrorSeverity::Error => CA_K_ERROR,
        ErrorSeverity::Warning => CA_K_WARNING,
        ErrorSeverity::Severe => CA_K_SEVERE,
        ErrorSeverity::Fatal => CA_K_FATAL,
        ErrorSeverity::Unknown(sev) => sev,
    }
}

/// Raw severities that have a variant of their own.
pub open spec fn is_known_severity(sev: i32) -> bool {
    sev == CA_K_ERROR || sev == CA_K_WARNING || sev == CA_K_SEVERE || sev == CA_K_FATAL
}

/// A severity as decoding produces it: `Unknown` only for raw values without a variant.
pub open spec fn is_canonical_severity(severity: ErrorSeverity) -> bool {
    match severity {
        ErrorSeverity::Unknown(sev) => !is_known_severity(sev),
        _ => true,
    }
}

/// Severity with the given raw value: the variant that stands for it, else `Unknown`.
pub open spec fn spec_severity_from_raw(severity: i32) -> ErrorSeverity {
    choose|s: ErrorSeverity| spec_severity_raw(s) == severity && is_canonical_severity(s)
}

impl ErrorSeverity {
    /// Severity with the given raw value.
    pub fn from_raw_severity(severity: i32) -> (r: Self)
        ensures
            r == spec_severity_from_raw(severity),
            spec_severity_raw(r) == severity,
            is_canonical_severity(r),
    {
        let r = match severity {
            CA_K_ERROR => ErrorSeverity::Error,
            CA_K_WARNING => ErrorSeverity::Warning,
            CA_K_SEVERE => ErrorSeverity::Severe,
            CA_K_FATAL => ErrorSeverity::Fatal,
            sev => ErrorSeverity::Unknown(sev),
        };
        proof {
            lemma_severity_roundtrip(r, severity);
        }
        r
    }

    /// Raw value of the severity.
    pub fn to_raw_severity(self) -> (r: i32)
        ensures
            r == spec_severity_raw(self),
    {
        match self {
            ErrorSeverity::Error => CA_K_ERROR,
            ErrorSeverity::Warning => CA_K_WARNING,
            ErrorSeverity::Severe => CA_K_SEVERE,
            ErrorSeverity::Fatal => CA_K_FATAL,
            ErrorSeverity::Unknown(sev) => sev,
        }
    }
}

/// Two severities that decoding can produce are equal when their raw values are.
pub proof fn lemma_severity_unique(a: ErrorSeverity, b: ErrorSeverity)
    requires
        is_canonical_severity(a),
        is_canonical_severity(b),
        spec_severity_raw(a) == spec_severity_raw(b),
    ensures
        a == b,
{
}

/// Decoding the raw value of a severity that decoding can produce gives the severity back, and
/// the severity that a raw value decodes to has that raw value.
pub proof fn lemma_severity_roundtrip(severity: ErrorSeverity, raw: i32)
    ensures
        is_canonical_severity(severity) ==> spec_severity_from_raw(spec_severity_raw(severity))
            == severity,
        spec_severity_raw(spec_severity_from_raw(raw)) == raw,
        is_canonical_severity(spec_severity_from_raw(raw)),
{
    let w = if raw == CA_K_ERROR {
        ErrorSeverity::Error
    } else if raw == CA_K_WARNING {
        ErrorSeverity::Warning
    } else if raw == CA_K_SEVERE {
        ErrorSeverity::Severe
    } else if raw == CA_K_FATAL {
        ErrorSeverity::Fatal
    } else {
        ErrorSeverity::Unknown(raw)
    };
    assert(spec_severity_raw(w) == raw && is_canonical_severity(w));
    if is_canonical_severity(severity) {
        let n = spec_severity_raw(severity);
        assert(spec_severity_raw(severity) == n && is_canonical_severity(severity));
        lemma_severity_unique(severity, spec_severity_from_raw(n));
    }
}

/// Error that can occur in an EPICS client or server.
#[derive(Debug, Clone, Copy, PartialEq, Eq, Structural)]
pub struct Error {
    pub kind: ErrorKind,
    pub severity: ErrorSeverity,
}

/// The error that the status code `eca` decodes to, whatever its success bit.
pub open spec fn spec_decode(eca: i32) -> Error {
    Error {
        kind: spec_kind_from_msg_no(spec_extract_msg_no(eca)),
        severity: spec_severity_from_raw(spec_extract_severity(eca)),
    }
}

/// The status code that an error encodes to.
pub open spec fn spec_encode(error: Error) -> i32 {
    spec_defmsg(spec_severity_raw(error.severity), spec_kind_msg_no(error.kind))
}

impl Error {
    /// Decodes a status code; `None` when the code reports success.
    pub fn try_from_raw(eca: i32) -> (r: Option<Self>)
        ensures
            r == (if spec_extract_success(eca) != 0 {
                None
            } else {
                Some(spec_decode(eca))
            }),
    {
        if CA_EXTRACT_SUCCESS(eca) != 0 {
            None
        } else {
            Some(Self::from_raw_unchecked(eca))
        }
    }

    /// Decodes a status code without looking at its success bit.
    pub(crate) fn from_raw_unchecked(eca: i32) -> (r: Self)
        ensures
            r == spec_decode(eca),
    {
        Error {
            kind: ErrorKind::from_raw_msg_no(CA_EXTRACT_MSG_NO(eca)),
            severity: ErrorSeverity::from_raw_severity(CA_EXTRACT_SEVERITY(eca)),
        }
    }

    /// Encodes the error as a status code.
    pub fn into_raw(self) -> (r: i32)
        ensures
            r == spec_encode(self),
    {
        CA_INSERT_MSG_NO(self.kind.to_raw_msg_no()) | CA_INSERT_SEVERITY(
            self.severity.to_raw_severity(),
        )
    }
}

/// Converts a raw status code to a `Result`.
pub fn result_from_raw(eca: i32) -> (r: Result<(), Error>)
    ensures
        r == (if spec_extract_success(eca) != 0 {
            Ok(())
        } else {
            Err(spec_decode(eca))
        }),
{
    match Error::try_from_raw(eca) {
        None => Ok(()),
        Some(err) => Err(err),
    }
}

/// Decoding a status code and encoding the result gives back the code's low sixteen bits.
pub proof fn lemma_encode_after_decode(eca: i32)
    ensures
        spec_encode(spec_decode(eca)) == eca & 0xffffi32,
{
    lemma_kind_roundtrip(ErrorKind::Other(0), spec_extract_msg_no(eca));
    lemma_severity_roundtrip(ErrorSeverity::Error, spec_extract_severity(eca));
    lemma_defmsg_extract(eca);
}

/// An error whose message number fits in its field and whose severity is a known one is what
/// its encoding decodes to, and that encoding reports failure.
pub proof fn lemma_decode_after_encode(error: Error)
    requires
        is_canonical_kind(error.kind),
        0 <= spec_kind_msg_no(error.kind) < 8192,
        !(error.severity is Unknown),
    ensures
        spec_decode(spec_encode(error)) == error,
        spec_extract_success(spec_encode(error)) == 0,
{
    lemma_extract_defmsg(spec_severity_raw(error.severity), spec_kind_msg_no(error.kind));
    lemma_kind_roundtrip(error.kind, 0);
    lemma_severity_roundtrip(error.severity, 0);
    assert(CA_K_ERROR & 1i32 == 0 && CA_K_WARNING & 1i32 == 0 && CA_K_SEVERE & 1i32 == 0
        && CA_K_FATAL & 1i32 == 0) by (bit_vector);
}

} // verus!
verus! {
/// The error that the status code `ECA_ALLOCMEM` stands for.
pub fn allocmem() -> (r: Error)
    ensures
        r == spec_decode(ECA_ALLOCMEM),
{
    Error::from_raw_unchecked(ECA_ALLOCMEM)
}

/// The error that the status code `ECA_TOLARGE` stands for.
pub fn tolarge() -> (r: Error)
    ensures
        r == spec_decode(ECA_TOLARGE),
{
    Error::from_raw_unchecked(ECA_TOLARGE)
}

/// The error that the status code `ECA_TIMEOUT` stands for.
pub fn timeout() -> (r: Error)
    ensures
        r == spec_decode(ECA_TIMEOUT),
{
    Error::from_raw_unchecked(ECA_TIMEOUT)
}

/// The error that the status code `ECA_BADTYPE` stands for.
pub open spec fn spec_badtype() -> Error {
    Error { kind: ErrorKind::Badtype, severity: ErrorSeverity::Error }
}

/// The error that the status code `ECA_BADTYPE` stands for.
pub fn badtype() -> (r: Error)
    ensures
        r == spec_decode(ECA_BADTYPE),
        r == spec_badtype(),
{
    proof {
        assert((114i32 & 0xfff8i32) >> 3i32 == 14i32 && 114i32 & 7i32 == 2i32) by (bit_vector);
        lemma_kind_roundtrip(ErrorKind::Badtype, 0);
        lemma_severity_roundtrip(ErrorSeverity::Error, 0);
    }
    Error::from_raw_unchecked(ECA_BADTYPE)
}

/// The error that the status code `ECA_INTERNAL` stands for.
pub fn internal() -> (r: Error)
    ensures
        r == spec_decode(ECA_INTERNAL),
{
    Error::from_raw_unchecked(ECA_INTERNAL)
}

/// The error that the status code `ECA_GETFAIL` stands for.
pub fn getfail() -> (r: Error)
    ensures
        r == spec_decode(ECA_GETFAIL),
{
    Error::from_raw_unchecked(ECA_GETFAIL)
}

/// The error that the status code `ECA_PUTFAIL` stands for.
pub fn putfail() -> (r: Error)
    ensures
        r == spec_decode(ECA_PUTFAIL),
{
    Error::from_raw_unchecked(ECA_PUTFAIL)
}

/// The error that the status code `ECA_BADCOUNT` stands for.
pub open spec fn spec_badcount() -> Error {
    Error { kind: ErrorKind::Badcount, severity: ErrorSeverity::Warning }
}

/// The error that the status code `ECA_BADCOUNT` stands for.
pub fn badcount() -> (r: Error)
    ensures
        r == spec_decode(ECA_BADCOUNT),
        r == spec_badcount(),
{
    proof {
        assert((176i32 & 0xfff8i32) >> 3i32 == 22i32 && 176i32 & 7i32 == 0i32) by (bit_vector);
        lemma_kind_roundtrip(ErrorKind::Badcount, 0);
        lemma_severity_roundtrip(ErrorSeverity::Warning, 0);
    }
    Error::from_raw_unchecked(ECA_BADCOUNT)
}

/// The error that the status code `ECA_BADSTR` stands for.
pub fn badstr() -> (r: Error)
    ensures
        r == spec_decode(ECA_BADSTR),
{
    Error::from_raw_unchecked(ECA_BADSTR)
}

/// The error that the status code `ECA_DISCONN` stands for.
pub open spec fn spec_disconn() -> Error {
    Error { kind: ErrorKind::Disconn, severity: ErrorSeverity::Warning }
}

/// The error that the status code `ECA_DISCONN` stands for.
pub fn disconn() -> (r: Error)
    ensures
        r == spec_decode(ECA_DISCONN),
        r == spec_disconn(),
{
    proof {
        assert((192i32 & 0xfff8i32) >> 3i32 == 24i32 && 192i32 & 7i32 == 0i32) by (bit_vector);
        lemma_kind_roundtrip(ErrorKind::Disconn, 0);
        lemma_severity_roundtrip(ErrorSeverity::Warning, 0);
    }
    Error::from_raw_unchecked(ECA_DISCONN)
}

/// The error that the status code `ECA_DBLCHNL` stands for.
pub fn dblchnl() -> (r: Error)
    ensures
        r == spec_decode(ECA_DBLCHNL),
{
    Error::from_raw_unchecked(ECA_DBLCHNL)
}

/// The error that the status code `ECA_EVDISALLOW` stands for.
pub fn evdisallow() -> (r: Error)
    ensures
        r == spec_decode(ECA_EVDISALLOW),
{
    Error::from_raw_unchecked(ECA_EVDISALLOW)
}

/// The error that the status code `ECA_BADMONID` stands for.
pub fn badmonid() -> (r: Error)
    ensures
        r == spec_decode(ECA_BADMONID),
{
    Error::from_raw_unchecked(ECA_BADMONID)
}

/// The error that the status code `ECA_BADMASK` stands for.
pub fn badmask() -> (r: Error)
    ensures
        r == spec_decode(ECA_BADMASK),
{
    Error::from_raw_unchecked(ECA_BADMASK)
}

/// The error that the status code `ECA_BADSYNCGRP` stands for.
pub fn badsyncgrp() -> (r: Error)
    ensures
        r == spec_decode(ECA_BADSYNCGRP),
{
    Error::from_raw_unchecked(ECA_BADSYNCGRP)
}

/// The error that the status code `ECA_PUTCBINPROG` stands for.
pub fn putcbinprog() -> (r: Error)
    ensures
        r == spec_decode(ECA_PUTCBINPROG),
{
    Error::from_raw_unchecked(ECA_PUTCBINPROG)
}

/// The error that the status code `ECA_NORDACCESS` stands for.
pub fn nordaccess() -> (r: Error)
    ensures
        r == spec_decode(ECA_NORDACCESS),
{
    Error::from_raw_unchecked(ECA_NORDACCESS)
}

/// The error that the status code `ECA_NOWTACCESS` stands for.
pub fn nowtaccess() -> (r: Error)
    ensures
        r == spec_decode(ECA_NOWTACCESS),
{
    Error::from_raw_unchecked(ECA_NOWTACCESS)
}

/// The error that the status code `ECA_ANACHRONISM` stands for.
pub fn anachronism() -> (r: Error)
    ensures
        r == spec_decode(ECA_ANACHRONISM),
{
    Error::from_raw_unchecked(ECA_ANACHRONISM)
}

/// The error that the status code `ECA_NOSEARCHADDR` stands for.
pub fn nosearchaddr() -> (r: Error)
    ensures
        r == spec_decode(ECA_NOSEARCHADDR),
{
    Error::from_raw_unchecked(ECA_NOSEARCHADDR)
}

/// The error that the status code `ECA_NOCONVERT` stands for.
pub fn noconvert() -> (r: Error)
    ensures
        r == spec_decode(ECA_NOCONVERT),
{
    Error::from_raw_unchecked(ECA_NOCONVERT)
}

/// The error that the status code `ECA_BADCHID` stands for.
pub fn badchid() -> (r: Error)
    ensures
        r == spec_decode(ECA_BADCHID),
{
    Error::from_raw_unchecked(ECA_BADCHID)
}

/// The error that the status code `ECA_BADFUNCPTR` stands for.
pub fn badfuncptr() -> (r: Error)
    ensures
        r == spec_decode(ECA_BADFUNCPTR),
{
    Error::from_raw_unchecked(ECA_BADFUNCPTR)
}

/// The error that the status code `ECA_ISATTACHED` stands for.
pub open spec fn spec_isattached() -> Error {
    Error { kind: ErrorKind::Isattached, severity: ErrorSeverity::Warning }
}

/// The error that the status code `ECA_ISATTACHED` stands for.
pub fn isattached() -> (r: Error)
    ensures
        r == spec_decode(ECA_ISATTACHED),
        r == spec_isattached(),
{
    proof {
        assert((424i32 & 0xfff8i32) >> 3i32 == 53i32 && 424i32 & 7i32 == 0i32) by (bit_vector);
        lemma_kind_roundtrip(ErrorKind::Isattached, 0);
        lemma_severity_roundtrip(ErrorSeverity::Warning, 0);
    }
    Error::from_raw_unchecked(ECA_ISATTACHED)
}

/// The error that the status code `ECA_UNAVAILINSERV` stands for.
pub fn unavailinserv() -> (r: Error)
    ensures
        r == spec_decode(ECA_UNAVAILINSERV),
{
    Error::from_raw_unchecked(ECA_UNAVAILINSERV)
}

/// The error that the status code `ECA_CHANDESTROY` stands for.
pub fn chandestroy() -> (r: Error)
    ensures
        r == spec_decode(ECA_CHANDESTROY),
{
    Error::from_raw_unchecked(ECA_CHANDESTROY)
}

/// The error that the status code `ECA_BADPRIORITY` stands for.
pub fn badpriority() -> (r: Error)
    ensures
        r == spec_decode(ECA_BADPRIORITY),
{
    Error::from_raw_unchecked(ECA_BADPRIORITY)
}

/// The error that the status code `ECA_NOTTHREADED` stands for.
pub fn notthreaded() -> (r: Error)
    ensures
        r == spec_decode(ECA_NOTTHREADED),
{
    Error::from_raw_unchecked(ECA_NOTTHREADED)
}

/// The error that the status code `ECA_16KARRAYCLIENT` stands for.
pub fn n16karrayclient() -> (r: Error)
    ensures
        r == spec_decode(ECA_16KARRAYCLIENT),
{
    Error::from_raw_unchecked(ECA_16KARRAYCLIENT)
}

/// The error that the status code `ECA_CONNSEQTMO` stands for.
pub fn connseqtmo() -> (r: Error)
    ensures
        r == spec_decode(ECA_CONNSEQTMO),
{
    Error::from_raw_unchecked(ECA_CONNSEQTMO)
}

/// The error that the status code `ECA_UNRESPTMO` stands for.
pub fn unresptmo() -> (r: Error)
    ensures
        r == spec_decode(ECA_UNRESPTMO),
{
    Error::from_raw_unchecked(ECA_UNRESPTMO)
}

} // verus!
