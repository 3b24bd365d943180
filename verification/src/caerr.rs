//! Bit layout of Channel Access status codes.
#![allow(non_snake_case)]

use vstd::prelude::*;

verus! {

pub const CA_K_INFO: i32 = 3;
pub const CA_K_ERROR: i32 = 2;
pub const CA_K_SUCCESS: i32 = 1;
pub const CA_K_WARNING: i32 = 0;
pub const CA_K_SEVERE: i32 = 4;
pub const CA_K_FATAL: i32 = 6;

pub const CA_M_MSG_NO: i32 = 65528;
pub const CA_M_SEVERITY: i32 = 7;
pub const CA_M_LEVEL: i32 = 3;
pub const CA_M_SUCCESS: i32 = 1;
pub const CA_M_ERROR: i32 = 2;
pub const CA_M_SEVERE: i32 = 4;

pub const CA_S_MSG_NO: i32 = 13;
pub const CA_S_SEVERITY: i32 = 3;

pub const CA_V_MSG_NO: i32 = 3;
pub const CA_V_SEVERITY: i32 = 0;
pub const CA_V_SUCCESS: i32 = 0;

/// Message number held in bits 3..16 of a status code.
pub open spec fn spec_extract_msg_no(code: i32) -> i32 {
    (code & 0xfff8i32) >> 3i32
}

/// Severity held in bits 0..3 of a status code.
pub open spec fn spec_extract_severity(code: i32) -> i32 {
    code & 7i32
}

/// Success flag held in bit 0 of a status code.
pub open spec fn spec_extract_success(code: i32) -> i32 {
    code & 1i32
}

/// A message number moved into bits 3..16.
pub open spec fn spec_insert_msg_no(code: i32) -> i32 {
    (code << 3i32) & 0xfff8i32
}

/// A severity moved into bits 0..3.
pub open spec fn spec_insert_severity(code: i32) -> i32 {
    code & 7i32
}

/// A success flag moved into bit 0.
pub open spec fn spec_insert_success(code: i32) -> i32 {
    code & 1i32
}

/// The status code with the given severity and message number.
pub open spec fn spec_defmsg(severity: i32, number: i32) -> i32 {
    spec_insert_msg_no(number) | spec_insert_severity(severity)
}

/// Message number of a status code.
pub fn CA_EXTRACT_MSG_NO(code: i32) -> (r: i32)
    ensures
        r == spec_extract_msg_no(code),
        0 <= r < 8192,
{
    let r = (code & CA_M_MSG_NO) >> CA_V_MSG_NO;
    assert(r == (code & 0xfff8i32) >> 3i32 && 0 <= r && r < 8192) by (bit_vector)
        requires
            r == (code & 0xfff8i32) >> 3i32,
    ;
    r
}

/// Severity of a status code.
pub fn CA_EXTRACT_SEVERITY(code: i32) -> (r: i32)
    ensures
        r == spec_extract_severity(code),
        0 <= r < 8,
{
    let r = (code & CA_M_SEVERITY) >> CA_V_SEVERITY;
    assert(r == code & 7i32 && 0 <= r && r < 8) by (bit_vector)
        requires
            r == (code & 7i32) >> 0i32,
    ;
    r
}

/// Success flag of a status code: 1 for success, 0 for failure.
pub fn CA_EXTRACT_SUCCESS(code: i32) -> (r: i32)
    ensures
        r == spec_extract_success(code),
        r == 0 || r == 1,
{
    let r = (code & CA_M_SUCCESS) >> CA_V_SUCCESS;
    assert(r == code & 1i32 && (r == 0 || r == 1)) by (bit_vector)
        requires
            r == (code & 1i32) >> 0i32,
    ;
    r
}

/// A message number moved into its place in a status code.
pub fn CA_INSERT_MSG_NO(code: i32) -> (r: i32)
    ensures
        r == spec_insert_msg_no(code),
        0 <= r < 65536,
        0 <= code < 8192 ==> r == code * 8,
{
    let r = (code << CA_V_MSG_NO) & CA_M_MSG_NO;
    assert(r == (code << 3i32) & 0xfff8i32 && 0 <= r && r < 65536 && (0 <= code && code < 8192 ==> r == code * 8)) by (bit_vector)
        requires
            r == (code << 3i32) & 0xfff8i32,
    ;
    r
}

/// A severity moved into its place in a status code.
pub fn CA_INSERT_SEVERITY(code: i32) -> (r: i32)
    ensures
        r == spec_insert_severity(code),
        0 <= r < 8,
        0 <= code < 8 ==> r == code,
{
    let r = (code << CA_V_SEVERITY) & CA_M_SEVERITY;
    assert(r == code & 7i32 && 0 <= r && r < 8 && (0 <= code && code < 8 ==> r == code)) by (bit_vector)
        requires
            r == (code << 0i32) & 7i32,
    ;
    r
}

/// A success flag moved into its place in a status code.
pub fn CA_INSERT_SUCCESS(code: i32) -> (r: i32)
    ensures
        r == spec_insert_success(code),
        r == 0 || r == 1,
{
    let r = (code << CA_V_SUCCESS) & CA_M_SUCCESS;
    assert(r == code & 1i32 && (r == 0 || r == 1)) by (bit_vector)
        requires
            r == (code << 0i32) & 1i32,
    ;
    r
}

/// Builds a status code from a severity and a message number.
pub fn DEFMSG(severity: i32, number: i32) -> (r: i32)
    ensures
        r == spec_defmsg(severity, number),
        0 <= severity < 8 && 0 <= number < 8192 ==> r == number * 8 + severity,
{
    proof {
        lemma_defmsg_value(severity, number);
    }
    CA_INSERT_MSG_NO(number) | CA_INSERT_SEVERITY(severity)
}

/// Within range, a status code is the message number times eight plus the severity.
pub proof fn lemma_defmsg_value(severity: i32, number: i32)
    ensures
        0 <= severity < 8 && 0 <= number < 8192 ==> spec_defmsg(severity, number) == number * 8
            + severity,
{
    assert(0 <= severity < 8 && 0 <= number < 8192 ==> ((number << 3i32) & 0xfff8i32) | (severity
        & 7i32) == number * 8 + severity) by (bit_vector);
}

/// The message number and severity put into a status code are the ones taken out of it.
pub proof fn lemma_extract_defmsg(severity: i32, number: i32)
    requires
        0 <= severity < 8,
        0 <= number < 8192,
    ensures
        spec_extract_msg_no(spec_defmsg(severity, number)) == number,
        spec_extract_severity(spec_defmsg(severity, number)) == severity,
        spec_extract_success(spec_defmsg(severity, number)) == severity & 1,
{
    assert(0 <= severity < 8 && 0 <= number < 8192 ==> ((((number << 3i32) & 0xfff8i32) | (severity
        & 7i32)) & 0xfff8i32) >> 3i32 == number) by (bit_vector);
    assert(0 <= severity < 8 && 0 <= number < 8192 ==> (((number << 3i32) & 0xfff8i32) | (severity
        & 7i32)) & 7i32 == severity) by (bit_vector);
    assert(0 <= severity < 8 && 0 <= number < 8192 ==> (((number << 3i32) & 0xfff8i32) | (severity
        & 7i32)) & 1i32 == severity & 1i32) by (bit_vector);
}

/// Taking a status code apart and putting it back together gives its low sixteen bits.
pub proof fn lemma_defmsg_extract(code: i32)
    ensures
        spec_defmsg(spec_extract_severity(code), spec_extract_msg_no(code)) == code & 0xffffi32,
{
    assert((((((code & 0xfff8i32) >> 3i32) << 3i32) & 0xfff8i32) | ((code & 7i32) & 7i32)) == code
        & 0xffffi32) by (bit_vector);
}

pub const ECA_NORMAL: i32 = 1;
pub const ECA_MAXIOC: i32 = 10;
pub const ECA_UKNHOST: i32 = 18;
pub const ECA_UKNSERV: i32 = 26;
pub const ECA_SOCK: i32 = 34;
pub const ECA_CONN: i32 = 40;
pub const ECA_ALLOCMEM: i32 = 48;
pub const ECA_UKNCHAN: i32 = 56;
pub const ECA_UKNFIELD: i32 = 64;
pub const ECA_TOLARGE: i32 = 72;
pub const ECA_TIMEOUT: i32 = 80;
pub const ECA_NOSUPPORT: i32 = 88;
pub const ECA_STRTOBIG: i32 = 96;
pub const ECA_DISCONNCHID: i32 = 106;
pub const ECA_BADTYPE: i32 = 114;
pub const ECA_CHIDNOTFND: i32 = 123;
pub const ECA_CHIDRETRY: i32 = 131;
pub const ECA_INTERNAL: i32 = 142;
pub const ECA_DBLCLFAIL: i32 = 144;
pub const ECA_GETFAIL: i32 = 152;
pub const ECA_PUTFAIL: i32 = 160;
pub const ECA_ADDFAIL: i32 = 168;
pub const ECA_BADCOUNT: i32 = 176;
pub const ECA_BADSTR: i32 = 186;
pub const ECA_DISCONN: i32 = 192;
pub const ECA_DBLCHNL: i32 = 200;
pub const ECA_EVDISALLOW: i32 = 210;
pub const ECA_BUILDGET: i32 = 216;
pub const ECA_NEEDSFP: i32 = 224;
pub const ECA_OVEVFAIL: i32 = 232;
pub const ECA_BADMONID: i32 = 242;
pub const ECA_NEWADDR: i32 = 248;
pub const ECA_NEWCONN: i32 = 259;
pub const ECA_NOCACTX: i32 = 264;
pub const ECA_DEFUNCT: i32 = 278;
pub const ECA_EMPTYSTR: i32 = 280;
pub const ECA_NOREPEATER: i32 = 288;
pub const ECA_NOCHANMSG: i32 = 296;
pub const ECA_DLCKREST: i32 = 304;
pub const ECA_SERVBEHIND: i32 = 312;
pub const ECA_NOCAST: i32 = 320;
pub const ECA_BADMASK: i32 = 330;
pub const ECA_IODONE: i32 = 339;
pub const ECA_IOINPROGRESS: i32 = 347;
pub const ECA_BADSYNCGRP: i32 = 354;
pub const ECA_PUTCBINPROG: i32 = 362;
pub const ECA_NORDACCESS: i32 = 368;
pub const ECA_NOWTACCESS: i32 = 376;
pub const ECA_ANACHRONISM: i32 = 386;
pub const ECA_NOSEARCHADDR: i32 = 392;
pub const ECA_NOCONVERT: i32 = 400;
pub const ECA_BADCHID: i32 = 410;
pub const ECA_BADFUNCPTR: i32 = 418;
pub const ECA_ISATTACHED: i32 = 424;
pub const ECA_UNAVAILINSERV: i32 = 432;
pub const ECA_CHANDESTROY: i32 = 440;
pub const ECA_BADPRIORITY: i32 = 450;
pub const ECA_NOTTHREADED: i32 = 458;
pub const ECA_16KARRAYCLIENT: i32 = 464;
pub const ECA_CONNSEQTMO: i32 = 472;
pub const ECA_UNRESPTMO: i32 = 480;

} // verus!
