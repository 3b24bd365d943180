//! Constants of the Channel Access database interface and the sizes of its
//! request structures.
use vstd::prelude::*;

verus! {

pub const MAX_STRING_SIZE: usize = 40;
pub const MAX_UNITS_SIZE: usize = 8;
pub const MAX_ENUM_STRING_SIZE: usize = 26;
pub const MAX_ENUM_STATES: usize = 16;

/// Field type that a disconnected channel reports.
pub const TYPENOTCONN: i32 = -1;

pub const DBF_STRING: i32 = 0;
pub const DBF_INT: i32 = 1;
pub const DBF_SHORT: i32 = 1;
pub const DBF_FLOAT: i32 = 2;
pub const DBF_ENUM: i32 = 3;
pub const DBF_CHAR: i32 = 4;
pub const DBF_LONG: i32 = 5;
pub const DBF_DOUBLE: i32 = 6;
pub const DBF_NO_ACCESS: i32 = 7;

pub const DBR_STRING: i32 = 0;
pub const DBR_SHORT: i32 = 1;
pub const DBR_INT: i32 = 1;
pub const DBR_FLOAT: i32 = 2;
pub const DBR_ENUM: i32 = 3;
pub const DBR_CHAR: i32 = 4;
pub const DBR_LONG: i32 = 5;
pub const DBR_DOUBLE: i32 = 6;
pub const DBR_STS_STRING: i32 = 7;
pub const DBR_STS_SHORT: i32 = 8;
pub const DBR_STS_INT: i32 = 8;
pub const DBR_STS_FLOAT: i32 = 9;
pub const DBR_STS_ENUM: i32 = 10;
pub const DBR_STS_CHAR: i32 = 11;
pub const DBR_STS_LONG: i32 = 12;
pub const DBR_STS_DOUBLE: i32 = 13;
pub const DBR_TIME_STRING: i32 = 14;
pub const DBR_TIME_SHORT: i32 = 15;
pub const DBR_TIME_INT: i32 = 15;
pub const DBR_TIME_FLOAT: i32 = 16;
pub const DBR_TIME_ENUM: i32 = 17;
pub const DBR_TIME_CHAR: i32 = 18;
pub const DBR_TIME_LONG: i32 = 19;
pub const DBR_TIME_DOUBLE: i32 = 20;
pub const DBR_GR_STRING: i32 = 21;
pub const DBR_GR_SHORT: i32 = 22;
pub const DBR_GR_INT: i32 = 22;
pub const DBR_GR_FLOAT: i32 = 23;
pub const DBR_GR_ENUM: i32 = 24;
pub const DBR_GR_CHAR: i32 = 25;
pub const DBR_GR_LONG: i32 = 26;
pub const DBR_GR_DOUBLE: i32 = 27;
pub const DBR_CTRL_STRING: i32 = 28;
pub const DBR_CTRL_SHORT: i32 = 29;
pub const DBR_CTRL_INT: i32 = 29;
pub const DBR_CTRL_FLOAT: i32 = 30;
pub const DBR_CTRL_ENUM: i32 = 31;
pub const DBR_CTRL_CHAR: i32 = 32;
pub const DBR_CTRL_LONG: i32 = 33;
pub const DBR_CTRL_DOUBLE: i32 = 34;
pub const DBR_PUT_ACKT: i32 = 35;
pub const DBR_PUT_ACKS: i32 = 36;
pub const DBR_STSACK_STRING: i32 = 37;
pub const DBR_CLASS_NAME: i32 = 38;

pub const DBE_VALUE: i32 = 1;
pub const DBE_ARCHIVE: i32 = 2;
pub const DBE_LOG: i32 = 2;
pub const DBE_ALARM: i32 = 4;
pub const DBE_PROPERTY: i32 = 8;

pub const CA_OP_GET: i32 = 0;
pub const CA_OP_PUT: i32 = 1;
pub const CA_OP_CREATE_CHANNEL: i32 = 2;
pub const CA_OP_ADD_EVENT: i32 = 3;
pub const CA_OP_CLEAR_EVENT: i32 = 4;
pub const CA_OP_OTHER: i32 = 5;
pub const CA_OP_CONN_UP: i32 = 6;
pub const CA_OP_CONN_DOWN: i32 = 7;

pub const CA_READ_ACCESS: u32 = 1;
pub const CA_WRITE_ACCESS: u32 = 2;

/// Number of request types.
pub const DBR_COUNT: i32 = 39;

/// Size in bytes of the request structure of type `dbr_type` holding one element.
pub open spec fn spec_dbr_size(dbr_type: i32) -> nat {
    match dbr_type {
        0 => 40,
        1 => 2,
        2 => 4,
        3 => 2,
        4 => 1,
        5 => 4,
        6 => 8,
        7 => 44,
        8 => 6,
        9 => 8,
        10 => 6,
        11 => 6,
        12 => 8,
        13 => 16,
        14 => 52,
        15 => 16,
        16 => 16,
        17 => 16,
        18 => 16,
        19 => 16,
        20 => 24,
        21 => 44,
        22 => 26,
        23 => 44,
        24 => 424,
        25 => 20,
        26 => 40,
        27 => 72,
        28 => 44,
        29 => 30,
        30 => 52,
        31 => 424,
        32 => 22,
        33 => 48,
        34 => 88,
        35 => 2,
        36 => 2,
        37 => 48,
        38 => 40,
        _ => 0,
    }
}

/// Size in bytes of one element of the value in a request of type `dbr_type`.
pub open spec fn spec_dbr_value_size(dbr_type: i32) -> nat {
    match dbr_type {
        0 => 40,
        1 => 2,
        2 => 4,
        3 => 2,
        4 => 1,
        5 => 4,
        6 => 8,
        7 => 40,
        8 => 2,
        9 => 4,
        10 => 2,
        11 => 1,
        12 => 4,
        13 => 8,
        14 => 40,
        15 => 2,
        16 => 4,
        17 => 2,
        18 => 1,
        19 => 4,
        20 => 8,
        21 => 40,
        22 => 2,
        23 => 4,
        24 => 2,
        25 => 1,
        26 => 4,
        27 => 8,
        28 => 40,
        29 => 2,
        30 => 4,
        31 => 2,
        32 => 1,
        33 => 4,
        34 => 8,
        35 => 2,
        36 => 2,
        37 => 40,
        38 => 40,
        _ => 0,
    }
}

/// Size in bytes of a request of type `dbr_type` holding `count` elements.
pub open spec fn spec_dbr_size_n(dbr_type: i32, count: int) -> int {
    if count == 0 {
        spec_dbr_size(dbr_type) - spec_dbr_value_size(dbr_type)
    } else {
        spec_dbr_size(dbr_type) + (count - 1) * spec_dbr_value_size(dbr_type)
    }
}

/// Size in bytes of the request structure of type `dbr_type` holding one element.
pub fn dbr_size(dbr_type: i32) -> (r: usize)
    requires
        0 <= dbr_type < DBR_COUNT,
    ensures
        r == spec_dbr_size(dbr_type),
{
    match dbr_type {
        0 => 40,
        1 => 2,
        2 => 4,
        3 => 2,
        4 => 1,
        5 => 4,
        6 => 8,
        7 => 44,
        8 => 6,
        9 => 8,
        10 => 6,
        11 => 6,
        12 => 8,
        13 => 16,
        14 => 52,
        15 => 16,
        16 => 16,
        17 => 16,
        18 => 16,
        19 => 16,
        20 => 24,
        21 => 44,
        22 => 26,
        23 => 44,
        24 => 424,
        25 => 20,
        26 => 40,
        27 => 72,
        28 => 44,
        29 => 30,
        30 => 52,
        31 => 424,
        32 => 22,
        33 => 48,
        34 => 88,
        35 => 2,
        36 => 2,
        37 => 48,
        38 => 40,
        _ => 0,
    }
}

/// Size in bytes of one element of the value in a request of type `dbr_type`.
pub fn dbr_value_size(dbr_type: i32) -> (r: usize)
    requires
        0 <= dbr_type < DBR_COUNT,
    ensures
        r == spec_dbr_value_size(dbr_type),
        1 <= r <= spec_dbr_size(dbr_type),
{
    match dbr_type {
        0 => 40,
        1 => 2,
        2 => 4,
        3 => 2,
        4 => 1,
        5 => 4,
        6 => 8,
        7 => 40,
        8 => 2,
        9 => 4,
        10 => 2,
        11 => 1,
        12 => 4,
        13 => 8,
        14 => 40,
        15 => 2,
        16 => 4,
        17 => 2,
        18 => 1,
        19 => 4,
        20 => 8,
        21 => 40,
        22 => 2,
        23 => 4,
        24 => 2,
        25 => 1,
        26 => 4,
        27 => 8,
        28 => 40,
        29 => 2,
        30 => 4,
        31 => 2,
        32 => 1,
        33 => 4,
        34 => 8,
        35 => 2,
        36 => 2,
        37 => 40,
        38 => 40,
        _ => 0,
    }
}

/// Size in bytes of a request of type `dbr_type` holding `count` elements; a request with no
/// elements is its structure without the value, which comes last, so that this is also where
/// the value starts.
pub fn dbr_size_n(dbr_type: i32, count: usize) -> (r: usize)
    requires
        0 <= dbr_type < DBR_COUNT,
        spec_dbr_size_n(dbr_type, count as int) <= usize::MAX,
    ensures
        r == spec_dbr_size_n(dbr_type, count as int),
{
    let size = dbr_size(dbr_type);
    let value_size = dbr_value_size(dbr_type);
    if count == 0 {
        size - value_size
    } else {
        assert((count - 1) * value_size <= size + (count - 1) * value_size) by (nonlinear_arith);
        size + (count - 1) * value_size
    }
}

/// Index into a type-name table of `dim` entries whose first entry names the disconnected
/// type and whose last entry is not a type name; `None` for a type that the table does not name.
pub fn type_text_index(type_: u64, dim: i16) -> (r: Option<usize>)
    requires
        dim >= 2,
    ensures
        r == (if type_ < dim - 2 {
            Some((type_ + 1) as usize)
        } else {
            None::<usize>
        }),
{
    let limit: u64 = (dim - 2) as u64;
    if type_ < limit {
        Some((type_ + 1) as usize)
    } else {
        None
    }
}

} // verus!
