//! Client-side logic of the EPICS Channel Access protocol: status codes,
//! field and request identifiers, alarms, fixed-size C strings, timestamps,
//! and the decisions that channels and contexts make.
pub mod caerr;
pub mod channel;
pub mod context;
pub mod db_access;
pub mod error;
pub mod get;
pub mod request;
pub mod subscribe;
pub mod traits;
pub mod types;
