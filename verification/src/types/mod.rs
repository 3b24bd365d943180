//! Native EPICS types.
pub mod alarm;
pub mod cstring;
pub mod dbr;
pub mod epics;
pub mod id;
pub mod order;
pub mod value;

pub use id::{AccessRights, EventMask, FieldId, RequestId};
pub use dbr::{DbField, DbRequest, Dbe};
pub use alarm::{Alarm, AlarmCondition, AlarmSeverity};
pub use epics::{EpicsEnum, EpicsTimeStamp};
pub use cstring::StaticCString;
