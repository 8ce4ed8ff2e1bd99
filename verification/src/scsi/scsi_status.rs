//! SCSI status codes

use vstd::prelude::*;

verus! {

pub const GOOD: u8 = 0x00;
pub const CHECK_CONDITION: u8 = 0x02;
pub const CONDITION_MET: u8 = 0x04;
pub const BUSY: u8 = 0x08;
pub const RESERVATION_CONFLICT: u8 = 0x18;
pub const TASK_SET_FULL: u8 = 0x28;
pub const ACA_ACTIVE: u8 = 0x30;
pub const TASK_ABORTED: u8 = 0x40;

} // verus!
