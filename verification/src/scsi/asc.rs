//! Additional Sense Code (ASC) values

use vstd::prelude::*;

verus! {

pub const NO_ADDITIONAL_SENSE: u8 = 0x00;
pub const INVALID_COMMAND_OPERATION_CODE: u8 = 0x20;
pub const LBA_OUT_OF_RANGE: u8 = 0x21;
pub const INVALID_FIELD_IN_CDB: u8 = 0x24;
pub const LOGICAL_UNIT_NOT_SUPPORTED: u8 = 0x25;
pub const WRITE_PROTECTED: u8 = 0x27;
pub const POWER_ON_RESET: u8 = 0x29;
pub const MEDIUM_NOT_PRESENT: u8 = 0x3A;
pub const INTERNAL_TARGET_FAILURE: u8 = 0x44;

} // verus!
