//! iSCSI PDU flags (commonly used across PDU types)

use vstd::prelude::*;

verus! {

// Common flags
pub const FINAL: u8 = 0x80;
pub const CONTINUE: u8 = 0x40;

// SCSI command flags
pub const READ: u8 = 0x40;
pub const WRITE: u8 = 0x20;

// Login flags
pub const TRANSIT: u8 = 0x80;
pub const CONTINUE_LOGIN: u8 = 0x40;

// Login stages (CSG in bits 2-3, NSG in bits 0-1)
pub const CSG_SECURITY_NEG: u8 = 0x00;
pub const CSG_LOGIN_OP_NEG: u8 = 0x04;
pub const CSG_FULL_FEATURE: u8 = 0x0C;
pub const NSG_SECURITY_NEG: u8 = 0x00;
pub const NSG_LOGIN_OP_NEG: u8 = 0x01;
pub const NSG_FULL_FEATURE: u8 = 0x03;

} // verus!
