//! iSCSI PDU opcodes (RFC 3720 Section 10)

use vstd::prelude::*;

verus! {

// Initiator opcodes (client to target)
pub const NOP_OUT: u8 = 0x00;
pub const SCSI_COMMAND: u8 = 0x01;
pub const TASK_MANAGEMENT_REQUEST: u8 = 0x02;
pub const LOGIN_REQUEST: u8 = 0x03;
pub const TEXT_REQUEST: u8 = 0x04;
pub const SCSI_DATA_OUT: u8 = 0x05;
pub const LOGOUT_REQUEST: u8 = 0x06;
pub const SNACK_REQUEST: u8 = 0x10;

// Target opcodes (target to client)
pub const NOP_IN: u8 = 0x20;
pub const SCSI_RESPONSE: u8 = 0x21;
pub const TASK_MANAGEMENT_RESPONSE: u8 = 0x22;
pub const LOGIN_RESPONSE: u8 = 0x23;
pub const TEXT_RESPONSE: u8 = 0x24;
pub const SCSI_DATA_IN: u8 = 0x25;
pub const LOGOUT_RESPONSE: u8 = 0x26;
pub const R2T: u8 = 0x31;
pub const ASYNC_MESSAGE: u8 = 0x32;
pub const REJECT: u8 = 0x3F;

} // verus!
