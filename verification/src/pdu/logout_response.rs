//! Logout response codes

use vstd::prelude::*;

verus! {

pub const SUCCESS: u8 = 0;
pub const CID_NOT_FOUND: u8 = 1;
pub const CONNECTION_RECOVERY_NOT_SUPPORTED: u8 = 2;
pub const CLEANUP_FAILED: u8 = 3;

} // verus!
