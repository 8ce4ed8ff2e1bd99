//! Logout reason codes

use vstd::prelude::*;

verus! {

pub const CLOSE_SESSION: u8 = 0;
pub const CLOSE_CONNECTION: u8 = 1;
pub const REMOVE_CONNECTION_FOR_RECOVERY: u8 = 2;

} // verus!
