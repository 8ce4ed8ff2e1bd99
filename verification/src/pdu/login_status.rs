//! Login status classes and details (RFC 3720 Section 10.13.5)

use vstd::prelude::*;

verus! {

pub const SUCCESS: u8 = 0x00;
pub const REDIRECTION: u8 = 0x01;
pub const INITIATOR_ERROR: u8 = 0x02;
pub const TARGET_ERROR: u8 = 0x03;

// Common status detail codes
pub const SUCCESS_ACCEPT: u16 = 0x0000;
pub const TARGET_MOVED_TEMPORARILY: u16 = 0x0101;
pub const TARGET_MOVED_PERMANENTLY: u16 = 0x0102;
pub const INITIATOR_ERROR_GENERIC: u16 = 0x0200;
pub const AUTH_FAILURE: u16 = 0x0201;
pub const AUTHORIZATION_FAILURE: u16 = 0x0202;
pub const TARGET_NOT_FOUND: u16 = 0x0203;
pub const TARGET_REMOVED: u16 = 0x0204;
pub const UNSUPPORTED_VERSION: u16 = 0x0205;
pub const TOO_MANY_CONNECTIONS: u16 = 0x0206;
pub const MISSING_PARAMETER: u16 = 0x0207;
pub const CANT_INCLUDE_IN_SESSION: u16 = 0x0208;
pub const SESSION_TYPE_NOT_SUPPORTED: u16 = 0x0209;
pub const SESSION_DOES_NOT_EXIST: u16 = 0x020A;
pub const INVALID_DURING_LOGIN: u16 = 0x020B;
pub const TARGET_ERROR_GENERIC: u16 = 0x0300;
pub const SERVICE_UNAVAILABLE: u16 = 0x0301;
pub const OUT_OF_RESOURCES: u16 = 0x0302;

} // verus!
