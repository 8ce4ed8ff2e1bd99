//! Error type of the library and the text of iSCSI login status codes.

use vstd::prelude::*;
use crate::text::{hex2_chars, push_hex2};

verus! {

#[verifier::external_type_specification]
#[verifier::external_body]
pub struct ExIoError(std::io::Error);

/// iSCSI target errors
#[derive(Debug)]
pub enum IscsiError {
    Io(std::io::Error),
    Protocol(String),
    Scsi(String),
    Session(String),
    InvalidPdu(String),
    Config(String),
    Auth(String),
}

/// The text an error displays as: a prefix naming its kind, then its
/// message.  The text of an I/O error is the standard library's.
pub open spec fn error_text(e: IscsiError, io_text: Seq<char>) -> Seq<char> {
    match e {
        IscsiError::Io(_) => "I/O error: "@ + io_text,
        IscsiError::Protocol(m) => "Protocol error: "@ + m@,
        IscsiError::Scsi(m) => "SCSI error: "@ + m@,
        IscsiError::Session(m) => "Session error: "@ + m@,
        IscsiError::InvalidPdu(m) => "Invalid PDU: "@ + m@,
        IscsiError::Config(m) => "Configuration error: "@ + m@,
        IscsiError::Auth(m) => "Authentication error: "@ + m@,
    }
}

impl IscsiError {
    /// The error's text: its kind, a colon, and its message.
    pub fn to_string(&self) -> (r: String)
        ensures
            exists|io_text: Seq<char>| r@ == error_text(*self, io_text),
            !(*self is Io) ==> r@ == error_text(*self, seq![]),
    {
        let (prefix, detail) = match self {
            IscsiError::Io(e) => ("I/O error: ", e.to_string()),
            IscsiError::Protocol(m) => ("Protocol error: ", m.clone()),
            IscsiError::Scsi(m) => ("SCSI error: ", m.clone()),
            IscsiError::Session(m) => ("Session error: ", m.clone()),
            IscsiError::InvalidPdu(m) => ("Invalid PDU: ", m.clone()),
            IscsiError::Config(m) => ("Configuration error: ", m.clone()),
            IscsiError::Auth(m) => ("Authentication error: ", m.clone()),
        };
        let mut r = prefix.to_string();
        r.append(detail.as_str());
        assert(r@ == error_text(*self, detail@));
        r
    }
}

/// Result type for SCSI operations
pub type ScsiResult<T> = Result<T, IscsiError>;

pub const MSG_SUCCESS: &'static str = "Login successful";

pub const MSG_MOVED_TEMPORARILY: &'static str = "Target moved temporarily\n\
     \n\
     The target has temporarily moved to a different portal.\n\
     Check the login response for the new portal address.";

pub const MSG_MOVED_PERMANENTLY: &'static str = "Target moved permanently\n\
     \n\
     The target has permanently moved to a different portal.\n\
     Update your configuration with the new portal address.";

pub const MSG_INITIATOR_ERROR: &'static str = "Authentication failure (initiator error)";

pub const MSG_AUTH_FAILED: &'static str = "Authentication failed\n\
     \n\
     The target rejected your authentication credentials.\n\
     \n\
     Troubleshooting:\n\
     1. Verify username/password in configuration\n\
     2. Check if target requires CHAP authentication\n\
     3. Verify authentication method (None, CHAP, etc.)";

pub const MSG_AUTHORIZATION_FAILURE: &'static str = "Authorization failure\n\
     \n\
     Authentication succeeded but you're not authorized to access this target.\n\
     \n\
     Troubleshooting:\n\
     1. Check target's ACL (Access Control List)\n\
     2. For TGTD:\n\
        sudo tgtadm --lld iscsi --op bind --mode target --tid 1 -I <initiator-iqn>\n\
     3. Verify initiator IQN is allowed by target";

pub const MSG_TARGET_NOT_FOUND: &'static str = "Target not found\n\
     \n\
     The target IQN doesn't exist on this portal.\n\
     \n\
     Troubleshooting:\n\
     1. Run discovery to see available targets:\n\
        cargo run --example discover_targets -- <portal>\n\
     2. Verify target IQN in configuration\n\
     3. Check if target is running and properly configured";

pub const MSG_TARGET_REMOVED: &'static str = "Target removed - target has been removed from service";

pub const MSG_UNSUPPORTED_VERSION: &'static str =
    "Unsupported iSCSI version - RFC 3720: UNSUPPORTED_VERSION (0x0205)\n\
     \n\
     The initiator's protocol version is not supported by this target.\n\
     \n\
     Details:\n\
     - Target supports: iSCSI version 0x00 (RFC 3720)\n\
     - Your initiator requested a version outside target's supported range\n\
     \n\
     Troubleshooting:\n\
     1. Check initiator iSCSI version (should be 0x00 for RFC 3720)\n\
     2. Ensure initiator firmware is up to date\n\
     3. Check for non-standard iSCSI implementations\n\
     4. Review Version-min and Version-max in login request";

pub const MSG_TOO_MANY_CONNECTIONS: &'static str = "Too many connections\n\
     \n\
     Target has reached maximum number of connections.\n\
     \n\
     Troubleshooting:\n\
     1. Close existing connections\n\
     2. Check target's MaxConnections parameter\n\
     3. Wait and retry";

pub const MSG_MISSING_PARAMETER: &'static str = "Missing required parameter\n\
     \n\
     Login request is missing a required parameter.\n\
     \n\
     Common missing parameters:\n\
     - InitiatorName (always required)\n\
     - TargetName (required for normal sessions)\n\
     - SessionType (Discovery or Normal)";

pub const MSG_CANT_INCLUDE_IN_SESSION: &'static str = "Cannot include connection in session";

pub const MSG_SESSION_TYPE_NOT_SUPPORTED: &'static str = "Session type not supported\n\
     \n\
     Target doesn't support the requested session type.\n\
     \n\
     Troubleshooting:\n\
     - If doing discovery: target may not support SendTargets\n\
     - If normal session: verify TargetName is correct";

pub const MSG_SESSION_DOES_NOT_EXIST: &'static str = "Session does not exist";

pub const MSG_INVALID_DURING_LOGIN: &'static str =
    "Invalid request during login - RFC 3720: INVALID_REQUEST_DURING_LOGIN (0x020B)\n\
     \n\
     The request sent during login phase was invalid or not allowed.\n\
     \n\
     Common causes:\n\
     1. Sending non-login PDU (e.g., SCSI command) before login completes\n\
     2. Invalid stage transition requested\n\
     3. Text request sent when not in text negotiation stage\n\
     4. Multiple simultaneous login requests\n\
     \n\
     Troubleshooting:\n\
     - Ensure only Login Request PDUs are sent during login phase\n\
     - Complete login negotiation before sending other commands\n\
     - Check CurrentStage and NextStage values in login requests\n\
     - Review RFC 3720 Section 5.3 for valid login phase sequences";

pub const MSG_TARGET_ERROR: &'static str = "Target error (unspecified)";

pub const MSG_SERVICE_UNAVAILABLE: &'static str = "Target service unavailable\n\
     \n\
     The target is temporarily unable to service requests.\n\
     \n\
     Troubleshooting:\n\
     1. Wait and retry\n\
     2. Check target logs for errors\n\
     3. Verify target has sufficient resources";

pub const MSG_OUT_OF_RESOURCES: &'static str =
    "Target out of resources - RFC 3720: OUT_OF_RESOURCES (0x0302)\n\
     \n\
     The target cannot process the login request due to resource exhaustion.\n\
     \n\
     Common causes:\n\
     1. Memory allocation failure\n\
     2. Maximum session limit reached\n\
     3. Disk/storage resources exhausted\n\
     4. Internal buffer shortage\n\
     \n\
     Troubleshooting:\n\
     - Wait and retry the connection\n\
     - Check target resource usage (memory, sessions)\n\
     - Close unused sessions to free resources\n\
     - Contact administrator if issue persists\n\
     - This is a temporary condition - target should recover";

pub const MSG_UNKNOWN_PREFIX: &'static str = "Unknown login status: class=0x";

pub const MSG_UNKNOWN_MIDDLE: &'static str = ", detail=0x";

pub const MSG_UNKNOWN_SUFFIX: &'static str = "\n\
     \n\
     This is an unrecognized iSCSI login status code.\n\
     Check RFC 3720 Section 10.13 for status code meanings.";

/// The message for a documented login status code (class and detail as
/// one 16-bit number), or `None` for an undocumented one.
pub open spec fn known_login_status(code: int) -> Option<Seq<char>> {
    if code == 0x0000 {
        Some(MSG_SUCCESS@)
    } else if code == 0x0101 {
        Some(MSG_MOVED_TEMPORARILY@)
    } else if code == 0x0102 {
        Some(MSG_MOVED_PERMANENTLY@)
    } else if code == 0x0200 {
        Some(MSG_INITIATOR_ERROR@)
    } else if code == 0x0201 {
        Some(MSG_AUTH_FAILED@)
    } else if code == 0x0202 {
        Some(MSG_AUTHORIZATION_FAILURE@)
    } else if code == 0x0203 {
        Some(MSG_TARGET_NOT_FOUND@)
    } else if code == 0x0204 {
        Some(MSG_TARGET_REMOVED@)
    } else if code == 0x0205 {
        Some(MSG_UNSUPPORTED_VERSION@)
    } else if code == 0x0206 {
        Some(MSG_TOO_MANY_CONNECTIONS@)
    } else if code == 0x0207 {
        Some(MSG_MISSING_PARAMETER@)
    } else if code == 0x0208 {
        Some(MSG_CANT_INCLUDE_IN_SESSION@)
    } else if code == 0x0209 {
        Some(MSG_SESSION_TYPE_NOT_SUPPORTED@)
    } else if code == 0x020A {
        Some(MSG_SESSION_DOES_NOT_EXIST@)
    } else if code == 0x020B {
        Some(MSG_INVALID_DURING_LOGIN@)
    } else if code == 0x0300 {
        Some(MSG_TARGET_ERROR@)
    } else if code == 0x0301 {
        Some(MSG_SERVICE_UNAVAILABLE@)
    } else if code == 0x0302 {
        Some(MSG_OUT_OF_RESOURCES@)
    } else {
        None
    }
}

/// The text that explains a login status: the documented message, or for
/// an unknown code a message that shows both bytes in hexadecimal.
pub open spec fn login_status_text(status_class: u8, status_detail: u8) -> Seq<char> {
    match known_login_status(status_class as int * 256 + status_detail as int) {
        Some(m) => m,
        None => MSG_UNKNOWN_PREFIX@ + hex2_chars(status_class) + MSG_UNKNOWN_MIDDLE@ + hex2_chars(
            status_detail,
        ) + MSG_UNKNOWN_SUFFIX@,
    }
}

fn known_login_status_exec(code: u16) -> (r: Option<&'static str>)
    ensures
        match known_login_status(code as int) {
            Some(m) => r matches Some(s) && s@ == m,
            None => r is None,
        },
{
    match code {
        0x0000 => Some(MSG_SUCCESS),
        0x0101 => Some(MSG_MOVED_TEMPORARILY),
        0x0102 => Some(MSG_MOVED_PERMANENTLY),
        0x0200 => Some(MSG_INITIATOR_ERROR),
        0x0201 => Some(MSG_AUTH_FAILED),
        0x0202 => Some(MSG_AUTHORIZATION_FAILURE),
        0x0203 => Some(MSG_TARGET_NOT_FOUND),
        0x0204 => Some(MSG_TARGET_REMOVED),
        0x0205 => Some(MSG_UNSUPPORTED_VERSION),
        0x0206 => Some(MSG_TOO_MANY_CONNECTIONS),
        0x0207 => Some(MSG_MISSING_PARAMETER),
        0x0208 => Some(MSG_CANT_INCLUDE_IN_SESSION),
        0x0209 => Some(MSG_SESSION_TYPE_NOT_SUPPORTED),
        0x020A => Some(MSG_SESSION_DOES_NOT_EXIST),
        0x020B => Some(MSG_INVALID_DURING_LOGIN),
        0x0300 => Some(MSG_TARGET_ERROR),
        0x0301 => Some(MSG_SERVICE_UNAVAILABLE),
        0x0302 => Some(MSG_OUT_OF_RESOURCES),
        _ => None,
    }
}

/// Decode iSCSI login status codes into helpful error messages
pub fn decode_login_status(status_class: u8, status_detail: u8) -> (r: String)
    ensures
        r@ == login_status_text(status_class, status_detail),
{
    let status_code: u16 = status_class as u16 * 256 + status_detail as u16;
    match known_login_status_exec(status_code) {
        Some(m) => m.to_string(),
        None => {
            let mut s = MSG_UNKNOWN_PREFIX.to_string();
            push_hex2(&mut s, status_class);
            s.append(MSG_UNKNOWN_MIDDLE);
            push_hex2(&mut s, status_detail);
            s.append(MSG_UNKNOWN_SUFFIX);
            s
        },
    }
}

} // verus!
