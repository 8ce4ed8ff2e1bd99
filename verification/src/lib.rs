//! A verified iSCSI target library
//!
//! The library holds the logic of an iSCSI target: the PDU wire format and
//! text parameters, SCSI command handling over a block device, session
//! state with parameter negotiation and CHAP authentication, and what the
//! target does with each PDU a connection receives.  Users implement the
//! `ScsiBlockDevice` trait to provide the storage backend; the caller owns
//! the sockets and feeds PDUs in.

pub mod bytes;
pub mod text;
pub mod error;
pub mod pdu;
pub mod scsi;
pub mod auth;
pub mod session;
pub mod target;
pub mod client;

pub use auth::{AuthConfig, ChapCredentials};
pub use error::{IscsiError, ScsiResult};
pub use scsi::ScsiBlockDevice;
pub use target::{IscsiTarget, IscsiTargetBuilder};

use vstd::prelude::*;

verus! {

/// Version of this library
pub const VERSION: &'static str = "0.1.0";

} // verus!
