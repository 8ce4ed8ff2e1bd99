//! iSCSI session management
//!
//! Session state, sequence numbers and the command window, target transfer
//! tags, and the simple request/response exchanges of a session.  Parameter
//! negotiation lives in `negotiation`, the login state machine and CHAP in
//! `login` (RFC 3720).

pub mod negotiation;
pub mod login;

use vstd::prelude::*;
use crate::auth::{AuthConfig, AuthView, ChapAuthState, ChapView};
use crate::error::{IscsiError, ScsiResult};
use crate::pdu::{self, IscsiPdu, PduView, built_pdu, logout_response_specific, ttt_sn_specific};
use crate::text::hex2_chars;
use std::collections::HashMap;

verus! {

broadcast use vstd::std_specs::hash::group_hash_axioms;

/// Session state machine states (RFC 3720 Section 5)
#[derive(Debug, Clone, Copy, PartialEq, Eq, Structural)]
pub enum SessionState {
    /// Initial state, waiting for first login PDU
    Free,
    /// Security negotiation phase (CHAP, etc.)
    SecurityNegotiation,
    /// Login operational parameter negotiation
    LoginOperationalNegotiation,
    /// Full feature phase - ready for SCSI commands
    FullFeaturePhase,
    /// Logout in progress
    Logout,
    /// Session failed/error state
    Failed,
}

impl Default for SessionState {
    fn default() -> (r: Self)
        ensures
            r == SessionState::Free,
    {
        SessionState::Free
    }
}

/// Session type (RFC 3720 Section 5.2)
#[derive(Debug, Clone, Copy, PartialEq, Eq, Structural)]
pub enum SessionType {
    /// Normal session for SCSI commands
    Normal,
    /// Discovery session for target discovery (SendTargets)
    Discovery,
}

impl Default for SessionType {
    fn default() -> (r: Self)
        ensures
            r == SessionType::Normal,
    {
        SessionType::Normal
    }
}

/// Digest type for header/data
#[derive(Debug, Clone, Copy, PartialEq, Eq, Structural)]
pub enum DigestType {
    /// No digest
    NoDigest,
    /// CRC32C digest
    CRC32C,
}

impl Default for DigestType {
    fn default() -> (r: Self)
        ensures
            r == DigestType::NoDigest,
    {
        DigestType::NoDigest
    }
}

/// Negotiated session parameters (RFC 3720 Section 12)
#[derive(Debug, Clone)]
pub struct SessionParams {
    /// Maximum data segment length target can receive (default: 8192)
    pub max_recv_data_segment_length: u32,
    /// Maximum data segment length initiator can receive
    pub max_xmit_data_segment_length: u32,
    /// Maximum burst length for unsolicited data (default: 262144)
    pub max_burst_length: u32,
    /// First burst length for unsolicited data (default: 65536)
    pub first_burst_length: u32,
    /// Default time to wait before reconnecting (seconds)
    pub default_time2wait: u16,
    /// Default time to retain connection (seconds)
    pub default_time2retain: u16,
    /// Maximum outstanding R2T (Ready to Transfer) PDUs
    pub max_outstanding_r2t: u32,
    /// Data PDU in order (within a sequence)
    pub data_pdu_in_order: bool,
    /// Data sequence in order
    pub data_sequence_in_order: bool,
    /// Error recovery level (0-2)
    pub error_recovery_level: u8,
    /// Immediate data allowed
    pub immediate_data: bool,
    /// Initial R2T required
    pub initial_r2t: bool,
    /// Header digest (None, CRC32C)
    pub header_digest: DigestType,
    /// Data digest (None, CRC32C)
    pub data_digest: DigestType,
    /// Target name (IQN)
    pub target_name: String,
    /// Initiator name (IQN)
    pub initiator_name: String,
    /// Target alias (optional)
    pub target_alias: String,
    /// Initiator alias (optional)
    pub initiator_alias: String,
    /// Invalid session type received (for error reporting)
    pub invalid_session_type: Option<String>,
}

/// Session parameters as mathematical values.
#[verifier::ext_equal]
pub struct ParamsView {
    pub max_recv_data_segment_length: u32,
    pub max_xmit_data_segment_length: u32,
    pub max_burst_length: u32,
    pub first_burst_length: u32,
    pub default_time2wait: u16,
    pub default_time2retain: u16,
    pub max_outstanding_r2t: u32,
    pub data_pdu_in_order: bool,
    pub data_sequence_in_order: bool,
    pub error_recovery_level: u8,
    pub immediate_data: bool,
    pub initial_r2t: bool,
    pub header_digest: DigestType,
    pub data_digest: DigestType,
    pub target_name: Seq<char>,
    pub initiator_name: Seq<char>,
    pub target_alias: Seq<char>,
    pub initiator_alias: Seq<char>,
    pub invalid_session_type: Option<Seq<char>>,
}

pub open spec fn opt_string_view(o: Option<String>) -> Option<Seq<char>> {
    match o {
        Some(s) => Some(s@),
        None => None,
    }
}

impl View for SessionParams {
    type V = ParamsView;

    open spec fn view(&self) -> ParamsView {
        ParamsView {
            max_recv_data_segment_length: self.max_recv_data_segment_length,
            max_xmit_data_segment_length: self.max_xmit_data_segment_length,
            max_burst_length: self.max_burst_length,
            first_burst_length: self.first_burst_length,
            default_time2wait: self.default_time2wait,
            default_time2retain: self.default_time2retain,
            max_outstanding_r2t: self.max_outstanding_r2t,
            data_pdu_in_order: self.data_pdu_in_order,
            data_sequence_in_order: self.data_sequence_in_order,
            error_recovery_level: self.error_recovery_level,
            immediate_data: self.immediate_data,
            initial_r2t: self.initial_r2t,
            header_digest: self.header_digest,
            data_digest: self.data_digest,
            target_name: self.target_name@,
            initiator_name: self.initiator_name@,
            target_alias: self.target_alias@,
            initiator_alias: self.initiator_alias@,
            invalid_session_type: opt_string_view(self.invalid_session_type),
        }
    }
}

/// The parameters a session starts with (RFC 3720 defaults, no names).
pub open spec fn default_params() -> ParamsView {
    ParamsView {
        max_recv_data_segment_length: 8192,
        max_xmit_data_segment_length: 8192,
        max_burst_length: 262144,
        first_burst_length: 65536,
        default_time2wait: 2,
        default_time2retain: 20,
        max_outstanding_r2t: 1,
        data_pdu_in_order: true,
        data_sequence_in_order: true,
        error_recovery_level: 0,
        immediate_data: true,
        initial_r2t: false,
        header_digest: DigestType::NoDigest,
        data_digest: DigestType::NoDigest,
        target_name: seq![],
        initiator_name: seq![],
        target_alias: seq![],
        initiator_alias: seq![],
        invalid_session_type: None,
    }
}

impl Default for SessionParams {
    fn default() -> (r: Self)
        ensures
            r@ == default_params(),
    {
        SessionParams {
            max_recv_data_segment_length: 8192,
            max_xmit_data_segment_length: 8192,
            max_burst_length: 262144,
            first_burst_length: 65536,
            default_time2wait: 2,
            default_time2retain: 20,
            max_outstanding_r2t: 1,
            data_pdu_in_order: true,
            data_sequence_in_order: true,
            error_recovery_level: 0,
            immediate_data: true,
            initial_r2t: false,  // Allow immediate data without waiting for R2T
            header_digest: DigestType::NoDigest,
            data_digest: DigestType::NoDigest,
            target_name: String::new(),
            initiator_name: String::new(),
            target_alias: String::new(),
            initiator_alias: String::new(),
            invalid_session_type: None,
        }
    }
}

/// Pending write command information
#[derive(Debug, Clone, Copy)]
pub struct PendingWrite {
    /// Logical Block Address from the WRITE command
    pub lba: u64,
    /// Transfer length in blocks
    pub transfer_length: u32,
    /// Block size
    pub block_size: u32,
    /// Total bytes received so far
    pub bytes_received: u32,
    /// Target Transfer Tag (used for R2T correlation)
    pub ttt: u32,
    /// R2T sequence number (incremented for each R2T sent)
    pub r2t_sn: u32,
    /// LUN for this command
    pub lun: u64,
}

/// iSCSI Session
///
/// Represents an active iSCSI session between an initiator and target.
#[derive(Debug, Clone)]
pub struct IscsiSession {
    /// Initiator Session ID (6 bytes)
    pub isid: [u8; 6],
    /// Target Session Identifying Handle (assigned by target)
    pub tsih: u16,
    /// Connection ID
    pub cid: u16,
    /// Session type
    pub session_type: SessionType,
    /// Current session state
    pub state: SessionState,
    /// Negotiated parameters
    pub params: SessionParams,
    /// Expected command sequence number from initiator
    pub exp_cmd_sn: u32,
    /// Maximum command sequence number initiator can use
    pub max_cmd_sn: u32,
    /// Status sequence number (target → initiator)
    pub stat_sn: u32,
    /// Current login stage
    pub current_stage: u8,
    /// Next login stage
    pub next_stage: u8,
    /// Pending write commands indexed by ITT (Initiator Task Tag)
    pub pending_writes: HashMap<u32, PendingWrite>,
    /// Next Target Transfer Tag (incremented for each new R2T sequence)
    pub next_ttt: u32,
    /// Latest sense data to be returned by REQUEST SENSE
    pub last_sense_data: Option<Vec<u8>>,
    /// Authentication configuration for this session
    pub auth_config: AuthConfig,
    /// CHAP authentication state for initiator-to-target (if using CHAP)
    pub chap_state: Option<ChapAuthState>,
    /// CHAP authentication state for target-to-initiator (if using Mutual CHAP)
    pub target_chap_state: Option<ChapAuthState>,
    /// Whether CHAP authentication has completed successfully
    pub chap_completed: bool,
    /// Access Control List - allowed initiator IQNs (None = allow all)
    pub allowed_initiators: Option<Vec<String>>,
}

/// A session as mathematical values.
#[verifier::ext_equal]
pub struct SessionView {
    pub isid: Seq<u8>,
    pub tsih: u16,
    pub cid: u16,
    pub session_type: SessionType,
    pub state: SessionState,
    pub params: ParamsView,
    pub exp_cmd_sn: u32,
    pub max_cmd_sn: u32,
    pub stat_sn: u32,
    pub current_stage: u8,
    pub next_stage: u8,
    pub pending_writes: Map<u32, PendingWrite>,
    pub next_ttt: u32,
    pub last_sense_data: Option<Seq<u8>>,
    pub auth_config: AuthView,
    pub chap_state: Option<ChapView>,
    pub target_chap_state: Option<ChapView>,
    pub chap_completed: bool,
    pub allowed_initiators: Option<Seq<Seq<char>>>,
}

pub open spec fn opt_bytes_view(o: Option<Vec<u8>>) -> Option<Seq<u8>> {
    match o {
        Some(v) => Some(v@),
        None => None,
    }
}

pub open spec fn opt_chap_view(o: Option<ChapAuthState>) -> Option<ChapView> {
    match o {
        Some(c) => Some(c@),
        None => None,
    }
}

pub open spec fn names_view(v: Seq<String>) -> Seq<Seq<char>> {
    v.map_values(|s: String| s@)
}

pub open spec fn opt_names_view(o: Option<Vec<String>>) -> Option<Seq<Seq<char>>> {
    match o {
        Some(v) => Some(names_view(v@)),
        None => None,
    }
}

impl View for IscsiSession {
    type V = SessionView;

    open spec fn view(&self) -> SessionView {
        SessionView {
            isid: self.isid@,
            tsih: self.tsih,
            cid: self.cid,
            session_type: self.session_type,
            state: self.state,
            params: self.params@,
            exp_cmd_sn: self.exp_cmd_sn,
            max_cmd_sn: self.max_cmd_sn,
            stat_sn: self.stat_sn,
            current_stage: self.current_stage,
            next_stage: self.next_stage,
            pending_writes: self.pending_writes@,
            next_ttt: self.next_ttt,
            last_sense_data: opt_bytes_view(self.last_sense_data),
            auth_config: self.auth_config@,
            chap_state: opt_chap_view(self.chap_state),
            target_chap_state: opt_chap_view(self.target_chap_state),
            chap_completed: self.chap_completed,
            allowed_initiators: opt_names_view(self.allowed_initiators),
        }
    }
}

/// The state of a session before its first login PDU.
pub open spec fn initial_session() -> SessionView {
    SessionView {
        isid: seq![0u8, 0u8, 0u8, 0u8, 0u8, 0u8],
        tsih: 0,
        cid: 0,
        session_type: SessionType::Normal,
        state: SessionState::Free,
        params: default_params(),
        exp_cmd_sn: 1,
        max_cmd_sn: 1,
        stat_sn: 0,
        current_stage: 0,
        next_stage: 0,
        pending_writes: Map::empty(),
        next_ttt: 1,
        last_sense_data: None,
        auth_config: AuthView::NoAuth,
        chap_state: None,
        target_chap_state: None,
        chap_completed: false,
        allowed_initiators: None,
    }
}

/// `x + 1` modulo 2^32.
pub open spec fn wrap_inc(x: u32) -> u32 {
    if x == u32::MAX {
        0
    } else {
        (x + 1) as u32
    }
}

/// The tag that follows `t`: `t + 1` modulo 2^32, except that the
/// reserved value 0xFFFFFFFF is skipped in favour of 1.
pub open spec fn ttt_after(t: u32) -> u32 {
    if wrap_inc(t) == 0xFFFF_FFFF {
        1
    } else {
        wrap_inc(t)
    }
}

/// A target transfer tag that the target may hand out: neither 0, which is
/// reserved for unsolicited data, nor 0xFFFFFFFF, which means "no tag".
pub open spec fn usable_ttt(t: u32) -> bool {
    1 <= t && t < 0xFFFF_FFFF
}

/// `a - b` modulo 2^32.
pub open spec fn serial_diff(a: u32, b: u32) -> nat {
    if a >= b {
        (a - b) as nat
    } else {
        (a + 0x1_0000_0000 - b) as nat
    }
}

/// Serial-number arithmetic: `sn` lies in the window from `exp_sn` to
/// `max_sn`, both differences read as signed 32-bit numbers.
pub open spec fn in_window(sn: u32, exp_sn: u32, max_sn: u32) -> bool {
    serial_diff(sn, exp_sn) < 0x8000_0000 && serial_diff(max_sn, sn) < 0x8000_0000
}

/// The StatSN that a response carries and the session after it was used.
pub open spec fn with_stat_sn(s: SessionView, stat_sn: u32) -> SessionView {
    SessionView { stat_sn, ..s }
}

pub open spec fn logout_response_view(s: SessionView, itt: u32) -> PduView {
    built_pdu(
        pdu::opcode::LOGOUT_RESPONSE,
        false,
        pdu::flags::FINAL,
        0,
        itt,
        logout_response_specific(
            s.stat_sn,
            s.exp_cmd_sn,
            s.max_cmd_sn,
            pdu::logout_response::SUCCESS,
            s.params.default_time2wait,
            s.params.default_time2retain,
        ),
        seq![],
    )
}

pub open spec fn nop_in_view(s: SessionView, itt: u32, lun: u64) -> PduView {
    built_pdu(
        pdu::opcode::NOP_IN,
        false,
        pdu::flags::FINAL,
        lun,
        itt,
        ttt_sn_specific(0xFFFF_FFFF, s.stat_sn, s.exp_cmd_sn, s.max_cmd_sn),
        seq![],
    )
}

impl Default for IscsiSession {
    fn default() -> (r: Self)
        ensures
            r@ == initial_session(),
    {
        Self::new()
    }
}

impl IscsiSession {
    /// Create a new session
    pub fn new() -> (r: Self)
        ensures
            r@ == initial_session(),
    {
        let r = IscsiSession {
            isid: [0u8; 6],
            tsih: 0,
            cid: 0,
            session_type: SessionType::Normal,
            state: SessionState::Free,
            params: SessionParams::default(),
            exp_cmd_sn: 1,
            max_cmd_sn: 1,
            stat_sn: 0,
            current_stage: 0,
            next_stage: 0,
            pending_writes: HashMap::new(),
            next_ttt: 1,  // TTT 0 is reserved for unsolicited data
            last_sense_data: None,
            auth_config: AuthConfig::NoAuth,
            chap_state: None,
            target_chap_state: None,
            chap_completed: false,
            allowed_initiators: None,
        };
        assert(r.isid@ =~= seq![0u8, 0u8, 0u8, 0u8, 0u8, 0u8]);
        assert(r@ =~= initial_session());
        r
    }

    /// Generate the next Target Transfer Tag
    ///
    /// Tags count up from 1; the reserved value 0xFFFFFFFF is never handed
    /// out while the counter holds a usable tag.
    pub fn next_target_transfer_tag(&mut self) -> (r: u32)
        ensures
            r == old(self).next_ttt,
            final(self)@ == (SessionView { next_ttt: ttt_after(old(self).next_ttt), ..old(self)@ }),
            final(self).next_ttt != 0xFFFF_FFFF,
            usable_ttt(old(self).next_ttt) ==> usable_ttt(r) && usable_ttt(final(self).next_ttt),
    {
        let ttt = self.next_ttt;
        self.next_ttt = self.next_ttt.wrapping_add(1);
        // TTT 0xFFFFFFFF is reserved (means no TTT), so skip it
        if self.next_ttt == 0xFFFF_FFFF {
            self.next_ttt = 1;
        }
        ttt
    }

    /// Set authentication configuration for this session
    pub fn set_auth_config(&mut self, auth_config: AuthConfig)
        ensures
            final(self)@ == (SessionView { auth_config: auth_config@, ..old(self)@ }),
    {
        self.auth_config = auth_config;
    }

    /// Set ACL (Access Control List) for this session
    pub fn set_allowed_initiators(&mut self, allowed_initiators: Option<Vec<String>>)
        ensures
            final(self)@ == (SessionView {
                allowed_initiators: opt_names_view(allowed_initiators),
                ..old(self)@
            }),
    {
        self.allowed_initiators = allowed_initiators;
    }

    /// Check if session is in full feature phase
    pub fn is_full_feature(&self) -> (r: bool)
        ensures
            r == (self.state == SessionState::FullFeaturePhase),
    {
        self.state == SessionState::FullFeaturePhase
    }

    /// Check if this is a discovery session
    pub fn is_discovery(&self) -> (r: bool)
        ensures
            r == (self.session_type == SessionType::Discovery),
    {
        self.session_type == SessionType::Discovery
    }

    /// Get next StatSN and increment
    pub fn next_stat_sn(&mut self) -> (r: u32)
        ensures
            r == old(self).stat_sn,
            final(self)@ == with_stat_sn(old(self)@, wrap_inc(old(self).stat_sn)),
    {
        let sn = self.stat_sn;
        self.stat_sn = self.stat_sn.wrapping_add(1);
        sn
    }

    /// Validate and update CmdSN from incoming PDU
    ///
    /// A CmdSN inside the window is accepted; the expected one moves the
    /// window up by one, keeping its width.
    pub fn validate_cmd_sn(&mut self, cmd_sn: u32) -> (r: bool)
        ensures
            r == in_window(cmd_sn, old(self).exp_cmd_sn, old(self).max_cmd_sn),
            r && cmd_sn == old(self).exp_cmd_sn ==> final(self)@ == (SessionView {
                exp_cmd_sn: wrap_inc(old(self).exp_cmd_sn),
                max_cmd_sn: wrap_inc(old(self).max_cmd_sn),
                ..old(self)@
            }),
            !(r && cmd_sn == old(self).exp_cmd_sn) ==> final(self)@ == old(self)@,
            serial_diff(final(self).max_cmd_sn, final(self).exp_cmd_sn) == serial_diff(
                old(self).max_cmd_sn,
                old(self).exp_cmd_sn,
            ),
    {
        // Check if CmdSN is within window
        let in_win = Self::sn_in_window(cmd_sn, self.exp_cmd_sn, self.max_cmd_sn);
        if in_win && cmd_sn == self.exp_cmd_sn {
            // Expected command - advance window
            self.exp_cmd_sn = self.exp_cmd_sn.wrapping_add(1);
            self.max_cmd_sn = self.max_cmd_sn.wrapping_add(1);
        }
        in_win
    }

    /// Check if a sequence number is within the command window
    ///
    /// Both differences are taken modulo 2^32 and read as signed numbers,
    /// so the window may wrap around zero.
    fn sn_in_window(sn: u32, exp_sn: u32, max_sn: u32) -> (r: bool)
        ensures
            r == in_window(sn, exp_sn, max_sn),
    {
        let diff_exp = sn.wrapping_sub(exp_sn);
        let diff_max = max_sn.wrapping_sub(sn);
        diff_exp < 0x8000_0000 && diff_max < 0x8000_0000
    }

    /// Process logout request
    pub fn process_logout(&mut self, pdu: &IscsiPdu) -> (r: ScsiResult<IscsiPdu>)
        ensures
            pdu.opcode != pdu::opcode::LOGOUT_REQUEST ==> (r matches Err(IscsiError::InvalidPdu(m))
                && m@ == "Expected Logout Request opcode 0x06"@ + ", got 0x"@ + hex2_chars(pdu.opcode)
                && final(self)@ == old(self)@),
            pdu.opcode == pdu::opcode::LOGOUT_REQUEST ==> (r matches Ok(p) && p@ == logout_response_view(
                old(self)@,
                pdu.itt,
            ) && final(self)@ == (SessionView {
                state: SessionState::Logout,
                stat_sn: wrap_inc(old(self).stat_sn),
                ..old(self)@
            })),
    {
        let logout = match pdu.parse_logout_request() {
            Ok(l) => l,
            Err(e) => {
                return Err(e);
            },
        };
        self.state = SessionState::Logout;
        let stat_sn = self.next_stat_sn();
        Ok(
            IscsiPdu::logout_response(
                logout.itt,
                stat_sn,
                self.exp_cmd_sn,
                self.max_cmd_sn,
                pdu::logout_response::SUCCESS,
                self.params.default_time2wait,
                self.params.default_time2retain,
            ),
        )
    }

    /// Process NOP-Out (ping) request
    ///
    /// A NOP-Out with the reserved ITT 0xFFFFFFFF answers a ping of the
    /// target and gets no reply.
    pub fn process_nop_out(&mut self, pdu: &IscsiPdu) -> (r: ScsiResult<IscsiPdu>)
        ensures
            pdu.opcode != pdu::opcode::NOP_OUT ==> (r matches Err(IscsiError::InvalidPdu(m)) && m@
                == "Expected NOP-Out opcode 0x00"@ + ", got 0x"@ + hex2_chars(pdu.opcode)),
            pdu.opcode == pdu::opcode::NOP_OUT && pdu.itt == 0xFFFF_FFFF ==> (r matches Err(
                IscsiError::Protocol(m),
            ) && m@ == "Unsolicited NOP-Out response"@),
            r is Err ==> final(self)@ == old(self)@,
            pdu.opcode == pdu::opcode::NOP_OUT && pdu.itt != 0xFFFF_FFFF ==> (r matches Ok(p) && p@
                == nop_in_view(old(self)@, pdu.itt, pdu.lun) && final(self)@ == with_stat_sn(
                old(self)@,
                wrap_inc(old(self).stat_sn),
            )),
    {
        let nop = match pdu.parse_nop_out() {
            Ok(n) => n,
            Err(e) => {
                return Err(e);
            },
        };
        // Only respond if ITT is not 0xFFFFFFFF (unsolicited NOP-In)
        if nop.itt == 0xFFFF_FFFF {
            // Target-initiated ping, initiator responding - no response needed
            return Err(IscsiError::Protocol("Unsolicited NOP-Out response".to_string()));
        }
        let stat_sn = self.next_stat_sn();
        Ok(IscsiPdu::nop_in(nop.itt, 0xFFFF_FFFF, stat_sn, self.exp_cmd_sn, self.max_cmd_sn, nop.lun))
    }

    /// Handle SendTargets discovery request
    pub fn handle_send_targets(&self, target_name: &str, target_address: &str) -> (r: Vec<(String, String)>)
        ensures
            pdu::pairs_view(r@) == seq![
                ("TargetName"@, target_name@),
                ("TargetAddress"@, target_address@ + ",1"@),
            ],
    {
        let mut addr = target_address.to_string();
        addr.append(",1");
        let mut r: Vec<(String, String)> = Vec::new();
        r.push(("TargetName".to_string(), target_name.to_string()));
        r.push(("TargetAddress".to_string(), addr));
        assert(pdu::pairs_view(r@) =~= seq![
            ("TargetName"@, target_name@),
            ("TargetAddress"@, target_address@ + ",1"@),
        ]);
        r
    }
}

/// Connection state for a single TCP connection within a session
#[derive(Debug, Clone)]
pub struct IscsiConnection {
    /// Connection ID
    pub cid: u16,
    /// Connection state
    pub state: ConnectionState,
    /// Associated session
    pub session_id: Option<u16>,
}

/// Connection states
#[derive(Debug, Clone, Copy, PartialEq, Eq, Structural)]
pub enum ConnectionState {
    /// Initial state
    Free,
    /// In login phase
    InLogin,
    /// Logged in, full feature phase
    LoggedIn,
    /// In logout phase
    InLogout,
    /// Cleanup state
    Cleanup,
}

impl Default for ConnectionState {
    fn default() -> (r: Self)
        ensures
            r == ConnectionState::Free,
    {
        ConnectionState::Free
    }
}

impl IscsiConnection {
    /// Create a new connection
    pub fn new(cid: u16) -> (r: Self)
        ensures
            r.cid == cid,
            r.state == ConnectionState::Free,
            r.session_id is None,
    {
        IscsiConnection { cid, state: ConnectionState::Free, session_id: None }
    }
}

/// Advancing the expected CmdSN by one keeps a sequence number's position
/// relative to a window that moves with it: the window is invariant under
/// shifting all three numbers by one.
pub proof fn lemma_window_shift(sn: u32, exp_sn: u32, max_sn: u32)
    ensures
        in_window(sn, exp_sn, max_sn) == in_window(wrap_inc(sn), wrap_inc(exp_sn), wrap_inc(max_sn)),
{
}

/// The expected CmdSN always lies in a window whose width is below 2^31.
pub proof fn lemma_expected_in_window(exp_sn: u32, max_sn: u32)
    requires
        serial_diff(max_sn, exp_sn) < 0x8000_0000,
    ensures
        in_window(exp_sn, exp_sn, max_sn),
{
}

/// Logging out always succeeds: for every session `s` and every Logout
/// Request `p` that `process_logout` answers with `r`, leaving the session
/// `s2`, the answer is a Logout Response to the same task whose Response
/// field (the first opcode-specific byte) is 0, "connection or session
/// closed successfully"; the response carries the next StatSN, and the
/// session is logged out.
pub proof fn lemma_logout_succeeds(s: SessionView, p: PduView, s2: SessionView, r: ScsiResult<IscsiPdu>)
    requires
        p.opcode == pdu::opcode::LOGOUT_REQUEST,
        r matches Ok(x) && x@ == logout_response_view(s, p.itt) && s2 == (SessionView {
            state: SessionState::Logout,
            stat_sn: wrap_inc(s.stat_sn),
            ..s
        }),
    ensures
        r matches Ok(x) && {
            &&& x@.opcode == 0x26
            &&& x@.itt == p.itt
            &&& x@.specific[0] == 0
            &&& pdu::field(x@.specific, 4, 4) == s.stat_sn
        },
        s2.state == SessionState::Logout,
        s2.stat_sn == wrap_inc(s.stat_sn),
{
    crate::bytes::lemma_be_bytes_value(s.stat_sn as nat, 4);
    crate::bytes::lemma_be_bytes_value(s.exp_cmd_sn as nat, 4);
    crate::bytes::lemma_be_bytes_value(s.max_cmd_sn as nat, 4);
    crate::bytes::lemma_be_bytes_value(s.params.default_time2wait as nat, 2);
    crate::bytes::lemma_be_bytes_value(s.params.default_time2retain as nat, 2);
    crate::bytes::lemma_pow256_values();
    let z = pdu::put_byte(crate::bytes::zeros(28), 0, 0);
    let a = pdu::put(z, 4, s.stat_sn as nat, 4);
    let b = pdu::put(a, 8, s.exp_cmd_sn as nat, 4);
    let c = pdu::put(b, 12, s.max_cmd_sn as nat, 4);
    let d = pdu::put(c, 20, s.params.default_time2wait as nat, 2);
    let e = pdu::put(d, 22, s.params.default_time2retain as nat, 2);
    assert(e == logout_response_specific(
        s.stat_sn,
        s.exp_cmd_sn,
        s.max_cmd_sn,
        pdu::logout_response::SUCCESS,
        s.params.default_time2wait,
        s.params.default_time2retain,
    ));
    assert(a.subrange(4, 8) =~= crate::bytes::be_bytes(s.stat_sn as nat, 4));
    assert(a[0] == 0);
    assert(b.subrange(4, 8) =~= a.subrange(4, 8) && b[0] == a[0]);
    assert(c.subrange(4, 8) =~= b.subrange(4, 8) && c[0] == b[0]);
    assert(d.subrange(4, 8) =~= c.subrange(4, 8) && d[0] == c[0]);
    assert(e.subrange(4, 8) =~= d.subrange(4, 8) && e[0] == d[0]);
}

/// A ping is answered in kind: for every session `s` and every NOP-Out `p`
/// that expects an answer (its ITT is not 0xFFFFFFFF), the answer `r` of
/// `process_nop_out` is a final NOP-In with the same ITT and LUN, the
/// reserved target transfer tag 0xFFFFFFFF (no answer expected back), no
/// data, and the session's StatSN, which the session then moves past.
pub proof fn lemma_nop_out_is_answered(s: SessionView, p: PduView, s2: SessionView, r: ScsiResult<IscsiPdu>)
    requires
        p.opcode == pdu::opcode::NOP_OUT,
        p.itt != 0xFFFF_FFFF,
        r matches Ok(x) && x@ == nop_in_view(s, p.itt, p.lun) && s2 == with_stat_sn(s, wrap_inc(s.stat_sn)),
    ensures
        r matches Ok(x) && {
            &&& x@.opcode == 0x20
            &&& pdu::bit7(x@.flags)
            &&& x@.itt == p.itt
            &&& x@.lun == p.lun
            &&& pdu::field(x@.specific, 0, 4) == 0xFFFF_FFFF
            &&& pdu::field(x@.specific, 4, 4) == s.stat_sn
            &&& x@.data.len() == 0
        },
        s2.stat_sn == wrap_inc(s.stat_sn),
{
    let base = pdu::put(crate::bytes::zeros(28), 0, 0xFFFF_FFFF, 4);
    crate::bytes::lemma_be_bytes_value(0xFFFF_FFFF, 4);
    crate::bytes::lemma_pow256_values();
    assert(base.subrange(0, 4) =~= crate::bytes::be_bytes(0xFFFF_FFFF, 4));
    pdu::lemma_sn_specific_fields(base, s.stat_sn, s.exp_cmd_sn, s.max_cmd_sn);
    assert(pdu::bit7(pdu::flags::FINAL));
}

} // verus!
