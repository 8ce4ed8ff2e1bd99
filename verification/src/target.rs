//! iSCSI target server
//!
//! The target's configuration and its builder, and what the target does
//! with each PDU that a connection receives: login and text requests during
//! the login phase; SCSI commands, Data-Out, NOP, logout, text and task
//! management in the full feature phase.  The socket itself is the
//! caller's: it hands each PDU in and sends back the PDUs that come out.

pub mod command;

use vstd::prelude::*;
use crate::auth::{AuthConfig, ChapView};
use crate::error::{IscsiError, ScsiResult};
use crate::pdu::{
    self, built_pdu, frame_len, pairs_view, serialize_params, serialize_text_parameters, sn_specific,
    text_params, ttt_sn_specific, IscsiPdu, PduView,
};
use crate::scsi::ScsiBlockDevice;
use crate::session::login::{login_outcome, login_overflows, login_result};
use crate::session::negotiation::Pairs;
use crate::session::{
    logout_response_view, nop_in_view, with_stat_sn, wrap_inc, IscsiSession, SessionState,
    SessionView,
};
use crate::text::{dec_chars, has_prefix, hex2_chars, push_decimal, starts_with_str, str_eq};
use command::{
    cdb_of, data_out_done, data_out_fails, handle_scsi_command, handle_scsi_data_out,
    scsi_command_done, scsi_command_fails,
};

use std::marker::PhantomData;
use std::sync::atomic::{AtomicBool, Ordering};
use std::sync::{Arc, Mutex};

verus! {

/// Default iSCSI port
pub const ISCSI_PORT: u16 = 3260;

#[verifier::external_type_specification]
#[verifier::external_body]
#[verifier::reject_recursive_types(T)]
pub struct ExMutex<T: ?Sized>(Mutex<T>);

/// `Mutex::new`: a lock around the value.  Nothing is claimed of it: the
/// library hands the lock to the caller and never looks inside.
#[verifier::external_body]
fn new_mutex<T>(value: T) -> Mutex<T> {
    Mutex::new(value)
}

/// iSCSI target server
#[verifier::reject_recursive_types(D)]
pub struct IscsiTarget<D: ScsiBlockDevice> {
    /// Address the server listens on
    pub bind_addr: String,
    /// iSCSI name of the target
    pub target_name: String,
    /// Human-readable alias of the target
    pub target_alias: String,
    /// The storage, shared by the connections
    pub device: Arc<Mutex<D>>,
    /// Whether the server keeps accepting connections
    pub running: Arc<AtomicBool>,
    /// Authentication every session uses
    pub auth_config: AuthConfig,
}

impl<D: ScsiBlockDevice + Send + 'static> IscsiTarget<D> {
    /// Create a new builder for configuring the target
    pub fn builder() -> (r: IscsiTargetBuilder<D>)
        ensures
            r.bind_addr is None,
            r.target_name is None,
            r.target_alias is None,
            r.auth_config@ is NoAuth,
    {
        IscsiTargetBuilder::new()
    }

    /// Signal the server to stop
    pub fn stop(&self) {
        self.running.store(false, Ordering::SeqCst);
    }

    /// Check if the server is running
    pub fn is_running(&self) -> bool {
        self.running.load(Ordering::SeqCst)
    }
}

/// The address a target listens on when none is configured.
pub open spec fn default_bind_addr() -> Seq<char> {
    "0.0.0.0:"@ + dec_chars(ISCSI_PORT as nat)
}

/// The name a target gets when none is configured.
pub open spec fn default_target_name() -> Seq<char> {
    "iqn.2025-12.local:storage.default"@
}

/// The alias a target gets when none is configured.
pub open spec fn default_target_alias() -> Seq<char> {
    "iSCSI Target"@
}

/// An iSCSI name in one of the three formats: IQN, EUI or NAA.
pub open spec fn valid_target_name(n: Seq<char>) -> bool {
    has_prefix(n, "iqn."@) || has_prefix(n, "eui."@) || has_prefix(n, "naa."@)
}

pub open spec fn string_or(o: Option<String>, d: Seq<char>) -> Seq<char> {
    match o {
        Some(s) => s@,
        None => d,
    }
}

pub open spec fn invalid_name_message() -> Seq<char> {
    "target_name must be in IQN, EUI, or NAA format (e.g., iqn.2025-12.local:storage.disk1)"@
}

/// Builder for configuring an iSCSI target
pub struct IscsiTargetBuilder<D: ScsiBlockDevice> {
    pub bind_addr: Option<String>,
    pub target_name: Option<String>,
    pub target_alias: Option<String>,
    pub auth_config: AuthConfig,
    pub _phantom: PhantomData<D>,
}

impl<D: ScsiBlockDevice> IscsiTargetBuilder<D> {
    fn new() -> (r: Self)
        ensures
            r.bind_addr is None,
            r.target_name is None,
            r.target_alias is None,
            r.auth_config@ is NoAuth,
    {
        Self {
            bind_addr: None,
            target_name: None,
            target_alias: None,
            auth_config: AuthConfig::NoAuth,
            _phantom: PhantomData,
        }
    }

    /// Set the bind address (default: 0.0.0.0:3260)
    pub fn bind_addr(self, addr: &str) -> (r: Self)
        ensures
            r.bind_addr matches Some(a) && a@ == addr@,
            r.target_name == self.target_name,
            r.target_alias == self.target_alias,
            r.auth_config == self.auth_config,
    {
        let mut b = self;
        b.bind_addr = Some(addr.to_string());
        b
    }

    /// Set the iSCSI target name (IQN format)
    ///
    /// Example: iqn.2025-12.local:storage.disk1
    pub fn target_name(self, name: &str) -> (r: Self)
        ensures
            r.target_name matches Some(n) && n@ == name@,
            r.bind_addr == self.bind_addr,
            r.target_alias == self.target_alias,
            r.auth_config == self.auth_config,
    {
        let mut b = self;
        b.target_name = Some(name.to_string());
        b
    }

    /// Set the target alias (human-readable name)
    pub fn target_alias(self, alias: &str) -> (r: Self)
        ensures
            r.target_alias matches Some(a) && a@ == alias@,
            r.bind_addr == self.bind_addr,
            r.target_name == self.target_name,
            r.auth_config == self.auth_config,
    {
        let mut b = self;
        b.target_alias = Some(alias.to_string());
        b
    }

    /// Set the authentication configuration
    pub fn with_auth(self, auth_config: AuthConfig) -> (r: Self)
        ensures
            r.auth_config == auth_config,
            r.bind_addr == self.bind_addr,
            r.target_name == self.target_name,
            r.target_alias == self.target_alias,
    {
        let mut b = self;
        b.auth_config = auth_config;
        b
    }

    /// Build the target with the specified storage device
    ///
    /// The target name must be an IQN, EUI or NAA name.
    pub fn build(self, device: D) -> (r: ScsiResult<IscsiTarget<D>>)
        ensures
            valid_target_name(string_or(self.target_name, default_target_name())) ==> (r matches Ok(t)
                && t.bind_addr@ == string_or(self.bind_addr, default_bind_addr()) && t.target_name@
                == string_or(self.target_name, default_target_name()) && t.target_alias@ == string_or(
                self.target_alias,
                default_target_alias(),
            ) && t.auth_config == self.auth_config),
            !valid_target_name(string_or(self.target_name, default_target_name())) ==> (r matches Err(
                IscsiError::Config(m),
            ) && m@ == invalid_name_message()),
    {
        let bind_addr = match self.bind_addr {
            Some(a) => a,
            None => {
                let mut a = "0.0.0.0:".to_string();
                push_decimal(&mut a, ISCSI_PORT as u64);
                a
            },
        };
        let target_name = match self.target_name {
            Some(n) => n,
            None => "iqn.2025-12.local:storage.default".to_string(),
        };
        let target_alias = match self.target_alias {
            Some(a) => a,
            None => "iSCSI Target".to_string(),
        };
        // Validate IQN format (basic check)
        if !starts_with_str(target_name.as_str(), "iqn.") && !starts_with_str(
            target_name.as_str(),
            "eui.",
        ) && !starts_with_str(target_name.as_str(), "naa.") {
            return Err(
                IscsiError::Config(
                    "target_name must be in IQN, EUI, or NAA format (e.g., iqn.2025-12.local:storage.disk1)".to_string(),
                ),
            );
        }
        Ok(
            IscsiTarget {
                bind_addr,
                target_name,
                target_alias,
                device: Arc::new(new_mutex(device)),
                running: Arc::new(AtomicBool::new(false)),
                auth_config: self.auth_config,
            },
        )
    }
}

// ============================================================================
// PDUs as a sequence of values
// ============================================================================

pub open spec fn pdus_view(v: Seq<IscsiPdu>) -> Seq<PduView> {
    v.map_values(|p: IscsiPdu| p@)
}

/// The error of a PDU handler: a PDU of another kind than the handler
/// takes (with its message), or an error that the device returned.
pub enum HandlerError {
    Invalid(Seq<char>),
    Device(IscsiError),
}

/// The result of a handler matches an outcome: the same session, and the
/// same PDUs or the same error.
pub open spec fn handler_result(
    s: SessionView,
    r: ScsiResult<Vec<IscsiPdu>>,
    o: (SessionView, Result<Seq<PduView>, HandlerError>),
) -> bool {
    &&& s == o.0
    &&& match o.1 {
        Ok(ps) => r matches Ok(v) && pdus_view(v@) == ps,
        Err(HandlerError::Invalid(m)) => r matches Err(IscsiError::InvalidPdu(x)) && x@ == m,
        Err(HandlerError::Device(e)) => r == Err::<Vec<IscsiPdu>, IscsiError>(e),
    }
}

/// The message for a PDU of another kind than a parser expects.
pub open spec fn wrong_opcode_message(expected: Seq<char>, got: u8) -> Seq<char> {
    expected + ", got 0x"@ + hex2_chars(got)
}

// ============================================================================
// Framing
// ============================================================================

/// The number of bytes of the PDU that starts with this BHS: the header,
/// the AHS and the padded data segment.
pub fn pdu_frame_length(bhs: &[u8]) -> (r: usize)
    requires
        bhs@.len() >= 48,
    ensures
        r == frame_len(bhs@),
{
    let ahs_length = bhs[4] as usize * 4;
    let data_length = crate::bytes::read_be(bhs, 5, 3) as usize;
    proof {
        crate::bytes::lemma_be_value_bound(bhs@.subrange(5, 8));
        crate::bytes::lemma_pow256_values();
    }
    let padded_data_len = (data_length + 3) / 4 * 4;
    pdu::BHS_SIZE + ahs_length + padded_data_len
}

// ============================================================================
// Text requests and task management
// ============================================================================

/// A SendTargets key whose value asks for every target.
pub open spec fn is_send_targets(kv: (Seq<char>, Seq<char>)) -> bool {
    kv.0 == "SendTargets"@ && (kv.1 == "All"@ || kv.1.len() == 0)
}

pub open spec fn wants_send_targets(ps: Pairs) -> bool {
    exists|i: int| 0 <= i < ps.len() && is_send_targets(#[trigger] ps[i])
}

/// The pairs that answer SendTargets.
pub open spec fn send_targets_pairs(tn: Seq<char>, addr: Seq<char>) -> Pairs {
    seq![("TargetName"@, tn), ("TargetAddress"@, addr + ",1"@)]
}

pub open spec fn text_response_view(s: SessionView, itt: u32, data: Seq<u8>) -> PduView {
    built_pdu(
        pdu::opcode::TEXT_RESPONSE,
        false,
        pdu::flags::FINAL,
        0,
        itt,
        ttt_sn_specific(0xFFFF_FFFF, s.stat_sn, s.exp_cmd_sn, s.max_cmd_sn),
        data,
    )
}

/// What a text request does: SendTargets (with `All` or no value) is
/// answered with this target's name and address, any other request with an
/// empty final text response.
pub open spec fn text_request_outcome(s: SessionView, p: PduView, tn: Seq<char>, addr: Seq<char>) -> (
    SessionView,
    Result<Seq<PduView>, HandlerError>,
) {
    if p.opcode != pdu::opcode::TEXT_REQUEST {
        (s, Err(HandlerError::Invalid(wrong_opcode_message("Expected Text Request opcode 0x04"@, p.opcode))))
    } else {
        let pairs = if wants_send_targets(text_params(p.data)) {
            send_targets_pairs(tn, addr)
        } else {
            seq![]
        };
        (
            with_stat_sn(s, wrap_inc(s.stat_sn)),
            Ok(seq![text_response_view(s, p.itt, serialize_params(pairs))]),
        )
    }
}

pub open spec fn tmf_response_view(s: SessionView, itt: u32) -> PduView {
    built_pdu(
        pdu::opcode::TASK_MANAGEMENT_RESPONSE,
        false,
        pdu::flags::FINAL,
        0,
        itt,
        sn_specific(crate::bytes::zeros(28), s.stat_sn, s.exp_cmd_sn, s.max_cmd_sn),
        seq![],
    )
}

/// Whether some pair asks for SendTargets.
fn asks_send_targets(params: &[(String, String)]) -> (r: bool)
    ensures
        r == wants_send_targets(pairs_view(params@)),
{
    let n = params.len();
    let mut i: usize = 0;
    while i < n
        invariant
            n == params@.len(),
            i <= n,
            forall|j: int| 0 <= j < i ==> !is_send_targets(#[trigger] pairs_view(params@)[j]),
        decreases n - i,
    {
        let k = params[i].0.as_str();
        let v = params[i].1.as_str();
        if str_eq(k, "SendTargets") && (str_eq(v, "All") || v.is_empty()) {
            assert(is_send_targets(pairs_view(params@)[i as int]));
            return true;
        }
        assert(!is_send_targets(pairs_view(params@)[i as int]));
        i = i + 1;
    }
    false
}

/// Handle Text Request (e.g., SendTargets for discovery)
///
/// Discovery works even if SessionType isn't explicitly set (RFC 3720).
pub fn handle_text_request(
    session: &mut IscsiSession,
    pdu: &IscsiPdu,
    target_name: &str,
    target_address: &str,
) -> (r: ScsiResult<Vec<IscsiPdu>>)
    ensures
        handler_result(
            final(session)@,
            r,
            text_request_outcome(old(session)@, pdu@, target_name@, target_address@),
        ),
{
    let text_req = match pdu.parse_text_request() {
        Ok(t) => t,
        Err(e) => {
            return Err(e);
        },
    };
    let response_params = if asks_send_targets(text_req.parameters.as_slice()) {
        session.handle_send_targets(target_name, target_address)
    } else {
        Vec::new()
    };
    let response_data = serialize_text_parameters(response_params.as_slice());
    let stat_sn = session.next_stat_sn();
    let response = IscsiPdu::text_response(
        text_req.itt,
        0xFFFF_FFFF,  // TTT
        stat_sn,
        session.exp_cmd_sn,
        session.max_cmd_sn,
        true,  // final
        response_data,
    );
    let mut v: Vec<IscsiPdu> = Vec::new();
    v.push(response);
    assert(pdus_view(v@) =~= text_request_outcome(old(session)@, pdu@, target_name@, target_address@).1->Ok_0);
    Ok(v)
}

/// Handle Task Management Request
///
/// Every request is acknowledged with "function complete"; no task is
/// aborted or reset.
pub fn handle_task_management(session: &mut IscsiSession, pdu: &IscsiPdu) -> (r: ScsiResult<Vec<IscsiPdu>>)
    ensures
        final(session)@ == with_stat_sn(old(session)@, wrap_inc(old(session).stat_sn)),
        r matches Ok(v) && pdus_view(v@) == seq![tmf_response_view(old(session)@, pdu.itt)],
{
    let mut response = IscsiPdu::new();
    response.opcode = pdu::opcode::TASK_MANAGEMENT_RESPONSE;
    response.flags = pdu::flags::FINAL;
    response.itt = pdu.itt;
    // Response code: function complete
    response.specific[0] = 0x00;
    let stat_sn = session.next_stat_sn();
    pdu::put_be(&mut response.specific, 4, stat_sn as u64, 4);
    pdu::put_be(&mut response.specific, 8, session.exp_cmd_sn as u64, 4);
    pdu::put_be(&mut response.specific, 12, session.max_cmd_sn as u64, 4);
    let mut v: Vec<IscsiPdu> = Vec::new();
    v.push(response);
    proof {
        assert(crate::bytes::zeros(28).update(0, 0u8) =~= crate::bytes::zeros(28));
        assert(pdus_view(v@) =~= seq![tmf_response_view(old(session)@, pdu.itt)]);
    }
    Ok(v)
}


// ============================================================================
// Dispatch by session state
// ============================================================================

/// A login response as the one PDU of a handler's result.
pub open spec fn login_phase_login(
    s: SessionView,
    r: ScsiResult<Vec<IscsiPdu>>,
    o: (SessionView, Result<PduView, Seq<char>>),
) -> bool {
    &&& s == o.0
    &&& match o.1 {
        Ok(v) => r matches Ok(vs) && pdus_view(vs@) == seq![v],
        Err(m) => r matches Err(IscsiError::InvalidPdu(x)) && x@ == m,
    }
}

/// The contract of the login-phase handler: a login request is processed
/// with some fresh challenge and some TSIH, a text request answered, and
/// anything else ignored.
pub open spec fn login_phase_done(
    s: SessionView,
    p: PduView,
    tn: Seq<char>,
    addr: Seq<char>,
    s2: SessionView,
    r: ScsiResult<Vec<IscsiPdu>>,
) -> bool {
    if p.opcode == pdu::opcode::LOGIN_REQUEST {
        exists|fresh: ChapView, tsih: u16|
            fresh.challenge.len() == 16 && !fresh.is_target_auth && tsih >= 1
                && #[trigger] login_phase_login(s2, r, login_outcome(s, p, tn, fresh, tsih))
    } else if p.opcode == pdu::opcode::TEXT_REQUEST {
        handler_result(s2, r, text_request_outcome(s, p, tn, addr))
    } else {
        s2 == s && (r matches Ok(v) && v@.len() == 0)
    }
}

/// The contract of the full-feature-phase handler, by opcode; `before` and
/// `after` are the device before and after the PDU, which only SCSI
/// commands and Data-Out PDUs touch.
pub open spec fn full_feature_done<D: ScsiBlockDevice>(
    s: SessionView,
    p: PduView,
    tn: Seq<char>,
    addr: Seq<char>,
    before: D,
    after: D,
    s2: SessionView,
    r: ScsiResult<Vec<IscsiPdu>>,
) -> bool {
    let op = p.opcode;
    if op == pdu::opcode::SCSI_COMMAND {
        scsi_command_done(s, p, before, after, s2, r)
    } else if op == pdu::opcode::SCSI_DATA_OUT {
        data_out_done(s, p, before, after, s2, r)
    } else {
        after == before && session_pdu_done(s, p, tn, addr, s2, r)
    }
}

/// The contract of the full-feature-phase handler for the PDUs that do not
/// reach the device.
pub open spec fn session_pdu_done(
    s: SessionView,
    p: PduView,
    tn: Seq<char>,
    addr: Seq<char>,
    s2: SessionView,
    r: ScsiResult<Vec<IscsiPdu>>,
) -> bool {
    let op = p.opcode;
    if op == pdu::opcode::NOP_OUT {
        if p.itt == 0xFFFF_FFFF {
            s2 == s && (r matches Err(IscsiError::Protocol(m)) && m@ == "Unsolicited NOP-Out response"@)
        } else {
            s2 == with_stat_sn(s, wrap_inc(s.stat_sn)) && (r matches Ok(v) && pdus_view(v@) == seq![
                nop_in_view(s, p.itt, p.lun),
            ])
        }
    } else if op == pdu::opcode::LOGOUT_REQUEST {
        s2 == (SessionView { state: SessionState::Logout, stat_sn: wrap_inc(s.stat_sn), ..s }) && (r matches Ok(
            v,
        ) && pdus_view(v@) == seq![logout_response_view(s, p.itt)])
    } else if op == pdu::opcode::TEXT_REQUEST {
        handler_result(s2, r, text_request_outcome(s, p, tn, addr))
    } else if op == pdu::opcode::TASK_MANAGEMENT_REQUEST {
        s2 == with_stat_sn(s, wrap_inc(s.stat_sn)) && (r matches Ok(v) && pdus_view(v@) == seq![
            tmf_response_view(s, p.itt),
        ])
    } else {
        s2 == s && (r matches Ok(v) && v@.len() == 0)
    }
}

/// Whether the session is still logging in.
pub open spec fn in_login_phase(st: SessionState) -> bool {
    st == SessionState::Free || st == SessionState::SecurityNegotiation || st
        == SessionState::LoginOperationalNegotiation
}

/// The PDUs the target cannot handle in the session's current state:
/// their arithmetic overflows, or read data could never be sent.
pub open spec fn pdu_fails(s: SessionView, p: PduView) -> bool {
    if in_login_phase(s.state) {
        login_overflows(s, p)
    } else if s.state == SessionState::FullFeaturePhase {
        scsi_command_fails(s, p) || data_out_fails(s, p)
    } else {
        false
    }
}

fn one_pdu(p: IscsiPdu) -> (r: Vec<IscsiPdu>)
    ensures
        pdus_view(r@) == seq![p@],
{
    let mut v: Vec<IscsiPdu> = Vec::new();
    v.push(p);
    assert(pdus_view(v@) =~= seq![p@]);
    v
}

/// Handle PDUs during login phase
pub fn handle_login_phase(
    session: &mut IscsiSession,
    pdu: &IscsiPdu,
    target_name: &str,
    target_address: &str,
) -> (r: ScsiResult<Vec<IscsiPdu>>)
    requires
        !login_overflows(old(session)@, pdu@),
    ensures
        login_phase_done(old(session)@, pdu@, target_name@, target_address@, final(session)@, r),
{
    if pdu.opcode == pdu::opcode::LOGIN_REQUEST {
        let ghost s0 = session@;
        let response = session.process_login(pdu, target_name);
        let ghost (fresh, tsih) = choose|fresh: ChapView, tsih: u16|
            fresh.challenge.len() == 16 && !fresh.is_target_auth && tsih >= 1 && #[trigger] login_result(
                session@,
                response,
                login_outcome(s0, pdu@, target_name@, fresh, tsih),
            );
        let r = match response {
            Ok(p) => Ok(one_pdu(p)),
            Err(e) => Err(e),
        };
        assert(login_phase_login(session@, r, login_outcome(s0, pdu@, target_name@, fresh, tsih)));
        r
    } else if pdu.opcode == pdu::opcode::TEXT_REQUEST {
        // Text request during login (e.g., SendTargets for discovery)
        handle_text_request(session, pdu, target_name, target_address)
    } else {
        // Unexpected opcode during login phase
        Ok(Vec::new())
    }
}

/// Handle PDUs during full feature phase
pub fn handle_full_feature_phase<D: ScsiBlockDevice>(
    session: &mut IscsiSession,
    pdu: &IscsiPdu,
    device: &mut D,
    target_name: &str,
    target_address: &str,
) -> (r: ScsiResult<Vec<IscsiPdu>>)
    requires
        !scsi_command_fails(old(session)@, pdu@),
        !data_out_fails(old(session)@, pdu@),
    ensures
        full_feature_done(
            old(session)@,
            pdu@,
            target_name@,
            target_address@,
            *old(device),
            *final(device),
            final(session)@,
            r,
        ),
{
    let op = pdu.opcode;
    if op == pdu::opcode::SCSI_COMMAND {
        handle_scsi_command(session, pdu, device)
    } else if op == pdu::opcode::SCSI_DATA_OUT {
        handle_scsi_data_out(session, pdu, device)
    } else if op == pdu::opcode::NOP_OUT {
        match session.process_nop_out(pdu) {
            Ok(p) => Ok(one_pdu(p)),
            Err(e) => Err(e),
        }
    } else if op == pdu::opcode::LOGOUT_REQUEST {
        match session.process_logout(pdu) {
            Ok(p) => Ok(one_pdu(p)),
            Err(e) => Err(e),
        }
    } else if op == pdu::opcode::TEXT_REQUEST {
        handle_text_request(session, pdu, target_name, target_address)
    } else if op == pdu::opcode::TASK_MANAGEMENT_REQUEST {
        handle_task_management(session, pdu)
    } else {
        // Unsupported opcode in full feature phase
        Ok(Vec::new())
    }
}

/// The responses of a connection step that did not close the connection.
pub open spec fn step_responses(r: ScsiResult<Option<Vec<IscsiPdu>>>) -> ScsiResult<Vec<IscsiPdu>> {
    match r {
        Ok(Some(v)) => Ok(v),
        Ok(None) => arbitrary(),
        Err(e) => Err(e),
    }
}

/// What a connection does with one PDU, by the state of its session: the
/// PDUs to send back, or `None` when the connection is to be closed (after
/// a logout, or when the session failed).
pub fn connection_step<D: ScsiBlockDevice>(
    session: &mut IscsiSession,
    pdu: &IscsiPdu,
    device: &mut D,
    target_name: &str,
    target_address: &str,
) -> (r: ScsiResult<Option<Vec<IscsiPdu>>>)
    requires
        !pdu_fails(old(session)@, pdu@),
    ensures
        in_login_phase(old(session).state) ==> (r matches Ok(Some(_)) || r is Err) && *final(device)
            == *old(device) && login_phase_done(
            old(session)@,
            pdu@,
            target_name@,
            target_address@,
            final(session)@,
            step_responses(r),
        ),
        old(session).state == SessionState::FullFeaturePhase ==> (r matches Ok(Some(_)) || r is Err)
            && full_feature_done(
            old(session)@,
            pdu@,
            target_name@,
            target_address@,
            *old(device),
            *final(device),
            final(session)@,
            step_responses(r),
        ),
        old(session).state == SessionState::Logout || old(session).state == SessionState::Failed ==> (r
            matches Ok(None) && final(session)@ == old(session)@ && *final(device) == *old(device)),
{
    match session.state {
        SessionState::Free | SessionState::SecurityNegotiation | SessionState::LoginOperationalNegotiation => {
            match handle_login_phase(session, pdu, target_name, target_address) {
                Ok(v) => Ok(Some(v)),
                Err(e) => Err(e),
            }
        },
        SessionState::FullFeaturePhase => {
            match handle_full_feature_phase(session, pdu, device, target_name, target_address) {
                Ok(v) => Ok(Some(v)),
                Err(e) => Err(e),
            }
        },
        // Logout complete, or the session failed: close the connection
        SessionState::Logout | SessionState::Failed => Ok(None),
    }
}

/// Whether the target cannot handle the PDU in the session's current
/// state; a caller tests this before `connection_step`.
#[verifier::rlimit(40)]
pub fn pdu_would_fail(session: &IscsiSession, pdu: &IscsiPdu) -> (r: bool)
    ensures
        r == pdu_fails(session@, pdu@),
{
    match session.state {
        SessionState::Free | SessionState::SecurityNegotiation | SessionState::LoginOperationalNegotiation => {
            if pdu.opcode != pdu::opcode::LOGIN_REQUEST || session.state != SessionState::Free {
                return false;
            }
            let version_max = (pdu.version_or_reserved / 256) as u8;
            let version_min = (pdu.version_or_reserved % 256) as u8;
            let cmd_sn = crate::bytes::read_be_u32(pdu.specific.as_slice(), 4);
            proof {
                crate::bytes::lemma_be_value_bound(pdu@.specific.subrange(4, 8));
                crate::bytes::lemma_pow256_values();
            }
            let unsupported = crate::session::login::TARGET_VERSION < version_min
                || crate::session::login::TARGET_VERSION > version_max;
            !unsupported && cmd_sn == u32::MAX
        },
        SessionState::FullFeaturePhase => {
            if pdu.opcode == pdu::opcode::SCSI_COMMAND {
                if pdu.lun != 0 {
                    return false;
                }
                let op = pdu.specific[12];
                proof {
                    assert(cdb_of(pdu@)[0] == op);
                }
                let range_overflows = if op == 0x88 {
                    let lba = crate::bytes::read_be(pdu.specific.as_slice(), 14, 8);
                    let blocks = crate::bytes::read_be(pdu.specific.as_slice(), 22, 4);
                    proof {
                        assert(cdb_of(pdu@).subrange(2, 10) =~= pdu@.specific.subrange(14, 22));
                        assert(cdb_of(pdu@).subrange(10, 14) =~= pdu@.specific.subrange(22, 26));
                    }
                    blocks != 0 && lba.checked_add(blocks).is_none()
                } else {
                    false
                };
                let is_write = op == 0x0a || op == 0x2a || op == 0x8a;
                let is_sync = op == 0x35 || op == 0x91;
                let read = (pdu.flags / 64) % 2 == 1;
                range_overflows || (!is_write && !is_sync && read
                    && session.params.max_xmit_data_segment_length == 0)
            } else if pdu.opcode == pdu::opcode::SCSI_DATA_OUT {
                match session.pending_writes.get(&pdu.itt) {
                    None => false,
                    Some(pw) => {
                        let offset = crate::bytes::read_be_u32(pdu.specific.as_slice(), 20);
                        let len = (pdu.data.len() as u64 % 0x1_0000_0000) as u32;
                        pw.block_size == 0 || pw.lba.checked_add((offset / pw.block_size) as u64).is_none()
                            || offset.checked_add(len).is_none()
                    },
                }
            } else {
                false
            }
        },
        SessionState::Logout | SessionState::Failed => false,
    }
}

/// Task management requests are acknowledged: for every session `s` and
/// every request `p`, `handle_task_management` answers with one final Task
/// Management Function Response to the same task whose Response field (the
/// first opcode-specific byte) is 0, "function complete", carrying the
/// session's StatSN, which the session then moves past.
pub proof fn lemma_task_management_completes(
    s: SessionView,
    p: PduView,
    s2: SessionView,
    r: ScsiResult<Vec<IscsiPdu>>,
)
    requires
        s2 == with_stat_sn(s, wrap_inc(s.stat_sn)),
        r matches Ok(v) && pdus_view(v@) == seq![tmf_response_view(s, p.itt)],
    ensures
        r matches Ok(v) && v@.len() == 1 && {
            let x = v@[0]@;
            &&& x.opcode == 0x22
            &&& pdu::bit7(x.flags)
            &&& x.itt == p.itt
            &&& x.specific[0] == 0
            &&& pdu::field(x.specific, 4, 4) == s.stat_sn
        },
        s2.stat_sn == wrap_inc(s.stat_sn),
{
    let v = r->Ok_0;
    assert(pdus_view(v@).len() == v@.len());
    assert(v@.len() == 1);
    assert(pdus_view(v@)[0] == v@[0]@);
    pdu::lemma_sn_specific_fields(crate::bytes::zeros(28), s.stat_sn, s.exp_cmd_sn, s.max_cmd_sn);
    let sp = pdu::sn_specific(crate::bytes::zeros(28), s.stat_sn, s.exp_cmd_sn, s.max_cmd_sn);
    assert(sp[0] == sp.subrange(0, 4)[0]);
    assert(pdu::bit7(pdu::flags::FINAL));
}

/// A text request is answered with one final Text Response to the same
/// task, with no transfer tag to continue (0xFFFFFFFF): for every session,
/// Text Request `p` and target name and address without NUL characters, the
/// answer's text parses to exactly TargetName=<the name> and
/// TargetAddress=<the address>,1 (portal group tag 1) when the request
/// holds SendTargets=All or an empty SendTargets, and to no pairs
/// otherwise.
pub proof fn lemma_text_request_answers(
    s: SessionView,
    p: PduView,
    tn: Seq<char>,
    addr: Seq<char>,
    s2: SessionView,
    r: ScsiResult<Vec<IscsiPdu>>,
)
    requires
        p.opcode == pdu::opcode::TEXT_REQUEST,
        !tn.contains('\0'),
        !addr.contains('\0'),
        handler_result(s2, r, text_request_outcome(s, p, tn, addr)),
    ensures
        r matches Ok(v) && v@.len() == 1 && {
            let x = v@[0]@;
            &&& x.opcode == 0x24
            &&& pdu::bit7(x.flags)
            &&& x.itt == p.itt
            &&& pdu::field(x.specific, 0, 4) == 0xFFFF_FFFF
            &&& pdu::field(x.specific, 4, 4) == s.stat_sn
            &&& text_params(x.data) == if wants_send_targets(text_params(p.data)) {
                seq![("TargetName"@, tn), ("TargetAddress"@, addr + ",1"@)]
            } else {
                Seq::<(Seq<char>, Seq<char>)>::empty()
            }
        },
        s2.stat_sn == wrap_inc(s.stat_sn),
{
    let v = r->Ok_0;
    assert(pdus_view(v@).len() == v@.len());
    assert(pdus_view(v@)[0] == v@[0]@);
    let base = pdu::put(crate::bytes::zeros(28), 0, 0xFFFF_FFFF, 4);
    crate::bytes::lemma_be_bytes_value(0xFFFF_FFFF, 4);
    crate::bytes::lemma_pow256_values();
    assert(base.subrange(0, 4) =~= crate::bytes::be_bytes(0xFFFF_FFFF, 4));
    pdu::lemma_sn_specific_fields(base, s.stat_sn, s.exp_cmd_sn, s.max_cmd_sn);
    assert(pdu::bit7(pdu::flags::FINAL));
    reveal_strlit("TargetName");
    reveal_strlit("TargetAddress");
    reveal_strlit(",1");
    let tail = ",1"@;
    let full = addr + tail;
    assert(!full.contains('\0')) by {
        if full.contains('\0') {
            let k = choose|k: int| 0 <= k < full.len() && full[k] == '\0';
            if k < addr.len() {
                assert(addr[k] == '\0');
            } else {
                assert(tail[k - addr.len()] == '\0');
            }
        }
    }
    let ps = seq![("TargetName"@, tn), ("TargetAddress"@, full)];
    assert(!"TargetName"@.contains('=') && !"TargetName"@.contains('\0'));
    assert(!"TargetAddress"@.contains('=') && !"TargetAddress"@.contains('\0'));
    pdu::lemma_text_params_roundtrip(ps);
    pdu::lemma_text_params_roundtrip(Seq::<(Seq<char>, Seq<char>)>::empty());
}

} // verus!
