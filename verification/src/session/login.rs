//! The login phase (RFC 3720 Section 5.3): version check, required keys,
//! CHAP authentication, the access list, stage transitions and the login
//! response; and the login rejects the target sends.

use vstd::prelude::*;
use super::negotiation::{apply_params, response_params, Pairs};
use super::{
    names_view, opt_chap_view, initial_session, wrap_inc, with_stat_sn, IscsiSession, SessionState, SessionType, SessionView,
};
use crate::auth::{
    chap_response, compute_chap_response, hex_decode, hex_decode_spec, parse_chap_response,
    AuthConfig, AuthView, ChapAuthState, ChapCredentials, ChapView, CredentialsView,
};
use crate::bytes::zeros;
use crate::error::{IscsiError, ScsiResult};
use crate::pdu::{
    self, built_pdu, isid_tsih_lun, login_flags, login_request_of, login_response_specific,
    pairs_view, serialize_params, serialize_text_parameters, IscsiPdu, LoginRequest,
    LoginRequestView, PduView,
};
use crate::text::{
    chars_of, dec_chars, decimal_string, has_substring, hex_chars, parse_unsigned,
    parse_unsigned_spec, push_hex, str_eq, string_from_chars, contains_str,
};
use vstd::utf8::encode_utf8;

verus! {

/// The iSCSI version this target speaks (RFC 3720).
pub const TARGET_VERSION: u8 = 0x00;

// ============================================================================
// Clock (outside calls)
// ============================================================================

#[verifier::external_type_specification]
#[verifier::external_body]
pub struct ExSystemTime(std::time::SystemTime);

#[verifier::external_type_specification]
#[verifier::external_body]
pub struct ExSystemTimeError(std::time::SystemTimeError);

/// `SystemTime::now`: the current time.  Nothing is claimed of it.
#[verifier::external_body]
fn system_time_now() -> std::time::SystemTime {
    std::time::SystemTime::now()
}

/// `SystemTime::duration_since` with the Unix epoch: the time elapsed since
/// then, or an error for a time before it.  Nothing is claimed of either.
#[verifier::external_body]
fn since_unix_epoch(t: &std::time::SystemTime) -> Result<
    std::time::Duration,
    std::time::SystemTimeError,
> {
    t.duration_since(std::time::UNIX_EPOCH)
}

/// `Duration::as_millis`: the whole milliseconds of a duration.  Nothing is
/// claimed of the value.
#[verifier::external_body]
fn duration_millis(d: &std::time::Duration) -> u128 {
    d.as_millis()
}

// ============================================================================
// The login phase as mathematical functions
// ============================================================================

/// The value of the first pair with the given key.
pub open spec fn find_param(ps: Pairs, key: Seq<char>) -> Option<Seq<char>>
    decreases ps.len(),
{
    if ps.len() == 0 {
        None
    } else if ps[0].0 == key {
        Some(ps[0].1)
    } else {
        find_param(ps.drop_first(), key)
    }
}

/// Whether the initiator's version range leaves out the target's version.
pub open spec fn version_unsupported(l: LoginRequestView) -> bool {
    TARGET_VERSION < l.version_min || TARGET_VERSION > l.version_max
}

/// The login PDU whose first-login bookkeeping computes `CmdSN + 1` with a
/// CmdSN of 2^32 - 1, which overflows.
pub open spec fn login_overflows(s: SessionView, p: PduView) -> bool {
    &&& p.opcode == pdu::opcode::LOGIN_REQUEST
    &&& !version_unsupported(login_request_of(p))
    &&& s.state == SessionState::Free
    &&& login_request_of(p).cmd_sn == u32::MAX
}

/// A login response carrying the session's identifiers and sequence numbers.
pub open spec fn login_response_view(
    s: SessionView,
    tsih: u16,
    class: u8,
    detail: u8,
    csg: u8,
    nsg: u8,
    transit: bool,
    itt: u32,
    data: Seq<u8>,
) -> PduView {
    built_pdu(
        pdu::opcode::LOGIN_RESPONSE,
        false,
        login_flags(transit, csg, nsg),
        isid_tsih_lun(s.isid, tsih),
        itt,
        login_response_specific(s.stat_sn, s.exp_cmd_sn, s.max_cmd_sn, class, detail),
        data,
    )
}

/// A login reject: the status class and detail, no TSIH, the current
/// stages, no transit and no data.
pub open spec fn reject_view(s: SessionView, itt: u32, class: u8, detail: u8) -> PduView {
    login_response_view(s, 0, class, detail, s.current_stage, s.next_stage, false, itt, seq![])
}

/// The bookkeeping of a login PDU that arrives while the session is still
/// free: the initiator's identifiers and command window, and our name.
pub open spec fn first_login(s: SessionView, l: LoginRequestView, tn: Seq<char>) -> SessionView {
    if s.state == SessionState::Free {
        SessionView {
            isid: l.isid,
            cid: l.cid,
            exp_cmd_sn: l.cmd_sn,
            max_cmd_sn: (l.cmd_sn + 1) as u32,
            params: super::ParamsView { target_name: tn, ..s.params },
            ..s
        }
    } else {
        s
    }
}

/// The status detail of a login that the target rejects for its keys:
/// a missing InitiatorName or TargetName, an unknown target, or an
/// unsupported session type.
pub open spec fn login_check(s: SessionView, l: LoginRequestView, tn: Seq<char>) -> Option<u8> {
    let requested = find_param(l.parameters, "TargetName"@);
    if find_param(l.parameters, "InitiatorName"@) is None && s.params.initiator_name.len() == 0 {
        Some(0x07u8)
    } else if s.session_type == SessionType::Normal && requested is None && s.isid == zeros(6) {
        Some(0x07u8)
    } else if s.session_type == SessionType::Normal && (requested matches Some(n) && n != tn) {
        Some(0x03u8)
    } else if s.params.invalid_session_type is Some {
        Some(0x09u8)
    } else {
        None
    }
}

/// What one CHAP step yields: a failure, or whether authentication is done,
/// the pairs to send and the new CHAP bookkeeping.
pub enum ChapStep {
    Fail,
    Pass { success: bool, params: Pairs, chap_state: Option<ChapView>, chap_completed: bool },
}

/// `text` without a leading "0x".
pub open spec fn strip_0x(text: Seq<char>) -> Seq<char> {
    if text.len() >= 2 && text.take(2) == "0x"@ {
        text.skip(2)
    } else {
        text
    }
}

/// The target's answer to the initiator's challenge in mutual CHAP.
pub open spec fn mutual_answer(ic: CredentialsView, ps: Pairs) -> ChapStep {
    match (find_param(ps, "CHAP_I"@), find_param(ps, "CHAP_C"@)) {
        (Some(i), Some(c)) => match parse_unsigned_spec(i, 255) {
            None => ChapStep::Fail,
            Some(id) => match hex_decode_spec(encode_utf8(strip_0x(c))) {
                None => ChapStep::Fail,
                Some(challenge) => ChapStep::Pass {
                    success: true,
                    params: seq![
                        ("CHAP_N"@, ic.username),
                        (
                            "CHAP_R"@,
                            "0x"@ + hex_chars(
                                chap_response(id as u8, encode_utf8(ic.secret), challenge),
                            ),
                        ),
                    ],
                    chap_state: None,
                    chap_completed: true,
                },
            },
        },
        _ => ChapStep::Pass { success: true, params: seq![], chap_state: None, chap_completed: true },
    }
}

/// Checking the initiator's CHAP_N and CHAP_R against the challenge sent.
pub open spec fn check_chap_answer(
    c: CredentialsView,
    mutual: Option<CredentialsView>,
    st: ChapView,
    ps: Pairs,
) -> ChapStep {
    match (find_param(ps, "CHAP_N"@), find_param(ps, "CHAP_R"@)) {
        (Some(n), Some(rh)) => if n != c.username {
            ChapStep::Fail
        } else {
            match hex_decode_spec(encode_utf8(rh)) {
                None => ChapStep::Fail,
                Some(resp) => if resp != chap_response(
                    st.identifier,
                    encode_utf8(c.secret),
                    st.challenge,
                ) {
                    ChapStep::Fail
                } else {
                    match mutual {
                        Some(ic) => mutual_answer(ic, ps),
                        None => ChapStep::Pass {
                            success: true,
                            params: seq![],
                            chap_state: None,
                            chap_completed: true,
                        },
                    }
                },
            }
        },
        _ => ChapStep::Fail,
    }
}

/// One step of a CHAP exchange that the configuration requires, with the
/// target credentials `c` and, for mutual CHAP, the initiator credentials.
pub open spec fn chap_required(
    c: CredentialsView,
    mutual: Option<CredentialsView>,
    cs: Option<ChapView>,
    cc: bool,
    ps: Pairs,
    fresh: ChapView,
) -> ChapStep {
    if cc && ps.len() == 0 {
        ChapStep::Pass { success: true, params: seq![], chap_state: cs, chap_completed: true }
    } else {
        let supports_chap = (find_param(ps, "AuthMethod"@) matches Some(m) && has_substring(
            m,
            "CHAP"@,
        ));
        let chap_a = find_param(ps, "CHAP_A"@);
        if supports_chap || cs is Some || chap_a is Some {
            if chap_a is None && cs is None {
                ChapStep::Pass {
                    success: false,
                    params: seq![("TargetPortalGroupTag"@, "1"@), ("AuthMethod"@, "CHAP"@)],
                    chap_state: cs,
                    chap_completed: cc,
                }
            } else if cs is None {
                ChapStep::Pass {
                    success: false,
                    params: seq![
                        ("CHAP_A"@, "5"@),
                        ("CHAP_I"@, dec_chars(fresh.identifier as nat)),
                        ("CHAP_C"@, hex_chars(fresh.challenge)),
                    ],
                    chap_state: Some(fresh),
                    chap_completed: cc,
                }
            } else {
                check_chap_answer(c, mutual, cs->0, ps)
            }
        } else {
            ChapStep::Fail
        }
    }
}

/// One step of authentication during security negotiation.  `fresh` is the
/// challenge the target sends if this step starts a CHAP exchange.
pub open spec fn chap_step(s: SessionView, ps: Pairs, fresh: ChapView) -> ChapStep {
    match s.auth_config {
        AuthView::NoAuth => ChapStep::Pass {
            success: true,
            params: if find_param(ps, "AuthMethod"@) is Some {
                seq![("AuthMethod"@, "None"@)]
            } else {
                seq![]
            },
            chap_state: s.chap_state,
            chap_completed: s.chap_completed,
        },
        AuthView::Chap { credentials } => chap_required(
            credentials,
            None,
            s.chap_state,
            s.chap_completed,
            ps,
            fresh,
        ),
        AuthView::MutualChap { target_credentials, initiator_credentials } => chap_required(
            target_credentials,
            Some(initiator_credentials),
            s.chap_state,
            s.chap_completed,
            ps,
            fresh,
        ),
    }
}

/// Whether the access list turns the initiator away.
pub open spec fn acl_denied(s: SessionView) -> bool {
    s.state == SessionState::Free && (s.allowed_initiators matches Some(list) && !list.contains(
        s.params.initiator_name,
    ))
}

/// The stage transition a login asks for, as far as the target grants it:
/// the new session and the stages and transit bit of the response.  A
/// normal session that reaches the full feature phase gets `tsih`.
pub open spec fn login_transition(s: SessionView, l: LoginRequestView, tsih: u16) -> (
    SessionView,
    u8,
    u8,
    bool,
) {
    if l.transit && l.csg == 0 && l.nsg == 1 {
        (SessionView { state: SessionState::LoginOperationalNegotiation, ..s }, l.csg, l.nsg, true)
    } else if l.transit && (l.csg == 0 || l.csg == 1) && l.nsg == 3 {
        (
            SessionView {
                state: SessionState::FullFeaturePhase,
                tsih: if s.session_type == SessionType::Normal {
                    tsih
                } else {
                    s.tsih
                },
                ..s
            },
            l.csg,
            l.nsg,
            true,
        )
    } else {
        (s, l.csg, l.nsg, false)
    }
}

/// What a discovery session echoes of one operational key.
pub open spec fn discovery_entry(s: SessionView, key: Seq<char>) -> Pairs {
    if key == "MaxRecvDataSegmentLength"@ {
        seq![
            (
                "MaxRecvDataSegmentLength"@,
                dec_chars(s.params.max_recv_data_segment_length as nat),
            ),
        ]
    } else if key == "HeaderDigest"@ {
        seq![("HeaderDigest"@, "None"@)]
    } else if key == "DataDigest"@ {
        seq![("DataDigest"@, "None"@)]
    } else {
        seq![]
    }
}

/// What a discovery session echoes of the initiator's keys, in order.
pub open spec fn discovery_params(s: SessionView, ps: Pairs) -> Pairs
    decreases ps.len(),
{
    if ps.len() == 0 {
        seq![]
    } else {
        discovery_entry(s, ps[0].0) + discovery_params(s, ps.drop_first())
    }
}

/// The pairs of a successful login response: the negotiated parameters
/// when the login enters the full feature phase, nothing before.
pub open spec fn final_login_params(s: SessionView, l: LoginRequestView, nsg: u8, transit: bool) -> Pairs {
    if transit && nsg == 3 {
        if s.session_type == SessionType::Discovery {
            discovery_params(s, l.parameters)
        } else {
            response_params(s)
        }
    } else {
        seq![]
    }
}

/// The end of a login that passed its checks and authentication: the
/// access list, the transition and the response.
pub open spec fn finish_login(s: SessionView, l: LoginRequestView, itt: u32, tsih: u16) -> (
    SessionView,
    Result<PduView, Seq<char>>,
) {
    if acl_denied(s) {
        (s, Ok(reject_view(s, itt, 2, 0x02)))
    } else {
        let (s5, csg, nsg, transit) = login_transition(s, l, tsih);
        let data = serialize_params(final_login_params(s5, l, nsg, transit));
        let s6 = with_stat_sn(s5, wrap_inc(s5.stat_sn));
        (s6, Ok(login_response_view(s6, s6.tsih, 0, 0, csg, nsg, transit, itt, data)))
    }
}

/// What a login PDU does to a session and what the target answers: the new
/// session, and the response PDU or the message of the error for a PDU
/// that is no login request.  `fresh` is the CHAP challenge the target
/// would send and `tsih` the handle it would assign.
pub open spec fn login_outcome(
    s: SessionView,
    p: PduView,
    tn: Seq<char>,
    fresh: ChapView,
    tsih: u16,
) -> (SessionView, Result<PduView, Seq<char>>) {
    if p.opcode != pdu::opcode::LOGIN_REQUEST {
        (s, Err("Expected Login Request opcode 0x03"@ + ", got 0x"@ + crate::text::hex2_chars(p.opcode)))
    } else {
        let l = login_request_of(p);
        if version_unsupported(l) {
            (s, Ok(reject_view(s, p.itt, 2, 0x05)))
        } else {
            let s2 = apply_params(first_login(s, l, tn), l.parameters);
            match login_check(s2, l, tn) {
                Some(detail) => (s2, Ok(reject_view(s2, p.itt, 2, detail))),
                None => after_checks(
                    SessionView { current_stage: l.csg, next_stage: l.nsg, ..s2 },
                    l,
                    p.itt,
                    fresh,
                    tsih,
                ),
            }
        }
    }
}

/// A login that passed its checks: authentication in the security stage,
/// then the end of the login.
pub open spec fn after_checks(s3: SessionView, l: LoginRequestView, itt: u32, fresh: ChapView, tsih: u16) -> (
    SessionView,
    Result<PduView, Seq<char>>,
) {
    if l.csg == 0 {
        match chap_step(s3, l.parameters, fresh) {
            ChapStep::Fail => (s3, Ok(reject_view(s3, itt, 2, 0x01))),
            ChapStep::Pass { success, params, chap_state, chap_completed } => {
                let s4 = SessionView { chap_state, chap_completed, ..s3 };
                if params.len() > 0 {
                    let s5 = with_stat_sn(s4, wrap_inc(s4.stat_sn));
                    (s5, Ok(login_response_view(s5, s5.tsih, 0, 0, 0, 0, false, itt, serialize_params(params))))
                } else if !success {
                    (s4, Ok(reject_view(s4, itt, 2, 0x01)))
                } else {
                    finish_login(s4, l, itt, tsih)
                }
            },
        }
    } else {
        finish_login(s3, l, itt, tsih)
    }
}

/// The result of a login matches an outcome: the same session, and the
/// same response or an `InvalidPdu` error with the same message.
pub open spec fn login_result(
    s: SessionView,
    r: ScsiResult<IscsiPdu>,
    o: (SessionView, Result<PduView, Seq<char>>),
) -> bool {
    &&& s == o.0
    &&& match o.1 {
        Ok(v) => r matches Ok(p) && p@ == v,
        Err(m) => r matches Err(IscsiError::InvalidPdu(x)) && x@ == m,
    }
}

/// The session that a login request opens before any exchange.
pub open spec fn session_from_login(l: LoginRequestView, tn: Seq<char>) -> SessionView {
    let s0 = initial_session();
    let s1 = SessionView {
        isid: l.isid,
        cid: l.cid,
        exp_cmd_sn: l.cmd_sn,
        max_cmd_sn: (l.cmd_sn + 1) as u32,
        current_stage: l.csg,
        next_stage: l.nsg,
        params: super::ParamsView { target_name: tn, ..s0.params },
        ..s0
    };
    let s2 = apply_params(s1, l.parameters);
    SessionView {
        state: if l.csg == 1 {
            SessionState::LoginOperationalNegotiation
        } else if l.csg == 3 {
            SessionState::FullFeaturePhase
        } else {
            SessionState::SecurityNegotiation
        },
        ..s2
    }
}

// ============================================================================
// Executable code
// ============================================================================

/// The value of the first pair with the given key.
fn find_value<'a>(params: &'a [(String, String)], key: &str) -> (r: Option<&'a str>)
    ensures
        match find_param(pairs_view(params@), key@) {
            Some(v) => r matches Some(x) && x@ == v,
            None => r is None,
        },
{
    let n = params.len();
    let ghost ps = pairs_view(params@);
    let mut i: usize = 0;
    assert(ps.subrange(0, n as int) =~= ps);
    while i < n
        invariant
            n == params@.len(),
            ps == pairs_view(params@),
            i <= n,
            find_param(ps.subrange(i as int, n as int), key@) == find_param(ps, key@),
        decreases n - i,
    {
        proof {
            let rest = ps.subrange(i as int, n as int);
            assert(rest.drop_first() =~= ps.subrange(i + 1, n as int));
            assert(rest[0] == (params@[i as int].0@, params@[i as int].1@));
        }
        if str_eq(params[i].0.as_str(), key) {
            return Some(params[i].1.as_str());
        }
        i = i + 1;
    }
    None
}

/// `text` without a leading "0x".
fn strip_0x_exec(text: &str) -> (r: String)
    ensures
        r@ == strip_0x(text@),
{
    let cs = chars_of(text);
    proof {
        reveal_strlit("0x");
    }
    if cs.len() >= 2 && cs[0] == '0' && cs[1] == 'x' {
        assert(text@.take(2) =~= "0x"@);
        let rest = string_from_chars(vstd::slice::slice_subrange(cs.as_slice(), 2, cs.len()));
        assert(rest@ =~= text@.skip(2));
        rest
    } else {
        assert(text@.len() >= 2 ==> text@.take(2)[0] == text@[0] && text@.take(2)[1] == text@[1]);
        string_from_chars(cs.as_slice())
    }
}

fn pair(key: &str, value: String) -> (r: (String, String))
    ensures
        r.0@ == key@,
        r.1@ == value@,
{
    (key.to_string(), value)
}

/// The number of milliseconds since the Unix epoch, modulo 2^16, with 0
/// replaced by 1.
fn tsih_from_millis(ms: u128) -> (r: u16)
    ensures
        r >= 1,
        r == (if ms % 0x1_0000 == 0 {
            1
        } else {
            ms % 0x1_0000
        }),
{
    let low = (ms % 0x1_0000) as u16;
    if low == 0 {
        1
    } else {
        low
    }
}


pub open spec fn opt_credentials(c: Option<&ChapCredentials>) -> Option<CredentialsView> {
    match c {
        Some(x) => Some(x@),
        None => None,
    }
}

/// Whether the list holds the name.
fn contains_name(list: &Vec<String>, name: &str) -> (r: bool)
    ensures
        r == names_view(list@).contains(name@),
{
    let n = list.len();
    let mut i: usize = 0;
    while i < n
        invariant
            n == list@.len(),
            i <= n,
            forall|j: int| 0 <= j < i ==> names_view(list@)[j] != name@,
        decreases n - i,
    {
        if str_eq(list[i].as_str(), name) {
            assert(names_view(list@)[i as int] == name@);
            return true;
        }
        i = i + 1;
    }
    proof {
        if names_view(list@).contains(name@) {
            let j = choose|j: int| 0 <= j < names_view(list@).len() && names_view(list@)[j] == name@;
            assert(names_view(list@)[j] != name@);
        }
    }
    false
}

/// Appends `text`, then `name`, then `tail`.
fn message(text: &str, name: &str, tail: &str) -> (r: String)
    ensures
        r@ == text@ + name@ + tail@,
{
    let mut m = text.to_string();
    m.append(name);
    m.append(tail);
    m
}

/// One step of a CHAP exchange that the configuration requires.
#[verifier::rlimit(40)]
fn chap_exchange(
    credentials: &ChapCredentials,
    mutual: Option<&ChapCredentials>,
    chap_state: &mut Option<ChapAuthState>,
    chap_completed: &mut bool,
    params: &[(String, String)],
    fresh: ChapAuthState,
) -> (r: ScsiResult<(bool, Vec<(String, String)>)>)
    ensures
        match chap_required(
            credentials@,
            opt_credentials(mutual),
            opt_chap_view(*old(chap_state)),
            *old(chap_completed),
            pairs_view(params@),
            fresh@,
        ) {
            ChapStep::Fail => (r matches Err(IscsiError::Auth(_)) && *final(chap_state) == *old(
                chap_state,
            ) && *final(chap_completed) == *old(chap_completed)),
            ChapStep::Pass { success, params: ps, chap_state: cs, chap_completed: cc } => (r matches Ok(
                (b, v),
            ) && b == success && pairs_view(v@) == ps && opt_chap_view(*final(chap_state)) == cs
                && *final(chap_completed) == cc),
        },
{
    // After a completed exchange the initiator sends an empty request to
    // make the transition.
    if *chap_completed && params.len() == 0 {
        return Ok((true, Vec::new()));
    }
    let auth_method = find_value(params, "AuthMethod");
    // Check if CHAP is in the list of methods (may be "CHAP" or "CHAP,None")
    let supports_chap = match auth_method {
        Some(m) => contains_str(m, "CHAP"),
        None => false,
    };
    let chap_a = find_value(params, "CHAP_A");
    // Only the first login PDU carries AuthMethod; later ones continue the exchange
    let chap_in_progress = chap_state.is_some() || chap_a.is_some();
    if !(supports_chap || chap_in_progress) {
        return Err(
            IscsiError::Auth(
                "AUTH_FAILURE: CHAP authentication required but initiator did not request it - set AuthMethod=CHAP".to_string(),
            ),
        );
    }
    if chap_a.is_none() && chap_state.is_none() {
        // Step 1: acknowledge CHAP; the initiator asks for the algorithm next
        let mut v: Vec<(String, String)> = Vec::new();
        v.push(pair("TargetPortalGroupTag", "1".to_string()));
        v.push(pair("AuthMethod", "CHAP".to_string()));
        proof {
            assert(pairs_view(v@) =~= seq![("TargetPortalGroupTag"@, "1"@), ("AuthMethod"@, "CHAP"@)]);
        }
        return Ok((false, v));
    }
    if chap_state.is_none() {
        // Step 2: the initiator chose the algorithm (CHAP_A=5); send the challenge
        let mut v: Vec<(String, String)> = Vec::new();
        v.push(pair("CHAP_A", "5".to_string()));
        v.push(pair("CHAP_I", fresh.identifier_str()));
        v.push(pair("CHAP_C", fresh.challenge_hex()));
        proof {
            assert(pairs_view(v@) =~= seq![
                ("CHAP_A"@, "5"@),
                ("CHAP_I"@, dec_chars(fresh@.identifier as nat)),
                ("CHAP_C"@, hex_chars(fresh@.challenge)),
            ]);
        }
        *chap_state = Some(fresh);
        return Ok((false, v));
    }
    // Step 3: check the initiator's answer to our challenge
    let chap_n = find_value(params, "CHAP_N");
    let chap_r = find_value(params, "CHAP_R");
    let (username, response_hex) = match (chap_n, chap_r) {
        (Some(n), Some(rh)) => (n, rh),
        _ => {
            return Err(
                IscsiError::Auth(
                    "AUTH_FAILURE: Missing CHAP_N (username) or CHAP_R (response) - initiator must provide credentials".to_string(),
                ),
            );
        },
    };
    if !str_eq(username, credentials.username.as_str()) {
        return Err(
            IscsiError::Auth(
                message(
                    "AUTH_FAILURE: Unknown user '",
                    username,
                    "' - check username in authentication credentials",
                ),
            ),
        );
    }
    let response = match parse_chap_response(response_hex) {
        Ok(v) => v,
        Err(e) => {
            return Err(e);
        },
    };
    let valid = match chap_state {
        Some(st) => st.validate_response(response.as_slice(), credentials.secret.as_str()),
        None => false,
    };
    if !valid {
        return Err(
            IscsiError::Auth(
                message(
                    "AUTH_FAILURE: Invalid password for user '",
                    username,
                    "' - CHAP response does not match expected value",
                ),
            ),
        );
    }
    if let Some(ic) = mutual {
        // In mutual CHAP the initiator challenges the target with CHAP_I and
        // CHAP_C; the target answers with the credentials the initiator expects.
        let target_chap_i = find_value(params, "CHAP_I");
        let target_chap_c = find_value(params, "CHAP_C");
        if let (Some(chap_i), Some(chap_c_hex)) = (target_chap_i, target_chap_c) {
            let identifier = match parse_unsigned(chap_i, 255) {
                Some(v) => v as u8,
                None => {
                    return Err(IscsiError::Auth(message("Invalid CHAP_I: ", chap_i, "")));
                },
            };
            // Remove "0x" prefix if present
            let chap_c_clean = strip_0x_exec(chap_c_hex);
            let challenge = match hex_decode(chap_c_clean.as_str()) {
                Ok(c) => c,
                Err(e) => {
                    let detail = e.to_string();
                    return Err(IscsiError::Auth(message("Invalid CHAP_C hex: ", detail.as_str(), "")));
                },
            };
            let target_response = compute_chap_response(
                identifier,
                ic.secret.as_str().as_bytes(),
                challenge.as_slice(),
            );
            let mut response_hex = "0x".to_string();
            push_hex(&mut response_hex, target_response.as_slice());
            let mut v: Vec<(String, String)> = Vec::new();
            v.push(pair("CHAP_N", ic.username.clone()));
            v.push(pair("CHAP_R", response_hex));
            proof {
                assert(pairs_view(v@) =~= seq![
                    ("CHAP_N"@, ic.username@),
                    (
                        "CHAP_R"@,
                        "0x"@ + hex_chars(
                            chap_response(identifier, encode_utf8(ic.secret@), challenge@),
                        ),
                    ),
                ]);
            }
            // The exchange is complete; the next login request carries no CHAP keys
            *chap_state = None;
            *chap_completed = true;
            return Ok((true, v));
        }
    }
    // One-way CHAP succeeded
    *chap_state = None;
    *chap_completed = true;
    Ok((true, Vec::new()))
}

impl IscsiSession {
    /// Create session from login request
    pub fn from_login_request(login: &LoginRequest, target_name: &str) -> (r: Self)
        requires
            login.cmd_sn < u32::MAX,
        ensures
            r@ == session_from_login(login@, target_name@),
    {
        let mut session = IscsiSession::new();
        session.isid = login.isid;
        session.cid = login.cid;
        session.exp_cmd_sn = login.cmd_sn;
        session.max_cmd_sn = login.cmd_sn + 1;
        session.current_stage = login.csg;
        session.next_stage = login.nsg;
        session.params.target_name = target_name.to_string();
        proof {
            let s1 = SessionView {
                isid: login.isid@,
                cid: login.cid,
                exp_cmd_sn: login.cmd_sn,
                max_cmd_sn: (login.cmd_sn + 1) as u32,
                current_stage: login.csg,
                next_stage: login.nsg,
                params: super::ParamsView { target_name: target_name@, ..initial_session().params },
                ..initial_session()
            };
            assert(session@ =~= s1);
        }
        // Parse initiator parameters
        session.apply_initiator_params(login.parameters.as_slice());
        proof {
            super::negotiation::lemma_negotiation_frame(session@, pairs_view(login.parameters@));
        }
        // Set initial state based on CSG
        session.state = match login.csg {
            0 => SessionState::SecurityNegotiation,
            1 => SessionState::LoginOperationalNegotiation,
            3 => SessionState::FullFeaturePhase,
            _ => SessionState::SecurityNegotiation,
        };
        assert(session@ =~= session_from_login(login@, target_name@));
        session
    }

    /// Create a login reject response
    fn create_login_reject(&self, itt: u32, status_class: u8, status_detail: u8) -> (r: ScsiResult<IscsiPdu>)
        ensures
            r matches Ok(p) && p@ == reject_view(self@, itt, status_class, status_detail),
    {
        Ok(
            IscsiPdu::login_response(
                self.isid,
                0,  // No TSIH for reject
                self.stat_sn,
                self.exp_cmd_sn,
                self.max_cmd_sn,
                status_class,
                status_detail,
                self.current_stage,
                self.next_stage,
                false,  // No transit on error
                itt,
                Vec::new(),
            ),
        )
    }

    /// Create a login reject for graceful shutdown - RFC 3720: SERVICE_UNAVAILABLE (0x0301)
    ///
    /// This is used when the target is gracefully shutting down and should reject new login
    /// attempts while allowing existing sessions to complete their work.
    pub fn create_shutdown_reject(&self, itt: u32) -> (r: ScsiResult<IscsiPdu>)
        ensures
            r matches Ok(p) && p@ == reject_view(self@, itt, pdu::login_status::TARGET_ERROR, 0x01),
    {
        self.create_login_reject(itt, pdu::login_status::TARGET_ERROR, 0x01)
    }

    /// Create a login reject for connection limit - RFC 3720: TOO_MANY_CONNECTIONS (0x0206)
    pub fn create_too_many_connections_reject(&self, itt: u32) -> (r: ScsiResult<IscsiPdu>)
        ensures
            r matches Ok(p) && p@ == reject_view(self@, itt, pdu::login_status::INITIATOR_ERROR, 0x06),
    {
        self.create_login_reject(itt, pdu::login_status::INITIATOR_ERROR, 0x06)
    }

    /// Create a login reject for invalid request - RFC 3720: INVALID_REQUEST_DURING_LOGIN (0x020B)
    ///
    /// This is used when an initiator sends a PDU that is not allowed during the login phase,
    /// such as a SCSI command before login completes or an invalid opcode.
    pub fn create_invalid_request_during_login_reject(&self, itt: u32) -> (r: ScsiResult<IscsiPdu>)
        ensures
            r matches Ok(p) && p@ == reject_view(self@, itt, pdu::login_status::INITIATOR_ERROR, 0x0B),
    {
        self.create_login_reject(itt, pdu::login_status::INITIATOR_ERROR, 0x0B)
    }

    /// Create a login reject for unsupported version - RFC 3720: UNSUPPORTED_VERSION (0x0205)
    ///
    /// The target supports iSCSI version 0x00 (RFC 3720).
    pub fn create_unsupported_version_reject(&self, itt: u32, version_max: u8, version_min: u8) -> (r:
        ScsiResult<IscsiPdu>)
        ensures
            r matches Ok(p) && p@ == reject_view(self@, itt, pdu::login_status::INITIATOR_ERROR, 0x05),
    {
        self.create_login_reject(itt, pdu::login_status::INITIATOR_ERROR, 0x05)
    }

    /// Create a login reject for authorization failure - RFC 3720: AUTHORIZATION_FAILURE (0x0202)
    ///
    /// This is used when authentication succeeds but the initiator is not authorized
    /// to access the target (ACL check fails).
    pub fn create_authorization_failure_reject(&self, itt: u32) -> (r: ScsiResult<IscsiPdu>)
        ensures
            r matches Ok(p) && p@ == reject_view(self@, itt, pdu::login_status::INITIATOR_ERROR, 0x02),
    {
        self.create_login_reject(itt, pdu::login_status::INITIATOR_ERROR, 0x02)
    }

    /// Create a login reject for resource exhaustion - RFC 3720: OUT_OF_RESOURCES (0x0302)
    pub fn create_out_of_resources_reject(&self, itt: u32) -> (r: ScsiResult<IscsiPdu>)
        ensures
            r matches Ok(p) && p@ == reject_view(self@, itt, pdu::login_status::TARGET_ERROR, 0x02),
    {
        self.create_login_reject(itt, pdu::login_status::TARGET_ERROR, 0x02)
    }

    /// Handle authentication during security negotiation
    /// Returns (success, response_params)
#[verifier::rlimit(40)]
    fn handle_chap_auth(&mut self, login_params: &[(String, String)], fresh: ChapAuthState) -> (r:
        ScsiResult<(bool, Vec<(String, String)>)>)
        ensures
            match chap_step(old(self)@, pairs_view(login_params@), fresh@) {
                ChapStep::Fail => (r matches Err(IscsiError::Auth(_)) && final(self)@ == old(self)@),
                ChapStep::Pass { success, params, chap_state, chap_completed } => (r matches Ok((b, v))
                    && b == success && pairs_view(v@) == params && final(self)@ == (SessionView {
                    chap_state,
                    chap_completed,
                    ..old(self)@
                })),
            },
    {
        let r = match &self.auth_config {
            AuthConfig::NoAuth => {
                // No auth required; echo AuthMethod=None only when the
                // initiator offered methods in this PDU
                if find_value(login_params, "AuthMethod").is_some() {
                    let mut v: Vec<(String, String)> = Vec::new();
                    v.push(pair("AuthMethod", "None".to_string()));
                    assert(pairs_view(v@) =~= seq![("AuthMethod"@, "None"@)]);
                    Ok((true, v))
                } else {
                    let v: Vec<(String, String)> = Vec::new();
                    assert(pairs_view(v@) =~= seq![]);
                    Ok((true, v))
                }
            },
            AuthConfig::Chap { credentials } => chap_exchange(
                credentials,
                None,
                &mut self.chap_state,
                &mut self.chap_completed,
                login_params,
                fresh,
            ),
            AuthConfig::MutualChap { target_credentials, initiator_credentials } => chap_exchange(
                target_credentials,
                Some(initiator_credentials),
                &mut self.chap_state,
                &mut self.chap_completed,
                login_params,
                fresh,
            ),
        };
        proof {
            match chap_step(old(self)@, pairs_view(login_params@), fresh@) {
                ChapStep::Fail => {
                    assert(self@ =~= old(self)@);
                },
                ChapStep::Pass { success, params, chap_state, chap_completed } => {
                    assert(self@ =~= (SessionView { chap_state, chap_completed, ..old(self)@ }));
                },
            }
        }
        r
    }

    /// The status detail of a reject for the login's keys, if any.
    fn login_check_exec(&self, login: &LoginRequest, target_name: &str) -> (r: Option<u8>)
        ensures
            r == login_check(self@, login@, target_name@),
    {
        // InitiatorName is required, but only until it has been received
        let has_initiator_name = find_value(login.parameters.as_slice(), "InitiatorName").is_some();
        if !has_initiator_name && self.params.initiator_name.as_str().is_empty() {
            return Some(0x07);  // Missing parameter
        }
        if self.session_type == SessionType::Normal {
            let requested_target = find_value(login.parameters.as_slice(), "TargetName");
            // TargetName is required for normal sessions on the first login
            // PDU, recognised by an ISID that has not been set yet
            let is_first_login = self.isid[0] == 0 && self.isid[1] == 0 && self.isid[2] == 0
                && self.isid[3] == 0 && self.isid[4] == 0 && self.isid[5] == 0;
            assert(is_first_login == (self.isid@ =~= zeros(6)));
            if requested_target.is_none() && is_first_login {
                return Some(0x07);  // Missing parameter
            }
            if let Some(req_name) = requested_target {
                if !str_eq(req_name, target_name) {
                    return Some(0x03);  // Target not found
                }
            }
        }
        // Only "Discovery" and "Normal" are supported session types
        if self.params.invalid_session_type.is_some() {
            return Some(0x09);  // Session type not supported
        }
        None
    }

    /// Whether the access list turns the initiator away.
    fn acl_denied_exec(&self) -> (r: bool)
        ensures
            r == acl_denied(self@),
    {
        if self.state != SessionState::Free {
            return false;
        }
        match &self.allowed_initiators {
            Some(allowed) => !contains_name(allowed, self.params.initiator_name.as_str()),
            None => false,
        }
    }

    /// Grants the stage transition the login asks for.
    fn login_transition_exec(&mut self, login: &LoginRequest, tsih: u16) -> (r: (u8, u8, bool))
        ensures
            (final(self)@, r.0, r.1, r.2) == login_transition(old(self)@, login@, tsih),
    {
        if login.transit && login.csg == 0 && login.nsg == 1 {
            // Security -> Login Operational Negotiation
            self.state = SessionState::LoginOperationalNegotiation;
            (login.csg, login.nsg, true)
        } else if login.transit && (login.csg == 0 || login.csg == 1) && login.nsg == 3 {
            // -> Full Feature Phase; only normal sessions get a TSIH
            self.state = SessionState::FullFeaturePhase;
            if self.session_type == SessionType::Normal {
                self.tsih = tsih;
            }
            (login.csg, login.nsg, true)
        } else {
            // Stay in the current stage
            (login.csg, login.nsg, false)
        }
    }

    /// The operational keys a discovery session echoes.
    fn discovery_response_params(&self, params: &[(String, String)]) -> (r: Vec<(String, String)>)
        ensures
            pairs_view(r@) == discovery_params(self@, pairs_view(params@)),
    {
        let n = params.len();
        let ghost ps = pairs_view(params@);
        let mut out: Vec<(String, String)> = Vec::new();
        let mut i: usize = 0;
        assert(ps.subrange(0, n as int) =~= ps);
        while i < n
            invariant
                n == params@.len(),
                ps == pairs_view(params@),
                i <= n,
                pairs_view(out@) + discovery_params(self@, ps.subrange(i as int, n as int))
                    == discovery_params(self@, ps),
            decreases n - i,
        {
            let ghost before = pairs_view(out@);
            let ghost rest = ps.subrange(i as int, n as int);
            proof {
                assert(rest.drop_first() =~= ps.subrange(i + 1, n as int));
                assert(rest[0].0 == params@[i as int].0@);
            }
            let key = params[i].0.as_str();
            if str_eq(key, "MaxRecvDataSegmentLength") {
                out.push(
                    pair(
                        "MaxRecvDataSegmentLength",
                        decimal_string(self.params.max_recv_data_segment_length as u64),
                    ),
                );
            } else if str_eq(key, "HeaderDigest") {
                out.push(pair("HeaderDigest", "None".to_string()));
            } else if str_eq(key, "DataDigest") {
                out.push(pair("DataDigest", "None".to_string()));
            }
            proof {
                assert(pairs_view(out@) =~= before + discovery_entry(self@, rest[0].0));
                assert(pairs_view(out@) + discovery_params(self@, ps.subrange(i + 1, n as int))
                    =~= before + discovery_params(self@, rest));
            }
            i = i + 1;
        }
        assert(pairs_view(out@) =~= pairs_view(out@) + discovery_params(self@, ps.subrange(n as int, n as int)));
        out
    }

    /// The end of a login that passed its checks and authentication.
#[verifier::rlimit(40)]
    fn finish_login_exec(&mut self, login: &LoginRequest, itt: u32, tsih: u16) -> (r: ScsiResult<IscsiPdu>)
        ensures
            login_result(final(self)@, r, finish_login(old(self)@, login@, itt, tsih)),
    {
        // Check ACL (Access Control List) once authentication has succeeded
        if self.acl_denied_exec() {
            return self.create_authorization_failure_reject(itt);
        }
        let (response_csg, response_nsg, response_transit) = self.login_transition_exec(login, tsih);
        let response_params = if response_transit && response_nsg == 3 {
            if self.session_type == SessionType::Discovery {
                // Discovery sessions only echo back operational parameters
                self.discovery_response_params(login.parameters.as_slice())
            } else {
                // Normal sessions get full parameter negotiation
                self.generate_response_params()
            }
        } else {
            // Intermediate response
            Vec::new()
        };
        assert(pairs_view(response_params@) =~= final_login_params(
            self@,
            login@,
            response_nsg,
            response_transit,
        ));
        let response_data = serialize_text_parameters(response_params.as_slice());
        self.stat_sn = self.stat_sn.wrapping_add(1);
        let r = IscsiPdu::login_response(
            self.isid,
            self.tsih,
            self.stat_sn,
            self.exp_cmd_sn,
            self.max_cmd_sn,
            pdu::login_status::SUCCESS,
            0,
            response_csg,
            response_nsg,
            response_transit,
            itt,
            response_data,
        );
        assert(self@ =~= finish_login(old(self)@, login@, itt, tsih).0);
        Ok(r)
    }

    /// Process a login request and generate the response, with the CHAP
    /// challenge that a new exchange sends and the TSIH that a normal
    /// session entering the full feature phase gets.
#[verifier::rlimit(40)]
    pub fn process_login_with(
        &mut self,
        pdu: &IscsiPdu,
        target_name: &str,
        fresh: ChapAuthState,
        tsih: u16,
    ) -> (r: ScsiResult<IscsiPdu>)
        requires
            !login_overflows(old(self)@, pdu@),
        ensures
            login_result(final(self)@, r, login_outcome(old(self)@, pdu@, target_name@, fresh@, tsih)),
    {
        let login = match pdu.parse_login_request() {
            Ok(l) => l,
            Err(e) => {
                return Err(e);
            },
        };
        // Check iSCSI version compatibility - RFC 3720 Section 11.12
        if TARGET_VERSION < login.version_min || TARGET_VERSION > login.version_max {
            return self.create_unsupported_version_reject(pdu.itt, login.version_max, login.version_min);
        }
        // First login - initialize session
        if self.state == SessionState::Free {
            self.isid = login.isid;
            self.cid = login.cid;
            self.exp_cmd_sn = login.cmd_sn;
            self.max_cmd_sn = login.cmd_sn + 1;
            self.params.target_name = target_name.to_string();
        }
        assert(self@ =~= first_login(old(self)@, login@, target_name@));
        // Apply parameters from this login PDU
        self.apply_initiator_params(login.parameters.as_slice());
        // Validate required parameters - RFC 3720 Section 12
        if let Some(detail) = self.login_check_exec(&login, target_name) {
            return self.create_login_reject(pdu.itt, pdu::login_status::INITIATOR_ERROR, detail);
        }
        // Update stages
        self.current_stage = login.csg;
        self.next_stage = login.nsg;
        self.authenticate_and_finish(&login, pdu.itt, fresh, tsih)
    }

    /// Authentication during security negotiation (CSG=0), before any
    /// transit request is honoured; then the end of the login.
#[verifier::rlimit(40)]
    fn authenticate_and_finish(&mut self, login: &LoginRequest, itt: u32, fresh: ChapAuthState, tsih: u16) -> (r:
        ScsiResult<IscsiPdu>)
        ensures
            login_result(final(self)@, r, after_checks(old(self)@, login@, itt, fresh@, tsih)),
    {
        if login.csg == 0 {
            match self.handle_chap_auth(login.parameters.as_slice(), fresh) {
                Err(_) => {
                    return self.create_login_reject(itt, pdu::login_status::INITIATOR_ERROR, 0x01);
                },
                Ok((auth_success, auth_params)) => {
                    if auth_params.len() > 0 {
                        // Send the CHAP keys and stay in security negotiation;
                        // the initiator asks for the transition afterwards
                        let response_data = serialize_text_parameters(auth_params.as_slice());
                        self.stat_sn = self.stat_sn.wrapping_add(1);
                        return Ok(
                            IscsiPdu::login_response(
                                self.isid,
                                self.tsih,
                                self.stat_sn,
                                self.exp_cmd_sn,
                                self.max_cmd_sn,
                                0,
                                0,
                                0,
                                0,
                                false,
                                itt,
                                response_data,
                            ),
                        );
                    }
                    if !auth_success {
                        return self.create_login_reject(itt, pdu::login_status::INITIATOR_ERROR, 0x01);
                    }
                },
            }
        }
        self.finish_login_exec(login, itt, tsih)
    }

    /// Process a login request and generate response
    ///
    /// A CHAP exchange that starts here sends a fresh random challenge; a
    /// normal session that enters the full feature phase gets a TSIH taken
    /// from the clock.  Whatever those turn out to be, the session and the
    /// response are the ones `login_outcome` gives for them.
    pub fn process_login(&mut self, pdu: &IscsiPdu, target_name: &str) -> (r: ScsiResult<IscsiPdu>)
        requires
            !login_overflows(old(self)@, pdu@),
        ensures
            exists|fresh: ChapView, tsih: u16|
                fresh.challenge.len() == 16 && !fresh.is_target_auth && tsih >= 1 && #[trigger] login_result(
                    final(self)@,
                    r,
                    login_outcome(old(self)@, pdu@, target_name@, fresh, tsih),
                ),
    {
        let fresh = ChapAuthState::new(false);
        let tsih = self.generate_tsih();
        let ghost fv = fresh@;
        let r = self.process_login_with(pdu, target_name, fresh, tsih);
        assert(login_result(self@, r, login_outcome(old(self)@, pdu@, target_name@, fv, tsih)));
        r
    }

    /// Generate a TSIH from the clock: the milliseconds since the Unix
    /// epoch modulo 2^16, never 0.
    fn generate_tsih(&self) -> (r: u16)
        ensures
            r >= 1,
    {
        let now = system_time_now();
        let ms = match since_unix_epoch(&now) {
            Ok(d) => duration_millis(&d),
            Err(_) => 0,
        };
        tsih_from_millis(ms)
    }
}


// ============================================================================
// Laws of the login phase
// ============================================================================

/// Every login request is answered with a login response to the same task.
/// A response with a nonzero status class is a reject: it does not
/// transit, carries no data, uses no StatSN and leaves the session's state
/// as it was; a successful response uses exactly one StatSN.
#[verifier::rlimit(40)]
pub proof fn lemma_login_response_shape(s: SessionView, p: PduView, tn: Seq<char>, fresh: ChapView, tsih: u16)
    requires
        p.opcode == pdu::opcode::LOGIN_REQUEST,
    ensures
        ({
            let (s2, o) = login_outcome(s, p, tn, fresh, tsih);
            &&& o is Ok
            &&& o->Ok_0.opcode == pdu::opcode::LOGIN_RESPONSE
            &&& o->Ok_0.itt == p.itt
            &&& o->Ok_0.specific[16] == 0 ==> s2.stat_sn == wrap_inc(s.stat_sn)
            &&& o->Ok_0.specific[16] != 0 ==> s2.stat_sn == s.stat_sn && !pdu::bit7(o->Ok_0.flags)
                && o->Ok_0.data.len() == 0 && s2.state == s.state
        }),
{
    let l = login_request_of(p);
    let itt = p.itt;
    if version_unsupported(l) {
        lemma_reject_fields(s, itt, 2, 0x05);
        return;
    }
    let s2a = apply_params(first_login(s, l, tn), l.parameters);
    lemma_apply_params_frame(first_login(s, l, tn), l.parameters);
    match login_check(s2a, l, tn) {
        Some(d) => {
            lemma_reject_fields(s2a, itt, 2, d);
        },
        None => {
            let s3 = SessionView { current_stage: l.csg, next_stage: l.nsg, ..s2a };
            if l.csg == 0 {
                match chap_step(s3, l.parameters, fresh) {
                    ChapStep::Fail => {
                        lemma_reject_fields(s3, itt, 2, 0x01);
                    },
                    ChapStep::Pass { success, params, chap_state, chap_completed } => {
                        let s4 = SessionView { chap_state, chap_completed, ..s3 };
                        if params.len() > 0 {
                            let s5 = with_stat_sn(s4, wrap_inc(s4.stat_sn));
                            lemma_response_fields(s5, s5.tsih, 0, 0, 0, 0, false, itt, serialize_params(params));
                        } else if !success {
                            lemma_reject_fields(s4, itt, 2, 0x01);
                        } else {
                            lemma_finish_login_shape(s4, l, itt, tsih);
                        }
                    },
                }
            } else {
                lemma_finish_login_shape(s3, l, itt, tsih);
            }
        },
    }
}

proof fn lemma_response_fields(
    s: SessionView,
    tsih: u16,
    class: u8,
    detail: u8,
    csg: u8,
    nsg: u8,
    transit: bool,
    itt: u32,
    data: Seq<u8>,
)
    ensures
        ({
            let v = login_response_view(s, tsih, class, detail, csg, nsg, transit, itt, data);
            &&& v.opcode == pdu::opcode::LOGIN_RESPONSE
            &&& v.itt == itt
            &&& v.specific[16] == class
            &&& v.data == data
            &&& pdu::bit7(v.flags) == transit
            &&& pdu::field(v.specific, 4, 4) == s.stat_sn
        }),
{
    crate::bytes::lemma_be_bytes_value(s.stat_sn as nat, 4);
    crate::bytes::lemma_be_bytes_value(s.exp_cmd_sn as nat, 4);
    crate::bytes::lemma_be_bytes_value(s.max_cmd_sn as nat, 4);
    crate::bytes::lemma_pow256_values();
    let a = pdu::put(zeros(28), 4, s.stat_sn as nat, 4);
    let b = pdu::put(a, 8, s.exp_cmd_sn as nat, 4);
    let c = pdu::put(b, 12, s.max_cmd_sn as nat, 4);
    let sp = login_response_specific(s.stat_sn, s.exp_cmd_sn, s.max_cmd_sn, class, detail);
    assert(a.subrange(4, 8) =~= crate::bytes::be_bytes(s.stat_sn as nat, 4));
    assert(b.subrange(4, 8) =~= a.subrange(4, 8));
    assert(c.subrange(4, 8) =~= b.subrange(4, 8));
    assert(sp.subrange(4, 8) =~= c.subrange(4, 8));
}

proof fn lemma_reject_fields(s: SessionView, itt: u32, class: u8, detail: u8)
    ensures
        ({
            let v = reject_view(s, itt, class, detail);
            &&& v.opcode == pdu::opcode::LOGIN_RESPONSE
            &&& v.itt == itt
            &&& v.specific[16] == class
            &&& v.data.len() == 0
            &&& !pdu::bit7(v.flags)
        }),
{
    lemma_response_fields(s, 0, class, detail, s.current_stage, s.next_stage, false, itt, seq![]);
}

proof fn lemma_finish_login_shape(s: SessionView, l: LoginRequestView, itt: u32, tsih: u16)
    ensures
        ({
            let (s2, o) = finish_login(s, l, itt, tsih);
            &&& o is Ok
            &&& o->Ok_0.opcode == pdu::opcode::LOGIN_RESPONSE
            &&& o->Ok_0.itt == itt
            &&& o->Ok_0.specific[16] == 0 ==> s2.stat_sn == wrap_inc(s.stat_sn)
            &&& o->Ok_0.specific[16] != 0 ==> s2.stat_sn == s.stat_sn && !pdu::bit7(o->Ok_0.flags)
                && o->Ok_0.data.len() == 0 && s2.state == s.state
        }),
{
    if acl_denied(s) {
        lemma_reject_fields(s, itt, 2, 0x02);
    } else {
        let (s5, csg, nsg, transit) = login_transition(s, l, tsih);
        lemma_transition_keeps_sn(s, l, tsih);
        let data = serialize_params(final_login_params(s5, l, nsg, transit));
        let s6 = with_stat_sn(s5, wrap_inc(s5.stat_sn));
        lemma_response_fields(s6, s6.tsih, 0, 0, csg, nsg, transit, itt, data);
    }
}

/// The end of a login, when the target accepts it: the transit it grants,
/// the state and TSIH it leads to, and the StatSN it takes and sends.
proof fn lemma_finish_login_stages(s: SessionView, l: LoginRequestView, itt: u32, tsih: u16)
    ensures
        ({
            let (s2, o) = finish_login(s, l, itt, tsih);
            let v = o->Ok_0;
            v.specific[16] == 0 ==> ({
                &&& s2.stat_sn == wrap_inc(s.stat_sn)
                &&& pdu::field(v.specific, 4, 4) == s2.stat_sn
                &&& s2.session_type == s.session_type
                &&& pdu::bit7(v.flags) ==> l.transit && ((l.csg == 0 && l.nsg == 1) || ((l.csg == 0 || l.csg == 1)
                    && l.nsg == 3)) && s2.state == (if l.nsg == 1 {
                    SessionState::LoginOperationalNegotiation
                } else {
                    SessionState::FullFeaturePhase
                })
                &&& !pdu::bit7(v.flags) ==> s2.state == s.state && s2.tsih == s.tsih
                &&& pdu::bit7(v.flags) && l.nsg == 3 ==> (s.session_type == SessionType::Normal ==> s2.tsih == tsih)
                    && (s.session_type == SessionType::Discovery ==> s2.tsih == s.tsih)
            })
        }),
{
    if acl_denied(s) {
        lemma_reject_fields(s, itt, 2, 0x02);
    } else {
        let (s5, csg, nsg, transit) = login_transition(s, l, tsih);
        lemma_transition_keeps_sn(s, l, tsih);
        let data = serialize_params(final_login_params(s5, l, nsg, transit));
        let s6 = with_stat_sn(s5, wrap_inc(s5.stat_sn));
        lemma_response_fields(s6, s6.tsih, 0, 0, csg, nsg, transit, itt, data);
    }
}

/// The transition changes only the state and the TSIH.
proof fn lemma_transition_keeps_sn(s: SessionView, l: LoginRequestView, tsih: u16)
    ensures
        login_transition(s, l, tsih).0.stat_sn == s.stat_sn,
        login_transition(s, l, tsih).0.session_type == s.session_type,
        login_transition(s, l, tsih).0.chap_completed == s.chap_completed,
{
}

/// Negotiation leaves the sequence numbers and the state alone.
proof fn lemma_apply_params_frame(s: SessionView, ps: Pairs)
    ensures
        apply_params(s, ps).stat_sn == s.stat_sn,
        apply_params(s, ps).state == s.state,
        apply_params(s, ps).tsih == s.tsih,
        apply_params(s, ps).auth_config == s.auth_config,
        apply_params(s, ps).chap_state == s.chap_state,
        apply_params(s, ps).chap_completed == s.chap_completed,
{
    super::negotiation::lemma_negotiation_frame(s, ps);
}

/// The target credentials of a configuration that requires CHAP.
pub open spec fn checked_credentials(a: AuthView) -> CredentialsView {
    match a {
        AuthView::Chap { credentials } => credentials,
        AuthView::MutualChap { target_credentials, .. } => target_credentials,
        AuthView::NoAuth => CredentialsView { username: seq![], secret: seq![] },
    }
}

/// The initiator proved that it knows the secret: it sent the configured
/// user name and the MD5 response to the challenge the target had sent.
pub open spec fn proves_secret(s: SessionView, ps: Pairs) -> bool {
    let c = checked_credentials(s.auth_config);
    &&& s.chap_state is Some
    &&& find_param(ps, "CHAP_N"@) == Some(c.username)
    &&& find_param(ps, "CHAP_R"@) matches Some(rh) && hex_decode_spec(encode_utf8(rh)) == Some(
        chap_response(s.chap_state->0.identifier, encode_utf8(c.secret), s.chap_state->0.challenge),
    )
}

/// With CHAP configured, a login request in the security stage completes
/// the exchange only when the initiator proves the secret; and it reaches
/// the full feature phase only once the exchange is complete.
#[verifier::rlimit(40)]
pub proof fn lemma_chap_guards_full_feature(
    s: SessionView,
    p: PduView,
    tn: Seq<char>,
    fresh: ChapView,
    tsih: u16,
)
    requires
        p.opcode == pdu::opcode::LOGIN_REQUEST,
        login_request_of(p).csg == 0,
        !(s.auth_config is NoAuth),
    ensures
        ({
            let (s2, o) = login_outcome(s, p, tn, fresh, tsih);
            let ps = login_request_of(p).parameters;
            &&& s2.chap_completed && !s.chap_completed ==> proves_secret(s, ps)
            &&& s2.state == SessionState::FullFeaturePhase && s.state != SessionState::FullFeaturePhase
                ==> s2.chap_completed
        }),
{
    let l = login_request_of(p);
    lemma_apply_params_frame(first_login(s, l, tn), l.parameters);
    let s2a = apply_params(first_login(s, l, tn), l.parameters);
    let s3 = SessionView { current_stage: l.csg, next_stage: l.nsg, ..s2a };
    if !version_unsupported(l) && login_check(s2a, l, tn) is None {
        match chap_step(s3, l.parameters, fresh) {
            ChapStep::Pass { success, params, chap_state, chap_completed } => {
                let s4 = SessionView { chap_state, chap_completed, ..s3 };
                lemma_transition_keeps_sn(s4, l, tsih);
            },
            ChapStep::Fail => {},
        }
    }
}

/// A normal session that enters the full feature phase gets the TSIH the
/// target assigns; a discovery session keeps the one it had.
#[verifier::rlimit(40)]
pub proof fn lemma_tsih_assignment(s: SessionView, p: PduView, tn: Seq<char>, fresh: ChapView, tsih: u16)
    requires
        p.opcode == pdu::opcode::LOGIN_REQUEST,
    ensures
        ({
            let (s2, o) = login_outcome(s, p, tn, fresh, tsih);
            &&& s2.state == SessionState::FullFeaturePhase && s.state != SessionState::FullFeaturePhase
                && s2.session_type == SessionType::Normal ==> s2.tsih == tsih
            &&& s2.session_type == SessionType::Discovery ==> s2.tsih == s.tsih
        }),
{
    let l = login_request_of(p);
    lemma_apply_params_frame(first_login(s, l, tn), l.parameters);
    let s2a = apply_params(first_login(s, l, tn), l.parameters);
    let s3 = SessionView { current_stage: l.csg, next_stage: l.nsg, ..s2a };
    if !version_unsupported(l) && login_check(s2a, l, tn) is None {
        if l.csg == 0 {
            match chap_step(s3, l.parameters, fresh) {
                ChapStep::Pass { success, params, chap_state, chap_completed } => {
                    let s4 = SessionView { chap_state, chap_completed, ..s3 };
                    lemma_transition_keeps_sn(s4, l, tsih);
                },
                ChapStep::Fail => {},
            }
        } else {
            lemma_transition_keeps_sn(s3, l, tsih);
        }
    }
}

/// The login stages, as one accepted login response moves a session along
/// them.  The response transits only when the initiator asked to, and only
/// from the security stage to the operational stage or from either of them
/// to the full feature phase; the session is then in the stage it moved
/// to.  Without transit the session stays in its state and keeps its TSIH.
/// A normal session that enters the full feature phase gets the TSIH that
/// the target assigns, and a discovery session keeps its own.  Every
/// accepted response takes the next StatSN and carries it.
#[verifier::rlimit(60)]
pub proof fn lemma_login_stage_transitions(s: SessionView, p: PduView, tn: Seq<char>, fresh: ChapView, tsih: u16)
    requires
        p.opcode == pdu::opcode::LOGIN_REQUEST,
    ensures
        ({
            let (s2, o) = login_outcome(s, p, tn, fresh, tsih);
            let v = o->Ok_0;
            let l = login_request_of(p);
            v.specific[16] == 0 ==> ({
                &&& s2.stat_sn == wrap_inc(s.stat_sn)
                &&& pdu::field(v.specific, 4, 4) == wrap_inc(s.stat_sn)
                &&& pdu::bit7(v.flags) ==> l.transit && ((l.csg == 0 && l.nsg == 1) || ((l.csg == 0 || l.csg == 1)
                    && l.nsg == 3)) && s2.state == (if l.nsg == 1 {
                    SessionState::LoginOperationalNegotiation
                } else {
                    SessionState::FullFeaturePhase
                })
                &&& !pdu::bit7(v.flags) ==> s2.state == s.state && s2.tsih == s.tsih
                &&& pdu::bit7(v.flags) && l.nsg == 3 ==> (s2.session_type == SessionType::Normal ==> s2.tsih == tsih)
                    && (s2.session_type == SessionType::Discovery ==> s2.tsih == s.tsih)
            })
        }),
{
    let l = login_request_of(p);
    let itt = p.itt;
    if version_unsupported(l) {
        lemma_reject_fields(s, itt, 2, 0x05);
        return;
    }
    let s2a = apply_params(first_login(s, l, tn), l.parameters);
    lemma_apply_params_frame(first_login(s, l, tn), l.parameters);
    match login_check(s2a, l, tn) {
        Some(d) => {
            lemma_reject_fields(s2a, itt, 2, d);
        },
        None => {
            let s3 = SessionView { current_stage: l.csg, next_stage: l.nsg, ..s2a };
            if l.csg == 0 {
                match chap_step(s3, l.parameters, fresh) {
                    ChapStep::Fail => {
                        lemma_reject_fields(s3, itt, 2, 0x01);
                    },
                    ChapStep::Pass { success, params, chap_state, chap_completed } => {
                        let s4 = SessionView { chap_state, chap_completed, ..s3 };
                        if params.len() > 0 {
                            let s5 = with_stat_sn(s4, wrap_inc(s4.stat_sn));
                            lemma_response_fields(s5, s5.tsih, 0, 0, 0, 0, false, itt, serialize_params(params));
                        } else if !success {
                            lemma_reject_fields(s4, itt, 2, 0x01);
                        } else {
                            lemma_finish_login_stages(s4, l, itt, tsih);
                        }
                    },
                }
            } else {
                lemma_finish_login_stages(s3, l, itt, tsih);
            }
        },
    }
}

/// The login stages as `process_login` walks them: for any session `s`, a
/// login request `p` that `process_login` answers, leaving the session `s2`
/// and the result `r`, every accepted response (status class 0) takes the
/// next StatSN and carries it; it transits only when the initiator asked
/// to, from the security stage to the operational stage or from either of
/// them to the full feature phase, and the session is then in the stage it
/// moved to; without transit the session keeps its state and its TSIH; a
/// normal session entering the full feature phase holds a nonzero TSIH and
/// a discovery session keeps its own.
pub proof fn lemma_process_login_stages(
    s: SessionView,
    p: PduView,
    tn: Seq<char>,
    s2: SessionView,
    r: ScsiResult<IscsiPdu>,
)
    requires
        p.opcode == pdu::opcode::LOGIN_REQUEST,
        exists|fresh: ChapView, tsih: u16|
            fresh.challenge.len() == 16 && !fresh.is_target_auth && tsih >= 1 && #[trigger] login_result(
                s2,
                r,
                login_outcome(s, p, tn, fresh, tsih),
            ),
    ensures
        r is Ok,
        ({
            let v = r->Ok_0@;
            let l = login_request_of(p);
            v.specific[16] == 0 ==> ({
                &&& s2.stat_sn == wrap_inc(s.stat_sn)
                &&& pdu::field(v.specific, 4, 4) == s2.stat_sn
                &&& pdu::bit7(v.flags) ==> l.transit && ((l.csg == 0 && l.nsg == 1) || ((l.csg == 0 || l.csg == 1)
                    && l.nsg == 3)) && s2.state == (if l.nsg == 1 {
                    SessionState::LoginOperationalNegotiation
                } else {
                    SessionState::FullFeaturePhase
                })
                &&& !pdu::bit7(v.flags) ==> s2.state == s.state && s2.tsih == s.tsih
                &&& pdu::bit7(v.flags) && l.nsg == 3 ==> (s2.session_type == SessionType::Normal ==> s2.tsih != 0)
                    && (s2.session_type == SessionType::Discovery ==> s2.tsih == s.tsih)
            })
        }),
{
    let (fresh, tsih) = choose|fresh: ChapView, tsih: u16|
        fresh.challenge.len() == 16 && !fresh.is_target_auth && tsih >= 1 && #[trigger] login_result(
            s2,
            r,
            login_outcome(s, p, tn, fresh, tsih),
        );
    lemma_login_response_shape(s, p, tn, fresh, tsih);
    lemma_login_stage_transitions(s, p, tn, fresh, tsih);
}

/// Pairs that do not name the initiator leave its name alone.
proof fn lemma_params_keep_initiator_name(s: SessionView, ps: Pairs)
    requires
        find_param(ps, "InitiatorName"@) is None,
    ensures
        apply_params(s, ps).params.initiator_name == s.params.initiator_name,
    decreases ps.len(),
{
    if ps.len() > 0 {
        let s1 = super::negotiation::apply_param(s, ps[0].0, ps[0].1);
        assert(s1.params.initiator_name == s.params.initiator_name);
        lemma_params_keep_initiator_name(s1, ps.drop_first());
    }
}

/// Logins the target turns away for what they are: for every session and
/// every login request, one whose lowest version is above 0 (the only
/// version the target speaks) is rejected with status class 2, detail 0x05
/// (unsupported version); one with a supported version that names no initiator, neither itself nor
/// earlier in the session, is rejected with status class 2, detail 0x07
/// (missing parameter).  A reject does not transit, carries no data and
/// leaves the session's state and StatSN as they were.
pub proof fn lemma_login_rejects(s: SessionView, p: PduView, tn: Seq<char>, fresh: ChapView, tsih: u16)
    requires
        p.opcode == pdu::opcode::LOGIN_REQUEST,
    ensures
        ({
            let (s2, o) = login_outcome(s, p, tn, fresh, tsih);
            let l = login_request_of(p);
            let rejected_with = |detail: u8|
                o matches Ok(v) && v.opcode == 0x23 && v.itt == p.itt && v.specific[16] == 2 && v.specific[17]
                    == detail && !pdu::bit7(v.flags) && v.data.len() == 0 && s2.state == s.state && s2.stat_sn
                    == s.stat_sn;
            &&& l.version_min > 0 ==> rejected_with(0x05)
            &&& l.version_min == 0 && find_param(l.parameters, "InitiatorName"@) is None
                && s.params.initiator_name.len() == 0 ==> rejected_with(0x07)
        }),
{
    let l = login_request_of(p);
    let itt = p.itt;
    if version_unsupported(l) {
        lemma_reject_fields(s, itt, 2, 0x05);
        lemma_reject_detail(s, itt, 2, 0x05);
    } else {
        let s1 = first_login(s, l, tn);
        let s2a = apply_params(s1, l.parameters);
        lemma_apply_params_frame(s1, l.parameters);
        if find_param(l.parameters, "InitiatorName"@) is None && s.params.initiator_name.len() == 0 {
            lemma_params_keep_initiator_name(s1, l.parameters);
            assert(login_check(s2a, l, tn) == Some(0x07u8));
            lemma_reject_fields(s2a, itt, 2, 0x07);
            lemma_reject_detail(s2a, itt, 2, 0x07);
        }
    }
}

proof fn lemma_reject_detail(s: SessionView, itt: u32, class: u8, detail: u8)
    ensures
        reject_view(s, itt, class, detail).specific[17] == detail,
{
}

} // verus!
