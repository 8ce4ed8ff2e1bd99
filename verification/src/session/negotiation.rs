//! Operational parameter negotiation (RFC 3720 Section 12): how the
//! initiator's key=value pairs change the session, and the pairs that the
//! target offers in return.

use vstd::prelude::*;
use super::{DigestType, IscsiSession, ParamsView, SessionParams, SessionType, SessionView};
use crate::pdu::pairs_view;
use crate::text::{contains_str, dec_chars, decimal_string, has_substring, parse_unsigned, parse_unsigned_spec, str_eq};

verus! {

/// A list of text parameters as mathematical values.
pub type Pairs = Seq<(Seq<char>, Seq<char>)>;

pub open spec fn min_u32(a: u32, b: u32) -> u32 {
    if a < b {
        a
    } else {
        b
    }
}

pub open spec fn min_u16(a: u16, b: u16) -> u16 {
    if a < b {
        a
    } else {
        b
    }
}

pub open spec fn max_u16(a: u16, b: u16) -> u16 {
    if a < b {
        b
    } else {
        a
    }
}

pub open spec fn min_u8(a: u8, b: u8) -> u8 {
    if a < b {
        a
    } else {
        b
    }
}

/// The digest that a HeaderDigest or DataDigest offer selects: CRC32C when
/// the offer lists it anywhere, no digest otherwise.
pub open spec fn digest_choice(value: Seq<char>) -> DigestType {
    if has_substring(value, "CRC32C"@) {
        DigestType::CRC32C
    } else {
        DigestType::NoDigest
    }
}

/// The parameters after one initiator key=value pair.
///
/// Numeric limits that the initiator offers are combined with the current
/// value as RFC 3720 prescribes (the smaller of the two, or the larger for
/// DefaultTime2Wait); a value that does not parse leaves the parameter as
/// it was.  ImmediateData is an AND of both sides, InitialR2T an OR.
pub open spec fn apply_to_params(p: ParamsView, key: Seq<char>, value: Seq<char>) -> ParamsView {
    if key == "InitiatorName"@ {
        ParamsView { initiator_name: value, ..p }
    } else if key == "InitiatorAlias"@ {
        ParamsView { initiator_alias: value, ..p }
    } else if key == "TargetName"@ {
        ParamsView { target_name: value, ..p }
    } else if key == "SessionType"@ {
        if value == "Discovery"@ || value == "Normal"@ {
            p
        } else {
            ParamsView { invalid_session_type: Some(value), ..p }
        }
    } else if key == "MaxRecvDataSegmentLength"@ {
        match parse_unsigned_spec(value, u32::MAX as nat) {
            Some(v) => ParamsView { max_xmit_data_segment_length: v as u32, ..p },
            None => p,
        }
    } else if key == "MaxBurstLength"@ {
        match parse_unsigned_spec(value, u32::MAX as nat) {
            Some(v) => ParamsView { max_burst_length: min_u32(v as u32, p.max_burst_length), ..p },
            None => p,
        }
    } else if key == "FirstBurstLength"@ {
        match parse_unsigned_spec(value, u32::MAX as nat) {
            Some(v) => ParamsView { first_burst_length: min_u32(v as u32, p.first_burst_length), ..p },
            None => p,
        }
    } else if key == "DefaultTime2Wait"@ {
        match parse_unsigned_spec(value, u16::MAX as nat) {
            Some(v) => ParamsView { default_time2wait: max_u16(v as u16, p.default_time2wait), ..p },
            None => p,
        }
    } else if key == "DefaultTime2Retain"@ {
        match parse_unsigned_spec(value, u16::MAX as nat) {
            Some(v) => ParamsView { default_time2retain: min_u16(v as u16, p.default_time2retain), ..p },
            None => p,
        }
    } else if key == "MaxOutstandingR2T"@ {
        match parse_unsigned_spec(value, u32::MAX as nat) {
            Some(v) => ParamsView { max_outstanding_r2t: min_u32(v as u32, p.max_outstanding_r2t), ..p },
            None => p,
        }
    } else if key == "DataPDUInOrder"@ {
        ParamsView { data_pdu_in_order: value == "Yes"@, ..p }
    } else if key == "DataSequenceInOrder"@ {
        ParamsView { data_sequence_in_order: value == "Yes"@, ..p }
    } else if key == "ErrorRecoveryLevel"@ {
        match parse_unsigned_spec(value, u8::MAX as nat) {
            Some(v) => ParamsView { error_recovery_level: min_u8(v as u8, p.error_recovery_level), ..p },
            None => p,
        }
    } else if key == "ImmediateData"@ {
        ParamsView { immediate_data: p.immediate_data && value == "Yes"@, ..p }
    } else if key == "InitialR2T"@ {
        ParamsView { initial_r2t: p.initial_r2t || value == "Yes"@, ..p }
    } else if key == "HeaderDigest"@ {
        ParamsView { header_digest: digest_choice(value), ..p }
    } else if key == "DataDigest"@ {
        ParamsView { data_digest: digest_choice(value), ..p }
    } else {
        p
    }
}

/// The session type after one initiator key=value pair.
pub open spec fn apply_to_type(t: SessionType, key: Seq<char>, value: Seq<char>) -> SessionType {
    if key == "SessionType"@ && value == "Discovery"@ {
        SessionType::Discovery
    } else if key == "SessionType"@ && value == "Normal"@ {
        SessionType::Normal
    } else {
        t
    }
}

/// The session after one initiator key=value pair.
pub open spec fn apply_param(s: SessionView, key: Seq<char>, value: Seq<char>) -> SessionView {
    SessionView {
        params: apply_to_params(s.params, key, value),
        session_type: apply_to_type(s.session_type, key, value),
        ..s
    }
}

/// The session after a list of pairs, applied in order.
pub open spec fn apply_params(s: SessionView, ps: Pairs) -> SessionView
    decreases ps.len(),
{
    if ps.len() == 0 {
        s
    } else {
        apply_params(apply_param(s, ps[0].0, ps[0].1), ps.drop_first())
    }
}

pub open spec fn yes_no(b: bool) -> Seq<char> {
    if b {
        "Yes"@
    } else {
        "No"@
    }
}

pub open spec fn digest_name(d: DigestType) -> Seq<char> {
    match d {
        DigestType::NoDigest => "None"@,
        DigestType::CRC32C => "CRC32C"@,
    }
}

/// The operational parameters that the target offers at the end of a
/// normal login: the alias of a normal session when it has one, then every
/// negotiated value.  SessionType and TargetName are the initiator's to
/// declare and are not echoed.
pub open spec fn response_params(s: SessionView) -> Pairs {
    let p = s.params;
    let alias: Pairs = if s.session_type == SessionType::Normal && p.target_alias.len() > 0 {
        seq![("TargetAlias"@, p.target_alias)]
    } else {
        seq![]
    };
    alias + seq![
        ("MaxRecvDataSegmentLength"@, dec_chars(p.max_recv_data_segment_length as nat)),
        ("MaxBurstLength"@, dec_chars(p.max_burst_length as nat)),
        ("FirstBurstLength"@, dec_chars(p.first_burst_length as nat)),
        ("DefaultTime2Wait"@, dec_chars(p.default_time2wait as nat)),
        ("DefaultTime2Retain"@, dec_chars(p.default_time2retain as nat)),
        ("MaxOutstandingR2T"@, dec_chars(p.max_outstanding_r2t as nat)),
        ("DataPDUInOrder"@, yes_no(p.data_pdu_in_order)),
        ("DataSequenceInOrder"@, yes_no(p.data_sequence_in_order)),
        ("ErrorRecoveryLevel"@, dec_chars(p.error_recovery_level as nat)),
        ("ImmediateData"@, yes_no(p.immediate_data)),
        ("InitialR2T"@, yes_no(p.initial_r2t)),
        ("HeaderDigest"@, digest_name(p.header_digest)),
        ("DataDigest"@, digest_name(p.data_digest)),
    ]
}

fn yes_no_string(b: bool) -> (r: String)
    ensures
        r@ == yes_no(b),
{
    if b {
        "Yes".to_string()
    } else {
        "No".to_string()
    }
}

fn digest_string(d: DigestType) -> (r: String)
    ensures
        r@ == digest_name(d),
{
    match d {
        DigestType::NoDigest => "None".to_string(),
        DigestType::CRC32C => "CRC32C".to_string(),
    }
}

fn pair(key: &str, value: String) -> (r: (String, String))
    ensures
        r.0@ == key@,
        r.1@ == value@,
{
    (key.to_string(), value)
}

/// `Some(v)` for a value that fits the type; the `u32` of a parse result.
fn parsed_u32(value: &str) -> (r: Option<u32>)
    ensures
        match parse_unsigned_spec(value@, u32::MAX as nat) {
            Some(v) => r == Some(v as u32),
            None => r is None,
        },
{
    match parse_unsigned(value, u32::MAX as u64) {
        Some(v) => Some(v as u32),
        None => None,
    }
}

fn parsed_u16(value: &str) -> (r: Option<u16>)
    ensures
        match parse_unsigned_spec(value@, u16::MAX as nat) {
            Some(v) => r == Some(v as u16),
            None => r is None,
        },
{
    match parse_unsigned(value, u16::MAX as u64) {
        Some(v) => Some(v as u16),
        None => None,
    }
}

fn parsed_u8(value: &str) -> (r: Option<u8>)
    ensures
        match parse_unsigned_spec(value@, u8::MAX as nat) {
            Some(v) => r == Some(v as u8),
            None => r is None,
        },
{
    match parse_unsigned(value, u8::MAX as u64) {
        Some(v) => Some(v as u8),
        None => None,
    }
}

/// The parameter part of one negotiation step.
#[verifier::rlimit(40)]
fn negotiate(p: &mut SessionParams, key: &str, value: &str)
    ensures
        final(p)@ == apply_to_params(old(p)@, key@, value@),
{
    if str_eq(key, "InitiatorName") {
        p.initiator_name = value.to_string();
    } else if str_eq(key, "InitiatorAlias") {
        p.initiator_alias = value.to_string();
    } else if str_eq(key, "TargetName") {
        // Initiator requests specific target
        p.target_name = value.to_string();
    } else if str_eq(key, "SessionType") {
        // RFC 3720: Only "Discovery" and "Normal" are valid
        if !str_eq(value, "Discovery") && !str_eq(value, "Normal") {
            // Store invalid session type to reject during login processing
            p.invalid_session_type = Some(value.to_string());
        }
    } else if str_eq(key, "MaxRecvDataSegmentLength") {
        if let Some(v) = parsed_u32(value) {
            // This is initiator's max recv, which is our max xmit
            p.max_xmit_data_segment_length = v;
        }
    } else if str_eq(key, "MaxBurstLength") {
        if let Some(v) = parsed_u32(value) {
            if v < p.max_burst_length {
                p.max_burst_length = v;
            }
        }
    } else if str_eq(key, "FirstBurstLength") {
        if let Some(v) = parsed_u32(value) {
            if v < p.first_burst_length {
                p.first_burst_length = v;
            }
        }
    } else if str_eq(key, "DefaultTime2Wait") {
        if let Some(v) = parsed_u16(value) {
            if p.default_time2wait < v {
                p.default_time2wait = v;
            }
        }
    } else if str_eq(key, "DefaultTime2Retain") {
        if let Some(v) = parsed_u16(value) {
            if v < p.default_time2retain {
                p.default_time2retain = v;
            }
        }
    } else if str_eq(key, "MaxOutstandingR2T") {
        if let Some(v) = parsed_u32(value) {
            if v < p.max_outstanding_r2t {
                p.max_outstanding_r2t = v;
            }
        }
    } else if str_eq(key, "DataPDUInOrder") {
        p.data_pdu_in_order = str_eq(value, "Yes");
    } else if str_eq(key, "DataSequenceInOrder") {
        p.data_sequence_in_order = str_eq(value, "Yes");
    } else if str_eq(key, "ErrorRecoveryLevel") {
        if let Some(v) = parsed_u8(value) {
            if v < p.error_recovery_level {
                p.error_recovery_level = v;
            }
        }
    } else if str_eq(key, "ImmediateData") {
        // AND operation: only true if both want it
        p.immediate_data = p.immediate_data && str_eq(value, "Yes");
    } else if str_eq(key, "InitialR2T") {
        // OR operation: true if either wants it
        p.initial_r2t = p.initial_r2t || str_eq(value, "Yes");
    } else if str_eq(key, "HeaderDigest") {
        p.header_digest = if contains_str(value, "CRC32C") {
            DigestType::CRC32C
        } else {
            DigestType::NoDigest
        };
    } else if str_eq(key, "DataDigest") {
        p.data_digest = if contains_str(value, "CRC32C") {
            DigestType::CRC32C
        } else {
            DigestType::NoDigest
        };
    }
    // Authentication parameters are handled by the CHAP exchange;
    // unknown parameters are ignored.
    assert(p@ =~= apply_to_params(old(p)@, key@, value@));
}


impl IscsiSession {
    /// Apply an initiator parameter during negotiation
    pub fn apply_initiator_param(&mut self, key: &str, value: &str)
        ensures
            final(self)@ == apply_param(old(self)@, key@, value@),
    {
        if str_eq(key, "SessionType") {
            // RFC 3720: Only "Discovery" and "Normal" are valid
            if str_eq(value, "Discovery") {
                self.session_type = SessionType::Discovery;
            } else if str_eq(value, "Normal") {
                self.session_type = SessionType::Normal;
            }
        }
        negotiate(&mut self.params, key, value);
        assert(self@ =~= apply_param(old(self)@, key@, value@));
    }

    /// Applies every pair of a list, in order.
    pub(crate) fn apply_initiator_params(&mut self, params: &[(String, String)])
        ensures
            final(self)@ == apply_params(old(self)@, pairs_view(params@)),
    {
        let n = params.len();
        let ghost ps = pairs_view(params@);
        let mut i: usize = 0;
        assert(ps.subrange(0, n as int) =~= ps);
        while i < n
            invariant
                n == params@.len(),
                ps == pairs_view(params@),
                i <= n,
                apply_params(self@, ps.subrange(i as int, n as int)) == apply_params(old(self)@, ps),
            decreases n - i,
        {
            let (k, v) = &params[i];
            proof {
                let rest = ps.subrange(i as int, n as int);
                assert(rest.drop_first() =~= ps.subrange(i + 1, n as int));
                assert(rest[0] == (k@, v@));
            }
            self.apply_initiator_param(k.as_str(), v.as_str());
            i = i + 1;
        }
        assert(ps.subrange(0, n as int) =~= ps);
    }

    /// Generate target response parameters for login
    pub fn generate_response_params(&self) -> (r: Vec<(String, String)>)
        ensures
            pairs_view(r@) == response_params(self@),
    {
        let mut params: Vec<(String, String)> = Vec::new();
        // SessionType and TargetName are declarative (initiator-only) and are not echoed back
        if self.session_type == SessionType::Normal {
            if !self.params.target_alias.as_str().is_empty() {
                params.push(pair("TargetAlias", self.params.target_alias.clone()));
            }
        }
        let ghost alias = pairs_view(params@);
        let p = &self.params;
        params.push(pair("MaxRecvDataSegmentLength", decimal_string(p.max_recv_data_segment_length as u64)));
        params.push(pair("MaxBurstLength", decimal_string(p.max_burst_length as u64)));
        params.push(pair("FirstBurstLength", decimal_string(p.first_burst_length as u64)));
        params.push(pair("DefaultTime2Wait", decimal_string(p.default_time2wait as u64)));
        params.push(pair("DefaultTime2Retain", decimal_string(p.default_time2retain as u64)));
        params.push(pair("MaxOutstandingR2T", decimal_string(p.max_outstanding_r2t as u64)));
        params.push(pair("DataPDUInOrder", yes_no_string(p.data_pdu_in_order)));
        params.push(pair("DataSequenceInOrder", yes_no_string(p.data_sequence_in_order)));
        params.push(pair("ErrorRecoveryLevel", decimal_string(p.error_recovery_level as u64)));
        params.push(pair("ImmediateData", yes_no_string(p.immediate_data)));
        params.push(pair("InitialR2T", yes_no_string(p.initial_r2t)));
        params.push(pair("HeaderDigest", digest_string(p.header_digest)));
        params.push(pair("DataDigest", digest_string(p.data_digest)));
        assert(pairs_view(params@) =~= response_params(self@));
        params
    }
}

// ============================================================================
// Laws of negotiation
// ============================================================================

/// Negotiation only ever narrows what the target agreed to: no initiator
/// pair raises MaxBurstLength, FirstBurstLength, DefaultTime2Retain,
/// MaxOutstandingR2T or ErrorRecoveryLevel, lowers DefaultTime2Wait, turns
/// ImmediateData on or turns InitialR2T off.
pub proof fn lemma_negotiation_narrows(s: SessionView, key: Seq<char>, value: Seq<char>)
    ensures
        ({
            let t = apply_param(s, key, value).params;
            &&& t.max_burst_length <= s.params.max_burst_length
            &&& t.first_burst_length <= s.params.first_burst_length
            &&& t.default_time2retain <= s.params.default_time2retain
            &&& t.max_outstanding_r2t <= s.params.max_outstanding_r2t
            &&& t.error_recovery_level <= s.params.error_recovery_level
            &&& t.default_time2wait >= s.params.default_time2wait
            &&& t.immediate_data ==> s.params.immediate_data
            &&& s.params.initial_r2t ==> t.initial_r2t
        }),
{
}

/// Offering the same pair twice has the effect of offering it once.
#[verifier::rlimit(40)]
pub proof fn lemma_negotiation_idempotent(s: SessionView, key: Seq<char>, value: Seq<char>)
    ensures
        apply_param(apply_param(s, key, value), key, value) == apply_param(s, key, value),
{
    let p1 = apply_to_params(s.params, key, value);
    if key == "InitiatorName"@ {
        assert(apply_to_params(p1, key, value) =~= p1);
    } else if key == "InitiatorAlias"@ {
        assert(apply_to_params(p1, key, value) =~= p1);
    } else if key == "TargetName"@ {
        assert(apply_to_params(p1, key, value) =~= p1);
    } else if key == "SessionType"@ {
        assert(apply_to_params(p1, key, value) =~= p1);
    } else if key == "MaxRecvDataSegmentLength"@ {
        assert(apply_to_params(p1, key, value) =~= p1);
    } else if key == "MaxBurstLength"@ {
        assert(apply_to_params(p1, key, value) =~= p1);
    } else if key == "FirstBurstLength"@ {
        assert(apply_to_params(p1, key, value) =~= p1);
    } else if key == "DefaultTime2Wait"@ {
        assert(apply_to_params(p1, key, value) =~= p1);
    } else if key == "DefaultTime2Retain"@ {
        assert(apply_to_params(p1, key, value) =~= p1);
    } else if key == "MaxOutstandingR2T"@ {
        assert(apply_to_params(p1, key, value) =~= p1);
    } else if key == "DataPDUInOrder"@ {
        assert(apply_to_params(p1, key, value) =~= p1);
    } else if key == "DataSequenceInOrder"@ {
        assert(apply_to_params(p1, key, value) =~= p1);
    } else if key == "ErrorRecoveryLevel"@ {
        assert(apply_to_params(p1, key, value) =~= p1);
    } else if key == "ImmediateData"@ {
        assert(apply_to_params(p1, key, value) =~= p1);
    } else if key == "InitialR2T"@ {
        assert(apply_to_params(p1, key, value) =~= p1);
    } else if key == "HeaderDigest"@ {
        assert(apply_to_params(p1, key, value) =~= p1);
    } else if key == "DataDigest"@ {
        assert(apply_to_params(p1, key, value) =~= p1);
    } else {
        assert(apply_to_params(p1, key, value) =~= p1);
    }
    assert(apply_param(apply_param(s, key, value), key, value) =~= apply_param(s, key, value));
}

/// A pair changes nothing but the negotiated parameters and the session
/// type: sequence numbers, login stages, authentication and pending work
/// stay as they were.
pub proof fn lemma_negotiation_frame(s: SessionView, ps: Pairs)
    ensures
        ({
            let t = apply_params(s, ps);
            &&& t.isid == s.isid && t.tsih == s.tsih && t.cid == s.cid && t.state == s.state
            &&& t.exp_cmd_sn == s.exp_cmd_sn && t.max_cmd_sn == s.max_cmd_sn && t.stat_sn == s.stat_sn
            &&& t.current_stage == s.current_stage && t.next_stage == s.next_stage
            &&& t.pending_writes == s.pending_writes && t.next_ttt == s.next_ttt
            &&& t.auth_config == s.auth_config && t.chap_state == s.chap_state
            &&& t.chap_completed == s.chap_completed && t.allowed_initiators == s.allowed_initiators
            &&& t.params.max_recv_data_segment_length == s.params.max_recv_data_segment_length
            &&& t.params.target_alias == s.params.target_alias
        }),
    decreases ps.len(),
{
    if ps.len() > 0 {
        lemma_negotiation_frame(apply_param(s, ps[0].0, ps[0].1), ps.drop_first());
    }
}

/// The initiator's MaxRecvDataSegmentLength becomes the target's send
/// limit: after a pair MaxRecvDataSegmentLength=v whose value reads as an
/// unsigned integer `n` that fits in 32 bits, the target sends data
/// segments of at most `n` bytes, exactly `n`, whatever its limit was
/// before and whether `n` is smaller or larger than it.  In particular the
/// decimal form of any 32-bit `m` sets the limit to `m`.
pub proof fn lemma_initiator_recv_limit_is_send_limit(s: SessionView, value: Seq<char>, m: u32)
    ensures
        parse_unsigned_spec(value, u32::MAX as nat) matches Some(n) ==> apply_param(
            s,
            "MaxRecvDataSegmentLength"@,
            value,
        ).params.max_xmit_data_segment_length == n,
        apply_param(s, "MaxRecvDataSegmentLength"@, dec_chars(m as nat)).params.max_xmit_data_segment_length
            == m,
{
    crate::text::lemma_dec_chars_parse(m as nat, u32::MAX as nat);
    reveal_strlit("MaxRecvDataSegmentLength");
    reveal_strlit("InitiatorName");
    reveal_strlit("InitiatorAlias");
    reveal_strlit("TargetName");
    reveal_strlit("SessionType");
    assert("MaxRecvDataSegmentLength"@.len() == 24);
    assert("InitiatorName"@.len() == 13);
    assert("InitiatorAlias"@.len() == 14);
    assert("TargetName"@.len() == 10);
    assert("SessionType"@.len() == 11);
}

/// `r` is the smaller of `a` and `b`: no larger than either, and one of them.
pub open spec fn smaller_of(r: nat, a: nat, b: nat) -> bool {
    r <= a && r <= b && (r == a || r == b)
}

/// `r` is the larger of `a` and `b`: no smaller than either, and one of them.
pub open spec fn larger_of(r: nat, a: nat, b: nat) -> bool {
    r >= a && r >= b && (r == a || r == b)
}

/// How each offer combines with what the target holds, and that it touches
/// no other parameter.  A numeric offer that reads as a number `n` makes
/// MaxBurstLength, FirstBurstLength, DefaultTime2Retain, MaxOutstandingR2T
/// and ErrorRecoveryLevel the smaller of `n` and the current value, and
/// DefaultTime2Wait the larger; MaxRecvDataSegmentLength sets the send
/// limit to `n`; an offer that does not read as a number changes nothing.
/// ImmediateData stays on only when both sides say Yes, InitialR2T is on
/// when either does, and a digest offer selects CRC32C exactly when it
/// lists it.
#[verifier::rlimit(80)]
pub proof fn lemma_negotiation_combines(s: SessionView, key: Seq<char>, value: Seq<char>)
    ensures
        ({
            let t = apply_param(s, key, value).params;
            let p = s.params;
            &&& key == "MaxBurstLength"@ ==> match parse_unsigned_spec(value, u32::MAX as nat) {
                Some(n) => smaller_of(t.max_burst_length as nat, n, p.max_burst_length as nat) && t == (ParamsView { max_burst_length: t.max_burst_length, ..p }),
                None => t == p,
            }
            &&& key == "FirstBurstLength"@ ==> match parse_unsigned_spec(value, u32::MAX as nat) {
                Some(n) => smaller_of(t.first_burst_length as nat, n, p.first_burst_length as nat) && t == (ParamsView { first_burst_length: t.first_burst_length, ..p }),
                None => t == p,
            }
            &&& key == "DefaultTime2Wait"@ ==> match parse_unsigned_spec(value, u16::MAX as nat) {
                Some(n) => larger_of(t.default_time2wait as nat, n, p.default_time2wait as nat) && t == (ParamsView { default_time2wait: t.default_time2wait, ..p }),
                None => t == p,
            }
            &&& key == "DefaultTime2Retain"@ ==> match parse_unsigned_spec(value, u16::MAX as nat) {
                Some(n) => smaller_of(t.default_time2retain as nat, n, p.default_time2retain as nat) && t == (ParamsView { default_time2retain: t.default_time2retain, ..p }),
                None => t == p,
            }
            &&& key == "MaxOutstandingR2T"@ ==> match parse_unsigned_spec(value, u32::MAX as nat) {
                Some(n) => smaller_of(t.max_outstanding_r2t as nat, n, p.max_outstanding_r2t as nat) && t == (ParamsView { max_outstanding_r2t: t.max_outstanding_r2t, ..p }),
                None => t == p,
            }
            &&& key == "ErrorRecoveryLevel"@ ==> match parse_unsigned_spec(value, u8::MAX as nat) {
                Some(n) => smaller_of(t.error_recovery_level as nat, n, p.error_recovery_level as nat) && t == (ParamsView { error_recovery_level: t.error_recovery_level, ..p }),
                None => t == p,
            }
            &&& key == "MaxRecvDataSegmentLength"@ ==> match parse_unsigned_spec(value, u32::MAX as nat) {
                Some(n) => t == (ParamsView { max_xmit_data_segment_length: n as u32, ..p }),
                None => t == p,
            }
            &&& key == "ImmediateData"@ ==> (t.immediate_data <==> p.immediate_data && value == "Yes"@) && t
                == (ParamsView { immediate_data: t.immediate_data, ..p })
            &&& key == "InitialR2T"@ ==> (t.initial_r2t <==> p.initial_r2t || value == "Yes"@) && t == (
            ParamsView { initial_r2t: t.initial_r2t, ..p })
            &&& key == "HeaderDigest"@ ==> (t.header_digest == DigestType::CRC32C <==> has_substring(
                value,
                "CRC32C"@,
            )) && t == (ParamsView { header_digest: t.header_digest, ..p })
            &&& key == "DataDigest"@ ==> (t.data_digest == DigestType::CRC32C <==> has_substring(
                value,
                "CRC32C"@,
            )) && t == (ParamsView { data_digest: t.data_digest, ..p })
        }),
{
    reveal_strlit("InitiatorName");
    reveal_strlit("InitiatorAlias");
    reveal_strlit("TargetName");
    reveal_strlit("SessionType");
    reveal_strlit("MaxRecvDataSegmentLength");
    reveal_strlit("MaxBurstLength");
    reveal_strlit("FirstBurstLength");
    reveal_strlit("DefaultTime2Wait");
    reveal_strlit("DefaultTime2Retain");
    reveal_strlit("MaxOutstandingR2T");
    reveal_strlit("DataPDUInOrder");
    reveal_strlit("DataSequenceInOrder");
    reveal_strlit("ErrorRecoveryLevel");
    reveal_strlit("ImmediateData");
    reveal_strlit("InitialR2T");
    reveal_strlit("HeaderDigest");
    reveal_strlit("DataDigest");
    assert("InitiatorName"@.len() == 13);
    assert("InitiatorAlias"@.len() == 14);
    assert("TargetName"@.len() == 10);
    assert("SessionType"@.len() == 11);
    assert("MaxRecvDataSegmentLength"@.len() == 24);
    assert("MaxBurstLength"@.len() == 14);
    assert("FirstBurstLength"@.len() == 16);
    assert("DefaultTime2Wait"@.len() == 16);
    assert("DefaultTime2Retain"@.len() == 18);
    assert("MaxOutstandingR2T"@.len() == 17);
    assert("DataPDUInOrder"@.len() == 14);
    assert("DataSequenceInOrder"@.len() == 19);
    assert("ErrorRecoveryLevel"@.len() == 18);
    assert("ImmediateData"@.len() == 13);
    assert("InitialR2T"@.len() == 10);
    assert("HeaderDigest"@.len() == 12);
    assert("DataDigest"@.len() == 10);
    assert("InitiatorName"@[0] == 'I' && "InitiatorName"@[1] == 'n');
    assert("InitiatorAlias"@[0] == 'I' && "InitiatorAlias"@[1] == 'n');
    assert("TargetName"@[0] == 'T' && "TargetName"@[1] == 'a');
    assert("SessionType"@[0] == 'S' && "SessionType"@[1] == 'e');
    assert("MaxRecvDataSegmentLength"@[0] == 'M' && "MaxRecvDataSegmentLength"@[1] == 'a');
    assert("MaxBurstLength"@[0] == 'M' && "MaxBurstLength"@[1] == 'a');
    assert("FirstBurstLength"@[0] == 'F' && "FirstBurstLength"@[1] == 'i');
    assert("DefaultTime2Wait"@[0] == 'D' && "DefaultTime2Wait"@[1] == 'e');
    assert("DefaultTime2Retain"@[0] == 'D' && "DefaultTime2Retain"@[1] == 'e');
    assert("MaxOutstandingR2T"@[0] == 'M' && "MaxOutstandingR2T"@[1] == 'a');
    assert("DataPDUInOrder"@[0] == 'D' && "DataPDUInOrder"@[1] == 'a');
    assert("DataSequenceInOrder"@[0] == 'D' && "DataSequenceInOrder"@[1] == 'a');
    assert("ErrorRecoveryLevel"@[0] == 'E' && "ErrorRecoveryLevel"@[1] == 'r');
    assert("ImmediateData"@[0] == 'I' && "ImmediateData"@[1] == 'm');
    assert("InitialR2T"@[0] == 'I' && "InitialR2T"@[1] == 'n');
    assert("HeaderDigest"@[0] == 'H' && "HeaderDigest"@[1] == 'e');
    assert("DataDigest"@[0] == 'D' && "DataDigest"@[1] == 'a');
}

} // verus!
