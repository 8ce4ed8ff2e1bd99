//! The initiator side: the PDUs a client sends to log in, discover targets,
//! run SCSI commands and log out, and what it makes of the target's
//! answers.  The connection itself belongs to the caller, which sends the
//! PDUs built here and hands the responses back.

use vstd::prelude::*;
use crate::bytes::zeros;
use crate::error::{IscsiError, ScsiResult};
use crate::pdu::{
    self, built_pdu, field, index_of, pairs_view, parse_text_parameters, put, serialize_params,
    serialize_text_parameters, text_params, IscsiPdu, PduView,
};
use crate::session::negotiation::Pairs;
use crate::session::wrap_inc;
use crate::text::{chars_of, hex2_chars, push_hex2, str_eq, string_from_chars};

verus! {

/// `b` followed by zero bytes up to a multiple of 4.
pub open spec fn pad4(b: Seq<u8>) -> Seq<u8> {
    b + zeros(((4 - b.len() % 4) % 4) as nat)
}

/// The keys a client offers in one phase of a normal login.  The phase is
/// given by a CSG value of the flags byte (0x00 or 0x04).
pub open spec fn login_pairs(initiator: Seq<char>, target: Seq<char>, csg: u8) -> Pairs {
    let names: Pairs = seq![("InitiatorName"@, initiator), ("TargetName"@, target)];
    if csg == pdu::flags::CSG_SECURITY_NEG {
        names + seq![("AuthMethod"@, "None"@)]
    } else if csg == pdu::flags::CSG_LOGIN_OP_NEG {
        names + seq![
            ("HeaderDigest"@, "None"@),
            ("DataDigest"@, "None"@),
            ("MaxRecvDataSegmentLength"@, "8192"@),
            ("MaxBurstLength"@, "262144"@),
            ("FirstBurstLength"@, "65536"@),
            ("DefaultTime2Wait"@, "2"@),
            ("DefaultTime2Retain"@, "20"@),
            ("MaxOutstandingR2T"@, "1"@),
            ("ImmediateData"@, "Yes"@),
            ("InitialR2TIOV"@, "0"@),
            ("DataPDUInOrder"@, "Yes"@),
            ("DataSequenceInOrder"@, "Yes"@),
            ("ErrorRecoveryLevel"@, "0"@),
            ("SessionType"@, "Normal"@),
        ]
    } else {
        names
    }
}

/// The keys a client offers in one phase of a discovery login.
pub open spec fn discovery_login_pairs(initiator: Seq<char>, csg: u8) -> Pairs {
    let names: Pairs = seq![("InitiatorName"@, initiator)];
    if csg == pdu::flags::CSG_SECURITY_NEG {
        names + seq![("AuthMethod"@, "None"@), ("SessionType"@, "Discovery"@)]
    } else if csg == pdu::flags::CSG_LOGIN_OP_NEG {
        names + seq![
            ("HeaderDigest"@, "None"@),
            ("DataDigest"@, "None"@),
            ("MaxRecvDataSegmentLength"@, "8192"@),
            ("DefaultTime2Wait"@, "2"@),
            ("DefaultTime2Retain"@, "20"@),
            ("ErrorRecoveryLevel"@, "0"@),
        ]
    } else {
        names
    }
}

/// The flags byte of a client's login request: transit, and the low two
/// bits of `csg` and `nsg` in the stage fields.
pub open spec fn client_login_flags(transit: bool, csg: u8, nsg: u8) -> u8 {
    ((if transit {
        128nat
    } else {
        0nat
    }) + (csg % 4) * 4 + nsg % 4) as u8
}

/// A client login request: immediate, with the command number as ITT.
pub open spec fn client_login_view(itt: u32, csg: u8, nsg: u8, transit: bool, ps: Pairs) -> PduView {
    built_pdu(
        pdu::opcode::LOGIN_REQUEST,
        true,
        client_login_flags(transit, csg, nsg),
        0,
        itt,
        zeros(28),
        pad4(serialize_params(ps)),
    )
}

/// What a target address names: the text before the first comma (the
/// portal group tag follows it).
pub open spec fn address_part(v: Seq<char>) -> Seq<char> {
    v.take(index_of(v, ',') as int)
}

/// The (name, address) pairs of a SendTargets answer: each TargetAddress
/// belongs to the TargetName before it; an address without a name is
/// skipped, and a name is used once.
pub open spec fn send_targets_list(ps: Pairs, current: Option<Seq<char>>) -> Pairs
    decreases ps.len(),
{
    if ps.len() == 0 {
        seq![]
    } else if ps[0].0 == "TargetName"@ {
        send_targets_list(ps.drop_first(), Some(ps[0].1))
    } else if ps[0].0 == "TargetAddress"@ {
        match current {
            Some(n) => seq![(n, address_part(ps[0].1))] + send_targets_list(ps.drop_first(), None),
            None => send_targets_list(ps.drop_first(), None),
        }
    } else {
        send_targets_list(ps.drop_first(), current)
    }
}

/// The sequence numbers and login state of a client.
pub struct ClientState {
    /// Command sequence number (also used as the ITT)
    pub cmd_sn: u32,
    /// Expected status sequence number
    pub exp_stat_sn: u32,
    /// Maximum command sequence number from the target
    pub max_cmd_sn: u32,
    /// Status sequence number
    pub stat_sn: u32,
    /// Whether the client is logged in (full feature phase)
    pub initialized: bool,
}

/// Pads a byte vector with zeros to a multiple of 4.
fn pad_to_4(v: &mut Vec<u8>)
    ensures
        final(v)@ == pad4(old(v)@),
{
    let ghost k = ((4 - old(v)@.len() % 4) % 4) as nat;
    while v.len() % 4 != 0
        invariant
            old(v)@.len() <= v@.len() <= old(v)@.len() + k,
            v@ == old(v)@ + zeros((v@.len() - old(v)@.len()) as nat),
            k == ((4 - old(v)@.len() % 4) % 4) as nat,
        decreases old(v)@.len() + k - v@.len(),
    {
        v.push(0);
        assert(v@ =~= old(v)@ + zeros((v@.len() - old(v)@.len()) as nat));
    }
    assert(v@.len() - old(v)@.len() == k);
}

fn pair(key: &str, value: &str) -> (r: (String, String))
    ensures
        r.0@ == key@,
        r.1@ == value@,
{
    (key.to_string(), value.to_string())
}

/// A login request PDU carrying the pairs.
fn login_request_pdu(itt: u32, csg: u8, nsg: u8, transit: bool, params: &Vec<(String, String)>) -> (r:
    IscsiPdu)
    ensures
        r@ == client_login_view(itt, csg, nsg, transit, pairs_view(params@)),
{
    let mut data = serialize_text_parameters(params.as_slice());
    // Pad to 4-byte boundary
    pad_to_4(&mut data);
    let mut pdu = IscsiPdu::new();
    pdu.opcode = pdu::opcode::LOGIN_REQUEST;
    pdu.immediate = true;
    pdu.flags = (if transit {
        pdu::flags::TRANSIT
    } else {
        0
    }) + (csg % 4) * 4 + nsg % 4;
    pdu.itt = itt;
    pdu.data_length = data.len() as u32;
    pdu.data = data;
    pdu
}

/// `text`, then two hexadecimal digits of each byte, as in a login error.
fn status_message(text: &str, class: u8, detail: u8) -> (r: String)
    ensures
        r@ == text@ + "0x"@ + hex2_chars(class) + ", detail=0x"@ + hex2_chars(detail),
{
    let mut m = text.to_string();
    m.append("0x");
    push_hex2(&mut m, class);
    m.append(", detail=0x");
    push_hex2(&mut m, detail);
    m
}

impl ClientState {
    /// The state of a client that has just connected.
    pub fn new() -> (r: Self)
        ensures
            r.cmd_sn == 0,
            r.exp_stat_sn == 0,
            r.max_cmd_sn == u32::MAX,
            r.stat_sn == 0,
            !r.initialized,
    {
        ClientState { cmd_sn: 0, exp_stat_sn: 0, max_cmd_sn: u32::MAX, stat_sn: 0, initialized: false }
    }

    /// The login request of one phase of a normal login.
    pub fn login_request(
        &self,
        initiator_name: &str,
        target_name: &str,
        csg: u8,
        nsg: u8,
        transit: bool,
    ) -> (r: IscsiPdu)
        ensures
            r@ == client_login_view(
                self.cmd_sn,
                csg,
                nsg,
                transit,
                login_pairs(initiator_name@, target_name@, csg),
            ),
    {
        let mut params: Vec<(String, String)> = Vec::new();
        params.push(pair("InitiatorName", initiator_name));
        params.push(pair("TargetName", target_name));
        let ghost names = pairs_view(params@);
        if csg == pdu::flags::CSG_SECURITY_NEG {
            params.push(pair("AuthMethod", "None"));
        }
        if csg == pdu::flags::CSG_LOGIN_OP_NEG {
            params.push(pair("HeaderDigest", "None"));
            params.push(pair("DataDigest", "None"));
            params.push(pair("MaxRecvDataSegmentLength", "8192"));
            params.push(pair("MaxBurstLength", "262144"));
            params.push(pair("FirstBurstLength", "65536"));
            params.push(pair("DefaultTime2Wait", "2"));
            params.push(pair("DefaultTime2Retain", "20"));
            params.push(pair("MaxOutstandingR2T", "1"));
            params.push(pair("ImmediateData", "Yes"));
            params.push(pair("InitialR2TIOV", "0"));
            params.push(pair("DataPDUInOrder", "Yes"));
            params.push(pair("DataSequenceInOrder", "Yes"));
            params.push(pair("ErrorRecoveryLevel", "0"));
            params.push(pair("SessionType", "Normal"));
        }
        assert(pairs_view(params@) =~= login_pairs(initiator_name@, target_name@, csg));
        login_request_pdu(self.cmd_sn, csg, nsg, transit, &params)
    }

    /// The login request of one phase of a discovery login.
    pub fn discovery_login_request(&self, initiator_name: &str, csg: u8, nsg: u8, transit: bool) -> (r:
        IscsiPdu)
        ensures
            r@ == client_login_view(
                self.cmd_sn,
                csg,
                nsg,
                transit,
                discovery_login_pairs(initiator_name@, csg),
            ),
    {
        let mut params: Vec<(String, String)> = Vec::new();
        params.push(pair("InitiatorName", initiator_name));
        if csg == pdu::flags::CSG_SECURITY_NEG {
            params.push(pair("AuthMethod", "None"));
            params.push(pair("SessionType", "Discovery"));
        }
        if csg == pdu::flags::CSG_LOGIN_OP_NEG {
            params.push(pair("HeaderDigest", "None"));
            params.push(pair("DataDigest", "None"));
            params.push(pair("MaxRecvDataSegmentLength", "8192"));
            params.push(pair("DefaultTime2Wait", "2"));
            params.push(pair("DefaultTime2Retain", "20"));
            params.push(pair("ErrorRecoveryLevel", "0"));
        }
        assert(pairs_view(params@) =~= discovery_login_pairs(initiator_name@, csg));
        login_request_pdu(self.cmd_sn, csg, nsg, transit, &params)
    }

    /// Checks a login response and takes the sequence numbers from it.
    ///
    /// The status class and detail are bytes 36 and 37 of the PDU (RFC 3720
    /// Section 10.13.5); StatSN and the next field are kept as the expected
    /// StatSN and the maximum CmdSN.  A successful step moves CmdSN on.
    pub fn accept_login_response(&mut self, response: &IscsiPdu, discovery: bool) -> (r: ScsiResult<()>)
        ensures
            response.opcode != pdu::opcode::LOGIN_RESPONSE ==> (r matches Err(IscsiError::InvalidPdu(m))
                && m@ == "Expected LOGIN_RESPONSE (0x23), got opcode 0x"@ + hex2_chars(response.opcode)),
            response.opcode == pdu::opcode::LOGIN_RESPONSE && response.specific@[16] != 0 ==> (r matches Err(
                IscsiError::Protocol(m),
            ) && m@ == (if discovery {
                "Discovery login failed: class="@
            } else {
                "Login failed: class="@
            }) + "0x"@ + hex2_chars(response.specific@[16]) + ", detail=0x"@ + hex2_chars(
                response.specific@[17],
            )),
            r is Err ==> *final(self) == *old(self),
            r is Ok <==> response.opcode == pdu::opcode::LOGIN_RESPONSE && response.specific@[16] == 0,
            r is Ok ==> final(self).exp_stat_sn == field(response.specific@, 4, 4) && final(self).max_cmd_sn
                == field(response.specific@, 8, 4) && final(self).cmd_sn == wrap_inc(old(self).cmd_sn)
                && final(self).stat_sn == old(self).stat_sn && final(self).initialized == old(
                self,
            ).initialized,
    {
        if response.opcode != pdu::opcode::LOGIN_RESPONSE {
            let mut m = "Expected LOGIN_RESPONSE (0x23), got opcode 0x".to_string();
            push_hex2(&mut m, response.opcode);
            return Err(IscsiError::InvalidPdu(m));
        }
        let status_class = response.specific[16];
        let status_detail = response.specific[17];
        if status_class != pdu::login_status::SUCCESS {
            let m = if discovery {
                status_message("Discovery login failed: class=", status_class, status_detail)
            } else {
                status_message("Login failed: class=", status_class, status_detail)
            };
            return Err(IscsiError::Protocol(m));
        }
        self.exp_stat_sn = crate::bytes::read_be_u32(response.specific.as_slice(), 4);
        self.max_cmd_sn = crate::bytes::read_be_u32(response.specific.as_slice(), 8);
        // Increment cmd_sn for next command
        self.cmd_sn = self.cmd_sn.wrapping_add(1);
        Ok(())
    }

    /// Marks the login as complete.
    pub fn logged_in(&mut self)
        ensures
            final(self).initialized,
            final(self).cmd_sn == old(self).cmd_sn,
            final(self).exp_stat_sn == old(self).exp_stat_sn,
            final(self).max_cmd_sn == old(self).max_cmd_sn,
            final(self).stat_sn == old(self).stat_sn,
    {
        self.initialized = true;
    }

    /// The SendTargets text request.
    pub fn send_targets_request(&self) -> (r: IscsiPdu)
        ensures
            r@ == built_pdu(
                pdu::opcode::TEXT_REQUEST,
                false,
                pdu::flags::FINAL,
                0,
                self.cmd_sn,
                put(
                    put(put(zeros(28), 0, 0xFFFF_FFFF, 4), 4, self.cmd_sn as nat, 4),
                    8,
                    self.exp_stat_sn as nat,
                    4,
                ),
                pad4(serialize_params(seq![("SendTargets"@, "All"@)])),
            ),
    {
        let mut params: Vec<(String, String)> = Vec::new();
        params.push(pair("SendTargets", "All"));
        assert(pairs_view(params@) =~= seq![("SendTargets"@, "All"@)]);
        let mut data = serialize_text_parameters(params.as_slice());
        pad_to_4(&mut data);
        let mut pdu = IscsiPdu::new();
        pdu.opcode = pdu::opcode::TEXT_REQUEST;
        pdu.flags = pdu::flags::FINAL;
        pdu.itt = self.cmd_sn;
        // TTT = 0xFFFFFFFF for new request
        pdu::put_be(&mut pdu.specific, 0, 0xFFFF_FFFF, 4);
        pdu::put_be(&mut pdu.specific, 4, self.cmd_sn as u64, 4);
        pdu::put_be(&mut pdu.specific, 8, self.exp_stat_sn as u64, 4);
        pdu.data_length = data.len() as u32;
        pdu.data = data;
        pdu
    }

    /// A SCSI command PDU for LUN 0 with the CDB and any data to write.
    ///
    /// The CDB is copied from byte 36 of the PDU on; CmdSN and ExpStatSN
    /// then take bytes 40 to 47.
    pub fn scsi_command_request(&self, cdb: &[u8], data_out: Option<&[u8]>) -> (r: ScsiResult<IscsiPdu>)
        requires
            cdb@.len() <= 12 || cdb@.len() > 16,
        ensures
            !self.initialized ==> (r matches Err(IscsiError::Session(m)) && m@
                == "Not logged in. Call login() first."@),
            self.initialized && cdb@.len() > 16 ==> (r matches Err(IscsiError::InvalidPdu(m)) && m@
                == "CDB too long: "@ + crate::text::dec_chars(cdb@.len()) + " bytes (max 16)"@),
            self.initialized && cdb@.len() <= 12 ==> (r matches Ok(p) && p@ == built_pdu(
                pdu::opcode::SCSI_COMMAND,
                false,
                0xA0u8,
                0,
                self.cmd_sn,
                put(
                    put(
                        crate::bytes::splice(
                            zeros(28).update(0, (cdb@.len() % 16) as u8).update(4, cdb@.len() as u8),
                            16,
                            cdb@,
                        ),
                        20,
                        self.cmd_sn as nat,
                        4,
                    ),
                    24,
                    self.exp_stat_sn as nat,
                    4,
                ),
                match data_out {
                    Some(d) => d@,
                    None => seq![],
                },
            )),
    {
        if !self.initialized {
            return Err(IscsiError::Session("Not logged in. Call login() first.".to_string()));
        }
        if cdb.len() > 16 {
            let mut m = "CDB too long: ".to_string();
            crate::text::push_decimal(&mut m, cdb.len() as u64);
            m.append(" bytes (max 16)");
            return Err(IscsiError::InvalidPdu(m));
        }
        let mut pdu = IscsiPdu::new();
        pdu.opcode = pdu::opcode::SCSI_COMMAND;
        pdu.flags = pdu::flags::FINAL + pdu::flags::WRITE;
        pdu.itt = self.cmd_sn;
        pdu.lun = 0;  // LUN 0
        pdu.specific[0] = (cdb.len() % 16) as u8;
        pdu.specific[4] = cdb.len() as u8;  // CDB length
        crate::bytes::copy_into(&mut pdu.specific, 16, cdb);
        if let Some(data) = data_out {
            pdu.data = vstd::slice::slice_to_vec(data);
            pdu.data_length = pdu.data.len() as u32;
        }
        pdu::put_be(&mut pdu.specific, 20, self.cmd_sn as u64, 4);
        pdu::put_be(&mut pdu.specific, 24, self.exp_stat_sn as u64, 4);
        Ok(pdu)
    }

    /// Moves CmdSN on after a command was sent.
    pub fn command_sent(&mut self)
        ensures
            final(self).cmd_sn == wrap_inc(old(self).cmd_sn),
            final(self).exp_stat_sn == old(self).exp_stat_sn,
            final(self).max_cmd_sn == old(self).max_cmd_sn,
            final(self).stat_sn == old(self).stat_sn,
            final(self).initialized == old(self).initialized,
    {
        self.cmd_sn = self.cmd_sn.wrapping_add(1);
    }

    /// The logout request.
    pub fn logout_request(&self) -> (r: IscsiPdu)
        ensures
            r@ == built_pdu(
                pdu::opcode::LOGOUT_REQUEST,
                true,
                pdu::flags::FINAL,
                0,
                self.cmd_sn,
                put(put(zeros(28), 20, self.cmd_sn as nat, 4), 24, self.exp_stat_sn as nat, 4),
                seq![],
            ),
    {
        let mut pdu = IscsiPdu::new();
        pdu.opcode = pdu::opcode::LOGOUT_REQUEST;
        pdu.immediate = true;
        pdu.flags = pdu::flags::FINAL;
        pdu.itt = self.cmd_sn;
        pdu::put_be(&mut pdu.specific, 20, self.cmd_sn as u64, 4);
        pdu::put_be(&mut pdu.specific, 24, self.exp_stat_sn as u64, 4);
        pdu
    }

    /// Marks the client as logged out.
    pub fn logged_out(&mut self)
        ensures
            !final(self).initialized,
            final(self).cmd_sn == old(self).cmd_sn,
            final(self).exp_stat_sn == old(self).exp_stat_sn,
            final(self).max_cmd_sn == old(self).max_cmd_sn,
            final(self).stat_sn == old(self).stat_sn,
    {
        self.initialized = false;
    }
}

/// The text before the first comma.
fn address_of(value: &str) -> (r: String)
    ensures
        r@ == address_part(value@),
{
    let cs = chars_of(value);
    let n = cs.len();
    let mut i: usize = 0;
    while i < n && cs[i] != ','
        invariant
            n == cs@.len(),
            cs@ == value@,
            i <= n,
            forall|j: int| 0 <= j < i ==> cs@[j] != ',',
        decreases n - i,
    {
        i = i + 1;
    }
    proof {
        pdu::lemma_index_of(value@, ',', i as int);
    }
    string_from_chars(vstd::slice::slice_subrange(cs.as_slice(), 0, i))
}

/// Parses a SendTargets answer into (target name, address) pairs.
pub fn parse_send_targets(response: &IscsiPdu) -> (r: ScsiResult<Vec<(String, String)>>)
    ensures
        response.opcode != pdu::opcode::TEXT_RESPONSE ==> (r matches Err(IscsiError::InvalidPdu(m)) && m@
            == "Expected TEXT_RESPONSE (0x24), got opcode 0x"@ + hex2_chars(response.opcode)),
        response.opcode == pdu::opcode::TEXT_RESPONSE ==> (r matches Ok(v) && pairs_view(v@)
            == send_targets_list(text_params(response.data@), None)),
{
    if response.opcode != pdu::opcode::TEXT_RESPONSE {
        let mut m = "Expected TEXT_RESPONSE (0x24), got opcode 0x".to_string();
        push_hex2(&mut m, response.opcode);
        return Err(IscsiError::InvalidPdu(m));
    }
    let params = match parse_text_parameters(response.data.as_slice()) {
        Ok(p) => p,
        Err(e) => {
            return Err(e);
        },
    };
    let ghost ps = pairs_view(params@);
    let n = params.len();
    let mut targets: Vec<(String, String)> = Vec::new();
    let mut current_target: Option<String> = None;
    let mut i: usize = 0;
    assert(ps.subrange(0, n as int) =~= ps);
    while i < n
        invariant
            n == params@.len(),
            ps == pairs_view(params@),
            ps == text_params(response.data@),
            i <= n,
            pairs_view(targets@) + send_targets_list(
                ps.subrange(i as int, n as int),
                crate::session::opt_string_view(current_target),
            ) == send_targets_list(ps, None),
        decreases n - i,
    {
        let ghost before = pairs_view(targets@);
        let ghost rest = ps.subrange(i as int, n as int);
        proof {
            assert(rest.drop_first() =~= ps.subrange(i + 1, n as int));
            assert(rest[0] == (params@[i as int].0@, params@[i as int].1@));
        }
        let key = params[i].0.as_str();
        let value = params[i].1.as_str();
        if str_eq(key, "TargetName") {
            current_target = Some(value.to_string());
        } else if str_eq(key, "TargetAddress") {
            let taken = current_target;
            current_target = None;
            match taken {
                Some(iqn) => {
                    // TargetAddress is "host:port,portal-group-tag"; keep host:port
                    let ghost name = iqn@;
                    let addr = address_of(value);
                    targets.push((iqn, addr));
                    assert(pairs_view(targets@) =~= before + seq![(name, address_part(value@))]);
                },
                None => {},
            }
        }
        i = i + 1;
    }
    Ok(targets)
}

/// Padding keeps the bytes and reaches a multiple of 4.
pub proof fn lemma_pad4(b: Seq<u8>)
    ensures
        pad4(b).len() % 4 == 0,
        pad4(b).take(b.len() as int) == b,
        pad4(b).len() < b.len() + 4,
{
    assert(pad4(b).take(b.len() as int) =~= b);
}

/// A padded list of pairs parses back to the pairs, when no key holds `=`
/// or NUL and no value holds NUL: the padding adds no parameter.
pub proof fn lemma_padded_params_parse_back(ps: Pairs)
    requires
        forall|i: int|
            0 <= i < ps.len() ==> !(#[trigger] ps[i]).0.contains('=') && !ps[i].0.contains('\0')
                && !ps[i].1.contains('\0'),
    ensures
        text_params(pad4(serialize_params(ps))) == ps,
{
    let b = serialize_params(ps);
    let k = ((4 - b.len() % 4) % 4) as nat;
    pdu::lemma_text_params_prefix(ps, zeros(k));
    pdu::lemma_text_params_zeros(k);
    assert(ps + Seq::<(Seq<char>, Seq<char>)>::empty() =~= ps);
}

} // verus!
