//! iSCSI PDU (Protocol Data Unit) parsing and serialization
//!
//! This module handles the binary protocol format for iSCSI PDUs
//! based on RFC 3720.

pub mod flags;
pub mod login_status;
pub mod logout_reason;
pub mod logout_response;
pub mod opcode;
pub mod scsi_status;

use vstd::prelude::*;
use crate::bytes::{
    lemma_be_bytes_suffix, splice, be_bytes, be_value, copy_into, extend_bytes, lemma_be_bytes_value, lemma_be_value_bound,
    lemma_be_value_bytes, lemma_pow256_values, read_be, read_be_u16, read_be_u32, write_be, zeros,
};
use crate::error::{IscsiError, ScsiResult};
use crate::text::{
    hex2_chars, push_hex2, chars_of, dec_chars, from_utf8_lossy, lemma_encode_utf8_concat, lemma_encode_utf8_no_zero,
    lossy_text, push_decimal, string_from_chars,
};
use vstd::utf8::{decode_utf8, encode_utf8};

verus! {

/// BHS (Basic Header Segment) size in bytes
pub const BHS_SIZE: usize = 48;

/// Basic Header Segment (BHS) - 48 bytes, followed by the data segment
/// padded to a 4-byte boundary.
#[derive(Debug, Clone)]
pub struct IscsiPdu {
    /// Opcode identifies the PDU type (lower 6 bits of byte 0)
    pub opcode: u8,
    /// Immediate flag (bit 6 of byte 0)
    pub immediate: bool,
    /// Opcode-specific flags (byte 1)
    pub flags: u8,
    /// Bytes 2-3: version fields of login PDUs, reserved or opcode-specific otherwise
    pub version_or_reserved: u16,
    /// Total AHS (Additional Header Segment) length (4-byte units)
    pub ahs_length: u8,
    /// Data segment length (bytes)
    pub data_length: u32,
    /// Logical Unit Number (bytes 8-15)
    pub lun: u64,
    /// Initiator Task Tag (bytes 16-19)
    pub itt: u32,
    /// Opcode-specific fields (bytes 20-47, 28 bytes)
    pub specific: [u8; 28],
    /// Data segment (variable length)
    pub data: Vec<u8>,
}

/// The fields of a PDU as mathematical values.
pub struct PduView {
    pub opcode: u8,
    pub immediate: bool,
    pub flags: u8,
    pub version_or_reserved: u16,
    pub ahs_length: u8,
    pub data_length: u32,
    pub lun: u64,
    pub itt: u32,
    pub specific: Seq<u8>,
    pub data: Seq<u8>,
}

impl View for IscsiPdu {
    type V = PduView;

    open spec fn view(&self) -> PduView {
        PduView {
            opcode: self.opcode,
            immediate: self.immediate,
            flags: self.flags,
            version_or_reserved: self.version_or_reserved,
            ahs_length: self.ahs_length,
            data_length: self.data_length,
            lun: self.lun,
            itt: self.itt,
            specific: self.specific@,
            data: self.data@,
        }
    }
}

/// `n` rounded up to a multiple of 4.
pub open spec fn padded_len(n: nat) -> nat {
    ((n + 3) / 4) * 4
}

/// Byte 0 of the BHS: the immediate bit and the low six bits of the opcode.
pub open spec fn byte0(immediate: bool, opcode: u8) -> u8 {
    ((if immediate {
        64nat
    } else {
        0nat
    }) + opcode % 64) as u8
}

/// The wire encoding of a PDU: the 48-byte BHS, the data segment, and zero
/// bytes up to the length that the AHS length and the padded data length
/// give.  The data segment length field holds the low 24 bits of the
/// length of the data.
pub open spec fn encode_pdu(v: PduView) -> Seq<u8> {
    let n = v.data.len();
    seq![byte0(v.immediate, v.opcode), v.flags] + be_bytes(v.version_or_reserved as nat, 2) + seq![
        v.ahs_length,
    ] + be_bytes(n, 3) + be_bytes(v.lun as nat, 8) + be_bytes(v.itt as nat, 4) + v.specific + v.data
        + zeros((4 * v.ahs_length + padded_len(n) - n) as nat)
}

/// The length of the data segment that a BHS announces.
pub open spec fn announced_data_len(b: Seq<u8>) -> nat {
    be_value(b.subrange(5, 8))
}

/// The number of bytes that the frame starting with this BHS occupies.
pub open spec fn frame_len(b: Seq<u8>) -> nat {
    (48 + 4 * b[4] + padded_len(announced_data_len(b))) as nat
}

/// Whether `b` holds a whole frame.
pub open spec fn holds_frame(b: Seq<u8>) -> bool {
    b.len() >= 48 && b.len() >= frame_len(b)
}

/// The PDU that a whole frame decodes to; the AHS is skipped.
pub open spec fn decode_pdu(b: Seq<u8>) -> PduView {
    let dl = announced_data_len(b);
    let start = 48 + 4 * b[4];
    PduView {
        opcode: b[0] % 64,
        immediate: (b[0] / 64) % 2 == 1,
        flags: b[1],
        version_or_reserved: be_value(b.subrange(2, 4)) as u16,
        ahs_length: b[4],
        data_length: dl as u32,
        lun: be_value(b.subrange(8, 16)) as u64,
        itt: be_value(b.subrange(16, 20)) as u32,
        specific: b.subrange(20, 48),
        data: b.subrange(start, start + dl),
    }
}

pub open spec fn too_short_message(len: nat) -> Seq<char> {
    "PDU too short: "@ + dec_chars(len) + " bytes, need at least 48"@
}

pub open spec fn incomplete_message(b: Seq<u8>) -> Seq<char> {
    "PDU incomplete: "@ + dec_chars(b.len()) + " bytes, need "@ + dec_chars(frame_len(b))
        + " (BHS=48, AHS="@ + dec_chars(4 * b[4] as nat) + ", data="@ + dec_chars(
        padded_len(announced_data_len(b)),
    ) + ")"@
}

/// The number of bytes of the frame that a PDU encodes to.
pub open spec fn pdu_total_length(v: PduView) -> nat {
    (48 + 4 * v.ahs_length + padded_len(v.data.len())) as nat
}

impl Default for IscsiPdu {
    fn default() -> (r: Self)
        ensures
            r@ == empty_pdu(),
    {
        Self::new()
    }
}

/// The PDU with every field zero and no data.
pub open spec fn empty_pdu() -> PduView {
    PduView {
        opcode: 0,
        immediate: false,
        flags: 0,
        version_or_reserved: 0,
        ahs_length: 0,
        data_length: 0,
        lun: 0,
        itt: 0,
        specific: zeros(28),
        data: seq![],
    }
}

/// `(n + 3) / 4 * 4` for a length below 2^24.
fn padded_len_exec(n: usize) -> (r: usize)
    requires
        n < 0x100_0000,
    ensures
        r == padded_len(n as nat),
{
    (n + 3) / 4 * 4
}

impl IscsiPdu {
    /// Create a new empty PDU
    pub fn new() -> (r: Self)
        ensures
            r@ == empty_pdu(),
    {
        let r = IscsiPdu {
            opcode: 0,
            immediate: false,
            flags: 0,
            version_or_reserved: 0,
            ahs_length: 0,
            data_length: 0,
            lun: 0,
            itt: 0,
            specific: [0u8; 28],
            data: Vec::new(),
        };
        assert(r.specific@ =~= zeros(28));
        r
    }

    /// Parse a PDU from bytes
    ///
    /// The input buffer must contain at least the 48-byte BHS.
    /// If the PDU has data, the buffer must also contain the data segment.
    pub fn from_bytes(buf: &[u8]) -> (r: ScsiResult<Self>)
        ensures
            r is Ok <==> holds_frame(buf@),
            r matches Ok(p) ==> p@ == decode_pdu(buf@),
            buf@.len() < 48 ==> (r matches Err(IscsiError::InvalidPdu(m)) && m@
                == too_short_message(buf@.len())),
            buf@.len() >= 48 && buf@.len() < frame_len(buf@) ==> (r matches Err(
                IscsiError::InvalidPdu(m),
            ) && m@ == incomplete_message(buf@)),
    {
        let len = buf.len();
        if len < BHS_SIZE {
            let mut m = "PDU too short: ".to_string();
            push_decimal(&mut m, len as u64);
            m.append(" bytes, need at least 48");
            return Err(IscsiError::InvalidPdu(m));
        }
        let byte0 = buf[0];
        let immediate = (byte0 / 64) % 2 == 1;
        let opcode = byte0 % 64;
        let flags = buf[1];
        let version_or_reserved = read_be_u16(buf, 2);
        let ahs_length = buf[4];
        let data_length = read_be(buf, 5, 3) as u32;
        let lun = read_be(buf, 8, 8);
        let itt = read_be_u32(buf, 16);
        let mut specific = [0u8; 28];
        copy_into(&mut specific, 0, vstd::slice::slice_subrange(buf, 20, 48));
        proof {
            lemma_be_value_bound(buf@.subrange(5, 8));
            lemma_pow256_values();
            assert(specific@ =~= buf@.subrange(20, 48));
        }
        let ahs_bytes = ahs_length as usize * 4;
        let padded = padded_len_exec(data_length as usize);
        let total_len = BHS_SIZE + ahs_bytes + padded;
        if len < total_len {
            let mut m = "PDU incomplete: ".to_string();
            push_decimal(&mut m, len as u64);
            m.append(" bytes, need ");
            push_decimal(&mut m, total_len as u64);
            m.append(" (BHS=48, AHS=");
            push_decimal(&mut m, ahs_bytes as u64);
            m.append(", data=");
            push_decimal(&mut m, padded as u64);
            m.append(")");
            return Err(IscsiError::InvalidPdu(m));
        }
        let data_start = BHS_SIZE + ahs_bytes;
        let data = vstd::slice::slice_to_vec(
            vstd::slice::slice_subrange(buf, data_start, data_start + data_length as usize),
        );
        Ok(IscsiPdu {
            opcode,
            immediate,
            flags,
            version_or_reserved,
            ahs_length,
            data_length,
            lun,
            itt,
            specific,
            data,
        })
    }

    /// Serialize PDU to bytes
    pub fn to_bytes(&self) -> (r: Vec<u8>)
        ensures
            r@ == encode_pdu(self@),
    {
        let mut buf: Vec<u8> = Vec::new();
        let b0: u8 = (if self.immediate {
            64u8
        } else {
            0u8
        }) + self.opcode % 64;
        buf.push(b0);
        buf.push(self.flags);
        let mut v = write_be(self.version_or_reserved as u64, 2);
        buf.append(&mut v);
        buf.push(self.ahs_length);
        let data_len = self.data.len();
        let mut v = write_be((data_len % 0x100_0000) as u64, 3);
        proof {
            lemma_be_bytes_value(data_len as nat, 3);
            lemma_be_bytes_value((data_len % 0x100_0000) as nat, 3);
            lemma_pow256_values();
            lemma_be_value_bytes(be_bytes(data_len as nat, 3));
            lemma_be_value_bytes(be_bytes((data_len % 0x100_0000) as nat, 3));
        }
        buf.append(&mut v);
        let mut v = write_be(self.lun, 8);
        buf.append(&mut v);
        let mut v = write_be(self.itt as u64, 4);
        buf.append(&mut v);
        extend_bytes(&mut buf, self.specific.as_slice());
        extend_bytes(&mut buf, self.data.as_slice());
        let ghost body = buf@;
        let pad = (4 - data_len % 4) % 4;
        let mut i: usize = 0;
        while i < pad
            invariant
                pad < 4,
                i <= pad,
                buf@ == body + zeros(i as nat),
            decreases pad - i,
        {
            buf.push(0);
            i = i + 1;
            assert(buf@ =~= body + zeros(i as nat));
        }
        let ahs_bytes = self.ahs_length as usize * 4;
        let ghost body2 = buf@;
        let mut j: usize = 0;
        while j < ahs_bytes
            invariant
                ahs_bytes <= 1020,
                j <= ahs_bytes,
                buf@ == body2 + zeros(j as nat),
            decreases ahs_bytes - j,
        {
            buf.push(0);
            j = j + 1;
            assert(buf@ =~= body2 + zeros(j as nat));
        }
        proof {
            let n = data_len as nat;
            assert(padded_len(n) - n == pad) by (nonlinear_arith)
                requires
                    pad == (4 - n % 4) % 4,
            ;
            assert(buf@ =~= encode_pdu(self@));
        }
        buf
    }

    /// Get the total PDU length including headers and padded data
    pub fn total_length(&self) -> (r: usize)
        requires
            pdu_total_length(self@) <= usize::MAX,
        ensures
            r == pdu_total_length(self@),
    {
        let ahs_bytes = self.ahs_length as usize * 4;
        let n = self.data.len();
        assert((n + 3) / 4 * 4 <= n + 3) by (nonlinear_arith);
        let padded_data_len = n / 4 * 4 + if n % 4 == 0 {
            0
        } else {
            4
        };
        assert(padded_data_len == padded_len(n as nat)) by (nonlinear_arith)
            requires
                padded_data_len == n / 4 * 4 + if n % 4 == 0 {
                    0int
                } else {
                    4int
                },
        ;
        BHS_SIZE + ahs_bytes + padded_data_len
    }
}

pub open spec fn opcode_name_spec(op: u8) -> Seq<char> {
    if op == opcode::NOP_OUT {
        "NOP-Out"@
    } else if op == opcode::SCSI_COMMAND {
        "SCSI Command"@
    } else if op == opcode::TASK_MANAGEMENT_REQUEST {
        "Task Management Request"@
    } else if op == opcode::LOGIN_REQUEST {
        "Login Request"@
    } else if op == opcode::TEXT_REQUEST {
        "Text Request"@
    } else if op == opcode::SCSI_DATA_OUT {
        "SCSI Data-Out"@
    } else if op == opcode::LOGOUT_REQUEST {
        "Logout Request"@
    } else if op == opcode::SNACK_REQUEST {
        "SNACK Request"@
    } else if op == opcode::NOP_IN {
        "NOP-In"@
    } else if op == opcode::SCSI_RESPONSE {
        "SCSI Response"@
    } else if op == opcode::TASK_MANAGEMENT_RESPONSE {
        "Task Management Response"@
    } else if op == opcode::LOGIN_RESPONSE {
        "Login Response"@
    } else if op == opcode::TEXT_RESPONSE {
        "Text Response"@
    } else if op == opcode::SCSI_DATA_IN {
        "SCSI Data-In"@
    } else if op == opcode::LOGOUT_RESPONSE {
        "Logout Response"@
    } else if op == opcode::R2T {
        "Ready To Transfer"@
    } else if op == opcode::ASYNC_MESSAGE {
        "Async Message"@
    } else if op == opcode::REJECT {
        "Reject"@
    } else {
        "Unknown"@
    }
}

/// Bit 7 of a flags byte.
pub open spec fn bit7(f: u8) -> bool {
    f >= 128
}

/// Bit 6 of a flags byte.
pub open spec fn bit6(f: u8) -> bool {
    (f / 64) % 2 == 1
}

/// Bit 5 of a flags byte.
pub open spec fn bit5(f: u8) -> bool {
    (f / 32) % 2 == 1
}

/// The flags of a login PDU: Transit, the current stage in bits 2-3 and
/// the next stage in bits 0-1.
pub open spec fn login_flags(transit: bool, csg: u8, nsg: u8) -> u8 {
    ((if transit {
        128nat
    } else {
        0nat
    }) + (csg % 4) * 4 + nsg % 4) as u8
}

/// The LUN field of a login PDU: the ISID followed by the TSIH.
pub open spec fn isid_tsih_lun(isid: Seq<u8>, tsih: u16) -> u64 {
    be_value(isid + be_bytes(tsih as nat, 2)) as u64
}

/// `base` with the `n`-byte big-endian value `x` written at `off`.
pub open spec fn put(base: Seq<u8>, off: int, x: nat, n: nat) -> Seq<u8> {
    splice(base, off, be_bytes(x, n))
}

/// `base` with the byte `x` written at `off`.
pub open spec fn put_byte(base: Seq<u8>, off: int, x: u8) -> Seq<u8> {
    base.update(off, x)
}

/// The big-endian value of `n` bytes of `s` from `off` on.
pub open spec fn field(s: Seq<u8>, off: int, n: int) -> nat {
    be_value(s.subrange(off, off + n))
}

pub open spec fn login_request_specific(cid: u16, cmd_sn: u32, exp_stat_sn: u32) -> Seq<u8> {
    put(put(put(zeros(28), 0, cid as nat, 2), 4, cmd_sn as nat, 4), 8, exp_stat_sn as nat, 4)
}

/// Opcode-specific bytes that carry StatSN, ExpCmdSN and MaxCmdSN at 4, 8 and 12.
pub open spec fn sn_specific(base: Seq<u8>, stat_sn: u32, exp_cmd_sn: u32, max_cmd_sn: u32) -> Seq<u8> {
    put(put(put(base, 4, stat_sn as nat, 4), 8, exp_cmd_sn as nat, 4), 12, max_cmd_sn as nat, 4)
}

/// The sequence numbers land at bytes 4..16 and every other byte of the
/// 28 stays as it was.
pub proof fn lemma_sn_specific_fields(base: Seq<u8>, stat_sn: u32, exp_cmd_sn: u32, max_cmd_sn: u32)
    requires
        base.len() == 28,
    ensures
        ({
            let sp = sn_specific(base, stat_sn, exp_cmd_sn, max_cmd_sn);
            &&& sp.len() == 28
            &&& field(sp, 4, 4) == stat_sn
            &&& field(sp, 8, 4) == exp_cmd_sn
            &&& field(sp, 12, 4) == max_cmd_sn
            &&& sp.subrange(0, 4) == base.subrange(0, 4)
            &&& sp.subrange(16, 28) == base.subrange(16, 28)
        }),
{
    lemma_be_bytes_value(stat_sn as nat, 4);
    lemma_be_bytes_value(exp_cmd_sn as nat, 4);
    lemma_be_bytes_value(max_cmd_sn as nat, 4);
    lemma_pow256_values();
    let a = put(base, 4, stat_sn as nat, 4);
    let b = put(a, 8, exp_cmd_sn as nat, 4);
    let c = put(b, 12, max_cmd_sn as nat, 4);
    assert(a.subrange(4, 8) =~= be_bytes(stat_sn as nat, 4));
    assert(b.subrange(4, 8) =~= a.subrange(4, 8));
    assert(c.subrange(4, 8) =~= b.subrange(4, 8));
    assert(b.subrange(8, 12) =~= be_bytes(exp_cmd_sn as nat, 4));
    assert(c.subrange(8, 12) =~= b.subrange(8, 12));
    assert(c.subrange(12, 16) =~= be_bytes(max_cmd_sn as nat, 4));
    assert(c.subrange(0, 4) =~= base.subrange(0, 4));
    assert(c.subrange(16, 28) =~= base.subrange(16, 28));
}

pub open spec fn login_response_specific(
    stat_sn: u32,
    exp_cmd_sn: u32,
    max_cmd_sn: u32,
    status_class: u8,
    status_detail: u8,
) -> Seq<u8> {
    put_byte(
        put_byte(sn_specific(zeros(28), stat_sn, exp_cmd_sn, max_cmd_sn), 16, status_class),
        17,
        status_detail,
    )
}

pub open spec fn scsi_response_specific(
    stat_sn: u32,
    exp_cmd_sn: u32,
    max_cmd_sn: u32,
    status: u8,
    response: u8,
    residual_count: u32,
) -> Seq<u8> {
    put(
        sn_specific(put_byte(put_byte(zeros(28), 0, response), 1, status), stat_sn, exp_cmd_sn, max_cmd_sn),
        20,
        residual_count as nat,
        4,
    )
}

pub open spec fn data_in_specific(
    ttt: u32,
    stat_sn: u32,
    exp_cmd_sn: u32,
    max_cmd_sn: u32,
    data_sn: u32,
    buffer_offset: u32,
    status: Option<u8>,
) -> Seq<u8> {
    let base = put(
        put(sn_specific(put(zeros(28), 0, ttt as nat, 4), stat_sn, exp_cmd_sn, max_cmd_sn), 16, data_sn as nat, 4),
        20,
        buffer_offset as nat,
        4,
    );
    match status {
        Some(st) => put_byte(base, 27, st),
        None => base,
    }
}

pub open spec fn ttt_sn_specific(ttt: u32, stat_sn: u32, exp_cmd_sn: u32, max_cmd_sn: u32) -> Seq<u8> {
    sn_specific(put(zeros(28), 0, ttt as nat, 4), stat_sn, exp_cmd_sn, max_cmd_sn)
}

pub open spec fn logout_response_specific(
    stat_sn: u32,
    exp_cmd_sn: u32,
    max_cmd_sn: u32,
    response: u8,
    time2wait: u16,
    time2retain: u16,
) -> Seq<u8> {
    put(
        put(sn_specific(put_byte(zeros(28), 0, response), stat_sn, exp_cmd_sn, max_cmd_sn), 20, time2wait as nat, 2),
        22,
        time2retain as nat,
        2,
    )
}

/// A PDU built from parts, with no AHS and the data length taken from the data.
pub open spec fn built_pdu(
    op: u8,
    immediate: bool,
    flags: u8,
    lun: u64,
    itt: u32,
    specific: Seq<u8>,
    data: Seq<u8>,
) -> PduView {
    PduView {
        opcode: op,
        immediate,
        flags,
        version_or_reserved: 0,
        ahs_length: 0,
        data_length: data.len() as u32,
        lun,
        itt,
        specific,
        data,
    }
}

/// Writes the `n`-byte big-endian value `x` at `off`.
pub(crate) fn put_be(a: &mut [u8; 28], off: usize, x: u64, n: usize)
    requires
        n <= 8,
        off + n <= 28,
    ensures
        final(a)@ == put(old(a)@, off as int, x as nat, n as nat),
{
    let v = write_be(x, n);
    proof {
        lemma_be_bytes_value(x as nat, n as nat);
    }
    copy_into(a, off, v.as_slice());
}

/// The LUN field that carries the ISID and TSIH.
fn isid_tsih_to_lun(isid: [u8; 6], tsih: u16) -> (r: u64)
    ensures
        r == isid_tsih_lun(isid@, tsih),
{
    let mut v: Vec<u8> = Vec::new();
    extend_bytes(&mut v, isid.as_slice());
    let mut t = write_be(tsih as u64, 2);
    proof {
        lemma_be_bytes_value(tsih as nat, 2);
    }
    v.append(&mut t);
    assert(v@.subrange(0, 8) =~= isid@ + be_bytes(tsih as nat, 2));
    read_be(v.as_slice(), 0, 8)
}

/// The error for a PDU of another opcode than the parser expects.
fn wrong_opcode(expected: &str, got: u8) -> (r: IscsiError)
    ensures
        r matches IscsiError::InvalidPdu(m) && m@ == expected@ + ", got 0x"@ + hex2_chars(got),
{
    let mut m = expected.to_string();
    m.append(", got 0x");
    push_hex2(&mut m, got);
    IscsiError::InvalidPdu(m)
}

/// A copy of a byte vector.
fn copy_bytes(v: &Vec<u8>) -> (r: Vec<u8>)
    ensures
        r@ == v@,
{
    vstd::slice::slice_to_vec(v.as_slice())
}

impl IscsiPdu {
    /// Get the opcode name for debugging
    pub fn opcode_name(&self) -> (r: &'static str)
        ensures
            r@ == opcode_name_spec(self.opcode),
    {
        match self.opcode {
            opcode::NOP_OUT => "NOP-Out",
            opcode::SCSI_COMMAND => "SCSI Command",
            opcode::TASK_MANAGEMENT_REQUEST => "Task Management Request",
            opcode::LOGIN_REQUEST => "Login Request",
            opcode::TEXT_REQUEST => "Text Request",
            opcode::SCSI_DATA_OUT => "SCSI Data-Out",
            opcode::LOGOUT_REQUEST => "Logout Request",
            opcode::SNACK_REQUEST => "SNACK Request",
            opcode::NOP_IN => "NOP-In",
            opcode::SCSI_RESPONSE => "SCSI Response",
            opcode::TASK_MANAGEMENT_RESPONSE => "Task Management Response",
            opcode::LOGIN_RESPONSE => "Login Response",
            opcode::TEXT_RESPONSE => "Text Response",
            opcode::SCSI_DATA_IN => "SCSI Data-In",
            opcode::LOGOUT_RESPONSE => "Logout Response",
            opcode::R2T => "Ready To Transfer",
            opcode::ASYNC_MESSAGE => "Async Message",
            opcode::REJECT => "Reject",
            _ => "Unknown",
        }
    }

    /// Create a Login Request PDU
    pub fn login_request(
        isid: [u8; 6],
        tsih: u16,
        cid: u16,
        cmd_sn: u32,
        exp_stat_sn: u32,
        csg: u8,
        nsg: u8,
        transit: bool,
        data: Vec<u8>,
    ) -> (r: Self)
        ensures
            r@ == built_pdu(
                opcode::LOGIN_REQUEST,
                true,
                login_flags(transit, csg, nsg),
                isid_tsih_lun(isid@, tsih),
                0,
                login_request_specific(cid, cmd_sn, exp_stat_sn),
                data@,
            ),
    {
        let mut pdu = IscsiPdu::new();
        pdu.opcode = opcode::LOGIN_REQUEST;
        pdu.immediate = true;
        pdu.flags = (if transit {
            flags::TRANSIT
        } else {
            0
        }) + (csg % 4) * 4 + nsg % 4;
        pdu.lun = isid_tsih_to_lun(isid, tsih);
        put_be(&mut pdu.specific, 0, cid as u64, 2);
        put_be(&mut pdu.specific, 4, cmd_sn as u64, 4);
        put_be(&mut pdu.specific, 8, exp_stat_sn as u64, 4);
        pdu.data_length = data.len() as u32;
        pdu.data = data;
        pdu
    }

    /// Parse Login Request fields
    pub fn parse_login_request(&self) -> (r: ScsiResult<LoginRequest>)
        ensures
            self.opcode != opcode::LOGIN_REQUEST ==> (r matches Err(IscsiError::InvalidPdu(m)) && m@
                == "Expected Login Request opcode 0x03"@ + ", got 0x"@ + hex2_chars(self.opcode)),
            self.opcode == opcode::LOGIN_REQUEST ==> (r matches Ok(l) && l@ == login_request_of(
                self@,
            )),
    {
        if self.opcode != opcode::LOGIN_REQUEST {
            return Err(wrong_opcode("Expected Login Request opcode 0x03", self.opcode));
        }
        let lun_bytes = write_be(self.lun, 8);
        proof {
            lemma_be_bytes_value(self.lun as nat, 8);
        }
        let mut isid = [0u8; 6];
        copy_into(&mut isid, 0, vstd::slice::slice_subrange(lun_bytes.as_slice(), 0, 6));
        assert(isid@ =~= be_bytes(self.lun as nat, 8).subrange(0, 6));
        let tsih = read_be_u16(lun_bytes.as_slice(), 6);
        proof {
            lemma_be_bytes_suffix(self.lun as nat, 8, 2);
            lemma_be_bytes_value(self.lun as nat, 2);
            lemma_pow256_values();
        }
        let transit = self.flags >= 128;
        let cont = (self.flags / 64) % 2 == 1;
        let csg = (self.flags / 4) % 4;
        let nsg = self.flags % 4;
        let cid = read_be_u16(self.specific.as_slice(), 0);
        let cmd_sn = read_be_u32(self.specific.as_slice(), 4);
        let exp_stat_sn = read_be_u32(self.specific.as_slice(), 8);
        let parameters = match parse_text_parameters(self.data.as_slice()) {
            Ok(p) => p,
            Err(e) => {
                return Err(e);
            },
        };
        let r = LoginRequest {
            isid,
            tsih,
            cid,
            cmd_sn,
            exp_stat_sn,
            transit,
            cont,
            csg,
            nsg,
            version_max: (self.version_or_reserved / 256) as u8,
            version_min: (self.version_or_reserved % 256) as u8,
            parameters,
        };
        assert(r@ =~= login_request_of(self@));
        Ok(r)
    }

    /// Create a Login Response PDU
    pub fn login_response(
        isid: [u8; 6],
        tsih: u16,
        stat_sn: u32,
        exp_cmd_sn: u32,
        max_cmd_sn: u32,
        status_class: u8,
        status_detail: u8,
        csg: u8,
        nsg: u8,
        transit: bool,
        itt: u32,
        data: Vec<u8>,
    ) -> (r: Self)
        ensures
            r@ == built_pdu(
                opcode::LOGIN_RESPONSE,
                false,
                login_flags(transit, csg, nsg),
                isid_tsih_lun(isid@, tsih),
                itt,
                login_response_specific(stat_sn, exp_cmd_sn, max_cmd_sn, status_class, status_detail),
                data@,
            ),
    {
        let mut pdu = IscsiPdu::new();
        pdu.opcode = opcode::LOGIN_RESPONSE;
        pdu.flags = (if transit {
            flags::TRANSIT
        } else {
            0
        }) + (csg % 4) * 4 + nsg % 4;
        pdu.lun = isid_tsih_to_lun(isid, tsih);
        pdu.itt = itt;
        put_be(&mut pdu.specific, 4, stat_sn as u64, 4);
        put_be(&mut pdu.specific, 8, exp_cmd_sn as u64, 4);
        put_be(&mut pdu.specific, 12, max_cmd_sn as u64, 4);
        pdu.specific[16] = status_class;
        pdu.specific[17] = status_detail;
        pdu.data_length = data.len() as u32;
        pdu.data = data;
        pdu
    }

    /// Parse SCSI Command PDU
    pub fn parse_scsi_command(&self) -> (r: ScsiResult<ScsiCommandPdu>)
        ensures
            self.opcode != opcode::SCSI_COMMAND ==> (r matches Err(IscsiError::InvalidPdu(m)) && m@
                == "Expected SCSI Command opcode 0x01"@ + ", got 0x"@ + hex2_chars(self.opcode)),
            self.opcode == opcode::SCSI_COMMAND ==> (r matches Ok(c) && c.lun == self.lun && c.itt
                == self.itt && c.expected_data_length == field(self.specific@, 0, 4) && c.cdb@
                == self.specific@.subrange(12, 28) && c.read == bit6(self.flags) && c.write == bit5(
                self.flags,
            ) && c.final_flag == bit7(self.flags)),
    {
        if self.opcode != opcode::SCSI_COMMAND {
            return Err(wrong_opcode("Expected SCSI Command opcode 0x01", self.opcode));
        }
        let read = (self.flags / 64) % 2 == 1;
        let write = (self.flags / 32) % 2 == 1;
        let final_flag = self.flags >= 128;
        let expected_data_length = read_be_u32(self.specific.as_slice(), 0);
        let mut cdb = [0u8; 16];
        copy_into(&mut cdb, 0, vstd::slice::slice_subrange(self.specific.as_slice(), 12, 28));
        assert(cdb@ =~= self.specific@.subrange(12, 28));
        Ok(ScsiCommandPdu {
            lun: self.lun,
            itt: self.itt,
            expected_data_length,
            cdb,
            read,
            write,
            final_flag,
        })
    }

    /// Create a SCSI Response PDU
    pub fn scsi_response(
        itt: u32,
        stat_sn: u32,
        exp_cmd_sn: u32,
        max_cmd_sn: u32,
        status: u8,
        response: u8,
        residual_count: u32,
        sense_data: Option<&[u8]>,
    ) -> (r: Self)
        ensures
            r@ == built_pdu(
                opcode::SCSI_RESPONSE,
                false,
                flags::FINAL,
                0,
                itt,
                scsi_response_specific(stat_sn, exp_cmd_sn, max_cmd_sn, status, response, residual_count),
                match sense_data {
                    Some(s) => s@,
                    None => seq![],
                },
            ),
    {
        let mut pdu = IscsiPdu::new();
        pdu.opcode = opcode::SCSI_RESPONSE;
        pdu.flags = flags::FINAL;
        pdu.itt = itt;
        pdu.specific[0] = response;
        pdu.specific[1] = status;
        put_be(&mut pdu.specific, 4, stat_sn as u64, 4);
        put_be(&mut pdu.specific, 8, exp_cmd_sn as u64, 4);
        put_be(&mut pdu.specific, 12, max_cmd_sn as u64, 4);
        put_be(&mut pdu.specific, 20, residual_count as u64, 4);
        if let Some(sense) = sense_data {
            pdu.data = vstd::slice::slice_to_vec(sense);
            pdu.data_length = pdu.data.len() as u32;
        }
        pdu
    }

    /// Create a SCSI Data-In PDU (data from target to initiator)
    pub fn scsi_data_in(
        itt: u32,
        ttt: u32,
        stat_sn: u32,
        exp_cmd_sn: u32,
        max_cmd_sn: u32,
        data_sn: u32,
        buffer_offset: u32,
        data: Vec<u8>,
        final_flag: bool,
        status: Option<u8>,
    ) -> (r: Self)
        ensures
            r@ == built_pdu(
                opcode::SCSI_DATA_IN,
                false,
                ((if final_flag {
                    128nat
                } else {
                    0nat
                }) + if status is Some {
                    1nat
                } else {
                    0nat
                }) as u8,
                0,
                itt,
                data_in_specific(ttt, stat_sn, exp_cmd_sn, max_cmd_sn, data_sn, buffer_offset, status),
                data@,
            ),
    {
        let mut pdu = IscsiPdu::new();
        pdu.opcode = opcode::SCSI_DATA_IN;
        let mut flags_byte = 0u8;
        if final_flag {
            flags_byte = flags_byte + flags::FINAL;
        }
        if status.is_some() {
            flags_byte = flags_byte + 0x01;
        }
        pdu.flags = flags_byte;
        pdu.itt = itt;
        put_be(&mut pdu.specific, 0, ttt as u64, 4);
        put_be(&mut pdu.specific, 4, stat_sn as u64, 4);
        put_be(&mut pdu.specific, 8, exp_cmd_sn as u64, 4);
        put_be(&mut pdu.specific, 12, max_cmd_sn as u64, 4);
        put_be(&mut pdu.specific, 16, data_sn as u64, 4);
        put_be(&mut pdu.specific, 20, buffer_offset as u64, 4);
        if let Some(s) = status {
            pdu.specific[27] = s;
        }
        pdu.data_length = data.len() as u32;
        pdu.data = data;
        pdu
    }

    /// Parse SCSI Data-Out PDU (data from initiator to target)
    pub fn parse_scsi_data_out(&self) -> (r: ScsiResult<ScsiDataOutPdu>)
        ensures
            self.opcode != opcode::SCSI_DATA_OUT ==> (r matches Err(IscsiError::InvalidPdu(m)) && m@
                == "Expected SCSI Data-Out opcode 0x05"@ + ", got 0x"@ + hex2_chars(self.opcode)),
            self.opcode == opcode::SCSI_DATA_OUT ==> (r matches Ok(d) && d.lun == self.lun && d.itt
                == self.itt && d.ttt == field(self.specific@, 0, 4) && d.exp_stat_sn == field(
                self.specific@,
                4,
                4,
            ) && d.data_sn == field(self.specific@, 16, 4) && d.buffer_offset == field(
                self.specific@,
                20,
                4,
            ) && d.data@ == self.data@ && d.final_flag == bit7(self.flags)),
    {
        if self.opcode != opcode::SCSI_DATA_OUT {
            return Err(wrong_opcode("Expected SCSI Data-Out opcode 0x05", self.opcode));
        }
        let final_flag = self.flags >= 128;
        let ttt = read_be_u32(self.specific.as_slice(), 0);
        let exp_stat_sn = read_be_u32(self.specific.as_slice(), 4);
        let data_sn = read_be_u32(self.specific.as_slice(), 16);
        let buffer_offset = read_be_u32(self.specific.as_slice(), 20);
        Ok(ScsiDataOutPdu {
            lun: self.lun,
            itt: self.itt,
            ttt,
            exp_stat_sn,
            data_sn,
            buffer_offset,
            data: copy_bytes(&self.data),
            final_flag,
        })
    }

    /// Create a NOP-In PDU (target to initiator, usually response to NOP-Out)
    pub fn nop_in(itt: u32, ttt: u32, stat_sn: u32, exp_cmd_sn: u32, max_cmd_sn: u32, lun: u64) -> (r:
        Self)
        ensures
            r@ == built_pdu(
                opcode::NOP_IN,
                false,
                flags::FINAL,
                lun,
                itt,
                ttt_sn_specific(ttt, stat_sn, exp_cmd_sn, max_cmd_sn),
                seq![],
            ),
    {
        let mut pdu = IscsiPdu::new();
        pdu.opcode = opcode::NOP_IN;
        pdu.flags = flags::FINAL;
        pdu.lun = lun;
        pdu.itt = itt;
        put_be(&mut pdu.specific, 0, ttt as u64, 4);
        put_be(&mut pdu.specific, 4, stat_sn as u64, 4);
        put_be(&mut pdu.specific, 8, exp_cmd_sn as u64, 4);
        put_be(&mut pdu.specific, 12, max_cmd_sn as u64, 4);
        pdu
    }

    /// Parse NOP-Out PDU
    pub fn parse_nop_out(&self) -> (r: ScsiResult<NopOutPdu>)
        ensures
            self.opcode != opcode::NOP_OUT ==> (r matches Err(IscsiError::InvalidPdu(m)) && m@
                == "Expected NOP-Out opcode 0x00"@ + ", got 0x"@ + hex2_chars(self.opcode)),
            self.opcode == opcode::NOP_OUT ==> (r matches Ok(n) && n.lun == self.lun && n.itt
                == self.itt && n.ttt == field(self.specific@, 0, 4) && n.cmd_sn == field(
                self.specific@,
                4,
                4,
            ) && n.exp_stat_sn == field(self.specific@, 8, 4) && n.data@ == self.data@),
    {
        if self.opcode != opcode::NOP_OUT {
            return Err(wrong_opcode("Expected NOP-Out opcode 0x00", self.opcode));
        }
        let ttt = read_be_u32(self.specific.as_slice(), 0);
        let cmd_sn = read_be_u32(self.specific.as_slice(), 4);
        let exp_stat_sn = read_be_u32(self.specific.as_slice(), 8);
        Ok(NopOutPdu {
            lun: self.lun,
            itt: self.itt,
            ttt,
            cmd_sn,
            exp_stat_sn,
            data: copy_bytes(&self.data),
        })
    }

    /// Parse Logout Request
    pub fn parse_logout_request(&self) -> (r: ScsiResult<LogoutRequest>)
        ensures
            self.opcode != opcode::LOGOUT_REQUEST ==> (r matches Err(IscsiError::InvalidPdu(m)) && m@
                == "Expected Logout Request opcode 0x06"@ + ", got 0x"@ + hex2_chars(self.opcode)),
            self.opcode == opcode::LOGOUT_REQUEST ==> (r matches Ok(l) && l.itt == self.itt && l.reason
                == self.flags % 128 && l.cid == field(self.specific@, 0, 2) && l.cmd_sn == field(
                self.specific@,
                4,
                4,
            ) && l.exp_stat_sn == field(self.specific@, 8, 4)),
    {
        if self.opcode != opcode::LOGOUT_REQUEST {
            return Err(wrong_opcode("Expected Logout Request opcode 0x06", self.opcode));
        }
        let reason = self.flags % 128;
        let cid = read_be_u16(self.specific.as_slice(), 0);
        let cmd_sn = read_be_u32(self.specific.as_slice(), 4);
        let exp_stat_sn = read_be_u32(self.specific.as_slice(), 8);
        Ok(LogoutRequest { itt: self.itt, reason, cid, cmd_sn, exp_stat_sn })
    }

    /// Create a Logout Response PDU
    pub fn logout_response(
        itt: u32,
        stat_sn: u32,
        exp_cmd_sn: u32,
        max_cmd_sn: u32,
        response: u8,
        time2wait: u16,
        time2retain: u16,
    ) -> (r: Self)
        ensures
            r@ == built_pdu(
                opcode::LOGOUT_RESPONSE,
                false,
                flags::FINAL,
                0,
                itt,
                logout_response_specific(stat_sn, exp_cmd_sn, max_cmd_sn, response, time2wait, time2retain),
                seq![],
            ),
    {
        let mut pdu = IscsiPdu::new();
        pdu.opcode = opcode::LOGOUT_RESPONSE;
        pdu.flags = flags::FINAL;
        pdu.itt = itt;
        pdu.specific[0] = response;
        put_be(&mut pdu.specific, 4, stat_sn as u64, 4);
        put_be(&mut pdu.specific, 8, exp_cmd_sn as u64, 4);
        put_be(&mut pdu.specific, 12, max_cmd_sn as u64, 4);
        put_be(&mut pdu.specific, 20, time2wait as u64, 2);
        put_be(&mut pdu.specific, 22, time2retain as u64, 2);
        pdu
    }

    /// Parse Text Request
    pub fn parse_text_request(&self) -> (r: ScsiResult<TextRequest>)
        ensures
            self.opcode != opcode::TEXT_REQUEST ==> (r matches Err(IscsiError::InvalidPdu(m)) && m@
                == "Expected Text Request opcode 0x04"@ + ", got 0x"@ + hex2_chars(self.opcode)),
            self.opcode == opcode::TEXT_REQUEST ==> (r matches Ok(t) && t.itt == self.itt && t.ttt
                == field(self.specific@, 0, 4) && t.cmd_sn == field(self.specific@, 4, 4)
                && t.exp_stat_sn == field(self.specific@, 8, 4) && t.final_flag == bit7(self.flags)
                && t.cont == bit6(self.flags) && pairs_view(t.parameters@) == text_params(self.data@)),
    {
        if self.opcode != opcode::TEXT_REQUEST {
            return Err(wrong_opcode("Expected Text Request opcode 0x04", self.opcode));
        }
        let final_flag = self.flags >= 128;
        let cont = (self.flags / 64) % 2 == 1;
        let ttt = read_be_u32(self.specific.as_slice(), 0);
        let cmd_sn = read_be_u32(self.specific.as_slice(), 4);
        let exp_stat_sn = read_be_u32(self.specific.as_slice(), 8);
        let parameters = match parse_text_parameters(self.data.as_slice()) {
            Ok(p) => p,
            Err(e) => {
                return Err(e);
            },
        };
        Ok(TextRequest { itt: self.itt, ttt, cmd_sn, exp_stat_sn, final_flag, cont, parameters })
    }

    /// Create a Text Response PDU
    pub fn text_response(
        itt: u32,
        ttt: u32,
        stat_sn: u32,
        exp_cmd_sn: u32,
        max_cmd_sn: u32,
        final_flag: bool,
        data: Vec<u8>,
    ) -> (r: Self)
        ensures
            r@ == built_pdu(
                opcode::TEXT_RESPONSE,
                false,
                if final_flag {
                    flags::FINAL
                } else {
                    0
                },
                0,
                itt,
                ttt_sn_specific(ttt, stat_sn, exp_cmd_sn, max_cmd_sn),
                data@,
            ),
    {
        let mut pdu = IscsiPdu::new();
        pdu.opcode = opcode::TEXT_RESPONSE;
        pdu.flags = if final_flag {
            flags::FINAL
        } else {
            0
        };
        pdu.itt = itt;
        put_be(&mut pdu.specific, 0, ttt as u64, 4);
        put_be(&mut pdu.specific, 4, stat_sn as u64, 4);
        put_be(&mut pdu.specific, 8, exp_cmd_sn as u64, 4);
        put_be(&mut pdu.specific, 12, max_cmd_sn as u64, 4);
        pdu.data_length = data.len() as u32;
        pdu.data = data;
        pdu
    }
}

/// Parsed Login Request
#[derive(Debug, Clone)]
pub struct LoginRequest {
    pub isid: [u8; 6],
    pub tsih: u16,
    pub cid: u16,
    pub cmd_sn: u32,
    pub exp_stat_sn: u32,
    pub transit: bool,
    pub cont: bool,
    pub csg: u8,
    pub nsg: u8,
    /// Highest iSCSI version the initiator supports (byte 2)
    pub version_max: u8,
    /// Lowest iSCSI version the initiator supports (byte 3)
    pub version_min: u8,
    pub parameters: Vec<(String, String)>,
}

/// The fields of a login request as mathematical values.
pub struct LoginRequestView {
    pub isid: Seq<u8>,
    pub tsih: u16,
    pub cid: u16,
    pub cmd_sn: u32,
    pub exp_stat_sn: u32,
    pub transit: bool,
    pub cont: bool,
    pub csg: u8,
    pub nsg: u8,
    pub version_max: u8,
    pub version_min: u8,
    pub parameters: Seq<(Seq<char>, Seq<char>)>,
}

impl View for LoginRequest {
    type V = LoginRequestView;

    open spec fn view(&self) -> LoginRequestView {
        LoginRequestView {
            isid: self.isid@,
            tsih: self.tsih,
            cid: self.cid,
            cmd_sn: self.cmd_sn,
            exp_stat_sn: self.exp_stat_sn,
            transit: self.transit,
            cont: self.cont,
            csg: self.csg,
            nsg: self.nsg,
            version_max: self.version_max,
            version_min: self.version_min,
            parameters: pairs_view(self.parameters@),
        }
    }
}

/// The login request that a login PDU carries.
pub open spec fn login_request_of(p: PduView) -> LoginRequestView {
    LoginRequestView {
        isid: be_bytes(p.lun as nat, 8).subrange(0, 6),
        tsih: (p.lun % 0x1_0000) as u16,
        cid: field(p.specific, 0, 2) as u16,
        cmd_sn: field(p.specific, 4, 4) as u32,
        exp_stat_sn: field(p.specific, 8, 4) as u32,
        transit: bit7(p.flags),
        cont: bit6(p.flags),
        csg: (p.flags / 4) % 4,
        nsg: p.flags % 4,
        version_max: (p.version_or_reserved / 256) as u8,
        version_min: (p.version_or_reserved % 256) as u8,
        parameters: text_params(p.data),
    }
}

/// Parsed SCSI Command
#[derive(Debug, Clone)]
pub struct ScsiCommandPdu {
    pub lun: u64,
    pub itt: u32,
    pub expected_data_length: u32,
    pub cdb: [u8; 16],
    pub read: bool,
    pub write: bool,
    pub final_flag: bool,
}

/// Parsed SCSI Data-Out
#[derive(Debug, Clone)]
pub struct ScsiDataOutPdu {
    pub lun: u64,
    pub itt: u32,
    pub ttt: u32,
    pub exp_stat_sn: u32,
    pub data_sn: u32,
    pub buffer_offset: u32,
    pub data: Vec<u8>,
    pub final_flag: bool,
}

/// Parsed NOP-Out
#[derive(Debug, Clone)]
pub struct NopOutPdu {
    pub lun: u64,
    pub itt: u32,
    pub ttt: u32,
    pub cmd_sn: u32,
    pub exp_stat_sn: u32,
    pub data: Vec<u8>,
}

/// Parsed Logout Request
#[derive(Debug, Clone)]
pub struct LogoutRequest {
    pub itt: u32,
    pub reason: u8,
    pub cid: u16,
    pub cmd_sn: u32,
    pub exp_stat_sn: u32,
}

/// Parsed Text Request
#[derive(Debug, Clone)]
pub struct TextRequest {
    pub itt: u32,
    pub ttt: u32,
    pub cmd_sn: u32,
    pub exp_stat_sn: u32,
    pub final_flag: bool,
    pub cont: bool,
    pub parameters: Vec<(String, String)>,
}

// ============================================================================
// Text parameters (NUL-terminated key=value pairs)
// ============================================================================

/// The index of the first `x` in `s`, or the length of `s` when there is none.
pub open spec fn index_of<T>(s: Seq<T>, x: T) -> nat
    decreases s.len(),
{
    if s.len() == 0 {
        0
    } else if s[0] == x {
        0
    } else {
        1 + index_of(s.drop_first(), x)
    }
}

/// The key-value pair that one NUL-free chunk holds: the decoded text split
/// at its first `=`; nothing for an empty chunk or one without `=`.
pub open spec fn chunk_param(chunk: Seq<u8>) -> Seq<(Seq<char>, Seq<char>)> {
    let s = lossy_text(chunk);
    let e = index_of(s, '=');
    if chunk.len() == 0 || e >= s.len() {
        seq![]
    } else {
        seq![(s.subrange(0, e as int), s.subrange(e as int + 1, s.len() as int))]
    }
}

/// The parameters in a data segment: the chunks between NUL bytes, in order.
pub open spec fn text_params(data: Seq<u8>) -> Seq<(Seq<char>, Seq<char>)>
    decreases data.len(),
{
    let k = index_of(data, 0u8);
    if data.len() == 0 {
        seq![]
    } else if k < data.len() {
        chunk_param(data.subrange(0, k as int)) + text_params(data.subrange(k as int + 1, data.len() as int))
    } else {
        chunk_param(data)
    }
}

/// The characters of each key and value.
pub open spec fn pairs_view(v: Seq<(String, String)>) -> Seq<(Seq<char>, Seq<char>)> {
    v.map_values(|p: (String, String)| (p.0@, p.1@))
}

/// The bytes of one parameter: `key=value` followed by a NUL byte.
pub open spec fn param_bytes(p: (Seq<char>, Seq<char>)) -> Seq<u8> {
    encode_utf8(p.0) + seq![61u8] + encode_utf8(p.1) + seq![0u8]
}

/// The bytes of a parameter list, in order.
pub open spec fn serialize_params(ps: Seq<(Seq<char>, Seq<char>)>) -> Seq<u8>
    decreases ps.len(),
{
    if ps.len() == 0 {
        seq![]
    } else {
        param_bytes(ps[0]) + serialize_params(ps.drop_first())
    }
}

pub proof fn lemma_index_of<T>(s: Seq<T>, x: T, m: int)
    requires
        0 <= m <= s.len(),
        forall|i: int| 0 <= i < m ==> s[i] != x,
        m == s.len() || s[m] == x,
    ensures
        index_of(s, x) == m,
    decreases s.len(),
{
    if s.len() > 0 && m > 0 {
        lemma_index_of(s.drop_first(), x, m - 1);
    }
}

proof fn lemma_serialize_params_push(ps: Seq<(Seq<char>, Seq<char>)>, p: (Seq<char>, Seq<char>))
    ensures
        serialize_params(ps.push(p)) == serialize_params(ps) + param_bytes(p),
    decreases ps.len(),
{
    if ps.len() == 0 {
        assert(serialize_params(ps.push(p).drop_first()) == serialize_params(seq![])) by {
            assert(ps.push(p).drop_first() =~= seq![]);
        }
        assert(serialize_params(ps.push(p)) =~= param_bytes(p));
    } else {
        lemma_serialize_params_push(ps.drop_first(), p);
        assert(ps.push(p).drop_first() =~= ps.drop_first().push(p));
        assert(serialize_params(ps.push(p)) =~= serialize_params(ps) + param_bytes(p));
    }
}

/// The key and value that a decoded chunk splits into at its first `=`.
fn split_param(cs: &Vec<char>) -> (r: Option<(String, String)>)
    ensures
        ({
            let e = index_of(cs@, '=');
            if e >= cs@.len() {
                r is None
            } else {
                r matches Some(p) && p.0@ == cs@.subrange(0, e as int) && p.1@ == cs@.subrange(
                    e as int + 1,
                    cs@.len() as int,
                )
            }
        }),
{
    let n = cs.len();
    let mut e: usize = 0;
    while e < n && cs[e] != '='
        invariant
            n == cs@.len(),
            e <= n,
            forall|i: int| 0 <= i < e ==> cs@[i] != '=',
        decreases n - e,
    {
        e = e + 1;
    }
    proof {
        lemma_index_of(cs@, '=', e as int);
    }
    if e >= n {
        None
    } else {
        let key = string_from_chars(vstd::slice::slice_subrange(cs.as_slice(), 0, e));
        let value = string_from_chars(vstd::slice::slice_subrange(cs.as_slice(), e + 1, n));
        Some((key, value))
    }
}

/// Parse iSCSI text parameters (null-terminated key=value pairs)
pub fn parse_text_parameters(data: &[u8]) -> (r: ScsiResult<Vec<(String, String)>>)
    ensures
        r matches Ok(v) && pairs_view(v@) == text_params(data@),
{
    let mut params: Vec<(String, String)> = Vec::new();
    let n = data.len();
    if n == 0 {
        assert(pairs_view(params@) =~= text_params(data@));
        return Ok(params);
    }
    let mut start: usize = 0;
    assert(data@.subrange(0, n as int) =~= data@);
    assert(pairs_view(params@) =~= seq![]);
    while start < n
        invariant
            n == data@.len(),
            start <= n,
            pairs_view(params@) + text_params(data@.subrange(start as int, n as int)) == text_params(
                data@,
            ),
        decreases n - start,
    {
        let ghost rest = data@.subrange(start as int, n as int);
        let mut k = start;
        while k < n && data[k] != 0
            invariant
                n == data@.len(),
                start <= k <= n,
                forall|i: int| start <= i < k ==> data@[i] != 0u8,
            decreases n - k,
        {
            k = k + 1;
        }
        proof {
            lemma_index_of(rest, 0u8, k - start);
            assert(rest.subrange(0, k - start) =~= data@.subrange(start as int, k as int));
        }
        let ghost before = pairs_view(params@);
        if k > start {
            let chunk = vstd::slice::slice_subrange(data, start, k);
            let s = from_utf8_lossy(chunk);
            let cs = chars_of(s.as_str());
            match split_param(&cs) {
                Some(p) => {
                    params.push(p);
                },
                None => {},
            }
        }
        proof {
            assert(pairs_view(params@) =~= before + chunk_param(data@.subrange(start as int, k as int)));
        }
        if k < n {
            assert(rest.subrange(k - start + 1, rest.len() as int) =~= data@.subrange(k + 1, n as int));
            start = k + 1;
        } else {
            assert(rest =~= data@.subrange(start as int, k as int));
            start = n;
            assert(text_params(data@.subrange(start as int, n as int)) =~= seq![]) by {
                assert(data@.subrange(start as int, n as int) =~= seq![]);
            }
        }
        assert(pairs_view(params@) + text_params(data@.subrange(start as int, n as int)) =~= text_params(data@));
    }
    assert(text_params(data@.subrange(start as int, n as int)) =~= seq![]) by {
        assert(data@.subrange(start as int, n as int) =~= seq![]);
    }
    assert(pairs_view(params@) =~= text_params(data@));
    Ok(params)
}

/// Serialize text parameters to null-terminated format
pub fn serialize_text_parameters(params: &[(String, String)]) -> (r: Vec<u8>)
    ensures
        r@ == serialize_params(pairs_view(params@)),
{
    let mut data: Vec<u8> = Vec::new();
    let n = params.len();
    let mut i: usize = 0;
    while i < n
        invariant
            n == params@.len(),
            i <= n,
            data@ == serialize_params(pairs_view(params@.subrange(0, i as int))),
        decreases n - i,
    {
        let key = &params[i].0;
        let value = &params[i].1;
        extend_bytes(&mut data, key.as_str().as_bytes());
        data.push(61u8);
        extend_bytes(&mut data, value.as_str().as_bytes());
        data.push(0u8);
        proof {
            let ps = pairs_view(params@.subrange(0, i as int));
            lemma_serialize_params_push(ps, (key@, value@));
            assert(pairs_view(params@.subrange(0, i + 1)) =~= ps.push((key@, value@)));
            assert(data@ =~= serialize_params(ps) + param_bytes((key@, value@)));
        }
        i = i + 1;
    }
    assert(params@.subrange(0, n as int) =~= params@);
    data
}

/// Parsing what serializing a list of pairs gives, followed by more bytes,
/// gives the pairs followed by what the bytes parse to.
pub proof fn lemma_text_params_prefix(ps: Seq<(Seq<char>, Seq<char>)>, t: Seq<u8>)
    requires
        forall|i: int|
            0 <= i < ps.len() ==> !(#[trigger] ps[i]).0.contains('=') && !ps[i].0.contains('\0')
                && !ps[i].1.contains('\0'),
    ensures
        text_params(serialize_params(ps) + t) == ps + text_params(t),
    decreases ps.len(),
{
    if ps.len() == 0 {
        assert(serialize_params(ps) + t =~= t);
        assert(ps + text_params(t) =~= text_params(t));
    } else {
        let p = ps[0];
        let rest = ps.drop_first();
        assert forall|i: int|
            0 <= i < rest.len() implies !(#[trigger] rest[i]).0.contains('=') && !rest[i].0.contains(
            '\0',
        ) && !rest[i].1.contains('\0') by {
            assert(rest[i] == ps[i + 1]);
        }
        lemma_text_params_prefix(rest, t);
        let text = p.0 + seq!['='] + p.1;
        let chunk = encode_utf8(p.0) + seq![61u8] + encode_utf8(p.1);
        let b = serialize_params(ps) + t;
        let tail = serialize_params(rest) + t;
        assert(b =~= chunk + seq![0u8] + tail);
        // The chunk is the encoding of `key=value`.
        lemma_encode_utf8_concat(p.0, seq!['=']);
        lemma_encode_utf8_concat(p.0 + seq!['='], p.1);
        assert(encode_utf8(seq!['=']) =~= seq![61u8]) by {
            let eq = seq!['='];
            assert(eq.drop_first() =~= Seq::<char>::empty());
            assert(encode_utf8(Seq::<char>::empty()) =~= Seq::<u8>::empty());
            assert(eq[0] == '=');
            assert(('=' as u32) == 61);
            assert((61u32 & 0x7F) as u8 == 61u8) by (bit_vector);
            assert(vstd::utf8::encode_scalar(61u32) =~= seq![61u8]);
        }
        assert(encode_utf8(text) == chunk);
        vstd::utf8::encode_utf8_valid_utf8(text);
        vstd::utf8::encode_utf8_decode_utf8(text);
        assert(lossy_text(chunk) == text);
        // The first NUL is the terminator.
        lemma_encode_utf8_no_zero(p.0);
        lemma_encode_utf8_no_zero(p.1);
        let k = chunk.len() as int;
        assert forall|i: int| 0 <= i < k implies b[i] != 0u8 by {
            let l0 = encode_utf8(p.0).len() as int;
            if i < l0 {
                assert(encode_utf8(p.0)[i] == b[i]);
            } else if i > l0 {
                assert(encode_utf8(p.1)[i - l0 - 1] == b[i]);
            }
        }
        lemma_index_of(b, 0u8, k);
        assert(b.subrange(0, k) =~= chunk);
        assert(b.subrange(k + 1, b.len() as int) =~= tail);
        // The first `=` separates key and value.
        let e = p.0.len() as int;
        assert forall|i: int| 0 <= i < e implies text[i] != '=' by {
            assert(text[i] == p.0[i]);
        }
        lemma_index_of(text, '=', e);
        assert(text.subrange(0, e) =~= p.0);
        assert(text.subrange(e + 1, text.len() as int) =~= p.1);
        assert(chunk_param(chunk) =~= seq![p]);
        assert(text_params(b) =~= seq![p] + (rest + text_params(t)));
        assert(seq![p] + (rest + text_params(t)) =~= ps + text_params(t));
    }
}

/// Serializing a parameter list and parsing the bytes gives back the list,
/// provided no key holds `=` or NUL and no value holds NUL.
pub proof fn lemma_text_params_roundtrip(ps: Seq<(Seq<char>, Seq<char>)>)
    requires
        forall|i: int|
            0 <= i < ps.len() ==> !(#[trigger] ps[i]).0.contains('=') && !ps[i].0.contains('\0')
                && !ps[i].1.contains('\0'),
    ensures
        text_params(serialize_params(ps)) == ps,
{
    lemma_text_params_prefix(ps, seq![]);
    assert(serialize_params(ps) + seq![] =~= serialize_params(ps));
    assert(text_params(seq![]) =~= Seq::<(Seq<char>, Seq<char>)>::empty());
    assert(ps + text_params(seq![]) =~= ps);
}

/// Zero bytes hold no parameters.
pub proof fn lemma_text_params_zeros(k: nat)
    ensures
        text_params(zeros(k)) == Seq::<(Seq<char>, Seq<char>)>::empty(),
    decreases k,
{
    if k > 0 {
        let z = zeros(k);
        lemma_index_of(z, 0u8, 0);
        assert(z.subrange(1, z.len() as int) =~= zeros((k - 1) as nat));
        lemma_text_params_zeros((k - 1) as nat);
        assert(z.subrange(0, 0) =~= Seq::<u8>::empty());
        assert(chunk_param(z.subrange(0, 0)) =~= Seq::<(Seq<char>, Seq<char>)>::empty());
    } else {
        assert(zeros(k) =~= Seq::<u8>::empty());
    }
}

/// Parsing a login request PDU built from fields gives back those fields;
/// the stages come back reduced to their two bits, the Continue flag and
/// the versions come back zero, and the parameters are those of the data.
pub proof fn lemma_login_request_roundtrip(
    isid: Seq<u8>,
    tsih: u16,
    cid: u16,
    cmd_sn: u32,
    exp_stat_sn: u32,
    csg: u8,
    nsg: u8,
    transit: bool,
    data: Seq<u8>,
)
    requires
        isid.len() == 6,
    ensures
        login_request_of(
            built_pdu(
                opcode::LOGIN_REQUEST,
                true,
                login_flags(transit, csg, nsg),
                isid_tsih_lun(isid, tsih),
                0,
                login_request_specific(cid, cmd_sn, exp_stat_sn),
                data,
            ),
        ) == (LoginRequestView {
            isid,
            tsih,
            cid,
            cmd_sn,
            exp_stat_sn,
            transit,
            cont: false,
            csg: csg % 4,
            nsg: nsg % 4,
            version_max: 0,
            version_min: 0,
            parameters: text_params(data),
        }),
{
    let lun_bytes = isid + be_bytes(tsih as nat, 2);
    lemma_pow256_values();
    lemma_be_bytes_value(tsih as nat, 2);
    lemma_be_value_bound(lun_bytes);
    lemma_be_value_bytes(lun_bytes);
    let lun = isid_tsih_lun(isid, tsih);
    assert(be_bytes(lun as nat, 8) =~= lun_bytes);
    assert(be_bytes(lun as nat, 8).subrange(0, 6) =~= isid);
    lemma_be_bytes_suffix(lun as nat, 8, 2);
    lemma_be_bytes_value(lun as nat, 2);
    assert(lun_bytes.subrange(6, 8) =~= be_bytes(tsih as nat, 2));
    let sp = login_request_specific(cid, cmd_sn, exp_stat_sn);
    lemma_be_bytes_value(cid as nat, 2);
    lemma_be_bytes_value(cmd_sn as nat, 4);
    lemma_be_bytes_value(exp_stat_sn as nat, 4);
    assert(sp.subrange(0, 2) =~= be_bytes(cid as nat, 2));
    assert(sp.subrange(4, 8) =~= be_bytes(cmd_sn as nat, 4));
    assert(sp.subrange(8, 12) =~= be_bytes(exp_stat_sn as nat, 4));
    let f = login_flags(transit, csg, nsg);
    assert(bit7(f) == transit && !bit6(f) && (f / 4) % 4 == csg % 4 && f % 4 == nsg % 4) by (
    nonlinear_arith)
        requires
            f == (if transit {
                128nat
            } else {
                0nat
            }) + (csg % 4) * 4 + nsg % 4,
    ;
}

/// Encoding a PDU and decoding the bytes gives back every field, with the
/// data segment length taken from the data, provided there is no AHS, the
/// opcode fits in six bits and the data is shorter than 2^24 bytes.
pub proof fn lemma_pdu_encode_decode(v: PduView)
    requires
        v.specific.len() == 28,
        v.ahs_length == 0,
        v.opcode < 64,
        v.data.len() < 0x100_0000,
    ensures
        holds_frame(encode_pdu(v)),
        frame_len(encode_pdu(v)) == encode_pdu(v).len(),
        decode_pdu(encode_pdu(v)) == (PduView { data_length: v.data.len() as u32, ..v }),
{
    let b = encode_pdu(v);
    let n = v.data.len();
    lemma_pow256_values();
    lemma_be_bytes_value(v.version_or_reserved as nat, 2);
    lemma_be_bytes_value(n, 3);
    lemma_be_bytes_value(v.lun as nat, 8);
    lemma_be_bytes_value(v.itt as nat, 4);
    assert(padded_len(n) >= n) by (nonlinear_arith);
    assert(b.subrange(2, 4) =~= be_bytes(v.version_or_reserved as nat, 2));
    assert(b.subrange(5, 8) =~= be_bytes(n, 3));
    assert(b.subrange(8, 16) =~= be_bytes(v.lun as nat, 8));
    assert(b.subrange(16, 20) =~= be_bytes(v.itt as nat, 4));
    assert(b.subrange(20, 48) =~= v.specific);
    assert(b.subrange(48, 48 + n as int) =~= v.data);
    assert(b[0] % 64 == v.opcode && (b[0] / 64) % 2 == 1 <==> v.immediate);
    assert(decode_pdu(b) =~= (PduView { data_length: n as u32, ..v }));
}

/// Decoding a whole frame and encoding the PDU gives back the frame's
/// bytes, provided the reserved top bit of byte 0 is clear, there is no
/// AHS and the padding after the data is zero.
pub proof fn lemma_pdu_decode_encode(b: Seq<u8>)
    requires
        holds_frame(b),
        b[0] < 128,
        b[4] == 0,
        b.subrange(48 + announced_data_len(b) as int, frame_len(b) as int) == zeros(
            (padded_len(announced_data_len(b)) - announced_data_len(b)) as nat,
        ),
    ensures
        encode_pdu(decode_pdu(b)) == b.subrange(0, frame_len(b) as int),
{
    let v = decode_pdu(b);
    let n = announced_data_len(b);
    lemma_pow256_values();
    lemma_be_value_bound(b.subrange(2, 4));
    lemma_be_value_bound(b.subrange(5, 8));
    lemma_be_value_bound(b.subrange(8, 16));
    lemma_be_value_bound(b.subrange(16, 20));
    lemma_be_value_bytes(b.subrange(2, 4));
    lemma_be_value_bytes(b.subrange(5, 8));
    lemma_be_value_bytes(b.subrange(8, 16));
    lemma_be_value_bytes(b.subrange(16, 20));
    assert(padded_len(n) >= n) by (nonlinear_arith);
    assert(v.data.len() == n);
    assert(byte0(v.immediate, v.opcode) == b[0]);
    assert(encode_pdu(v) =~= b.subrange(0, frame_len(b) as int));
}

/// The wire layout of a PDU (RFC 3720 section 10.2): for every PDU without
/// an AHS, whose opcode fits in six bits, with 28 opcode-specific bytes and
/// a data segment shorter than 2^24 bytes, the encoding is the 48-byte
/// header followed by the data and zero padding to a multiple of four
/// bytes.  In the header, byte 0 holds the opcode in its low six bits and
/// the immediate bit as 0x40, byte 1 the flags, bytes 2..4 the version
/// field, byte 4 the AHS length 0, bytes 5..8 the data segment length,
/// bytes 8..16 the LUN and bytes 16..20 the initiator task tag, all
/// big-endian, and bytes 20..48 the opcode-specific fields.
pub proof fn lemma_wire_layout(v: PduView)
    requires
        v.ahs_length == 0,
        v.opcode < 64,
        v.specific.len() == 28,
        v.data.len() < 0x100_0000,
    ensures
        ({
            let b = encode_pdu(v);
            let n = v.data.len();
            &&& b.len() % 4 == 0
            &&& n + 48 <= b.len() < n + 52
            &&& b[0] == (if v.immediate {
                0x40 + v.opcode
            } else {
                v.opcode as int
            })
            &&& b[1] == v.flags
            &&& be_value(b.subrange(2, 4)) == v.version_or_reserved
            &&& b[4] == 0
            &&& be_value(b.subrange(5, 8)) == n
            &&& be_value(b.subrange(8, 16)) == v.lun
            &&& be_value(b.subrange(16, 20)) == v.itt
            &&& b.subrange(20, 48) == v.specific
            &&& b.subrange(48, 48 + n as int) == v.data
            &&& forall|i: int| 48 + n <= i < b.len() ==> #[trigger] b[i] == 0
        }),
{
    let n = v.data.len();
    lemma_be_bytes_value(v.version_or_reserved as nat, 2);
    lemma_be_bytes_value(n, 3);
    lemma_be_bytes_value(v.lun as nat, 8);
    lemma_be_bytes_value(v.itt as nat, 4);
    lemma_pow256_values();
    let b = encode_pdu(v);
    let pad = zeros((padded_len(n) - n) as nat);
    assert(b.subrange(2, 4) =~= be_bytes(v.version_or_reserved as nat, 2));
    assert(b.subrange(5, 8) =~= be_bytes(n, 3));
    assert(b.subrange(8, 16) =~= be_bytes(v.lun as nat, 8));
    assert(b.subrange(16, 20) =~= be_bytes(v.itt as nat, 4));
    assert(b.subrange(20, 48) =~= v.specific);
    assert(b.subrange(48, 48 + n as int) =~= v.data);
    assert forall|i: int| 48 + n <= i < b.len() implies #[trigger] b[i] == 0 by {
        assert(b[i] == pad[i - 48 - n]);
    }
}

} // verus!
