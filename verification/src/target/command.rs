//! SCSI commands and the write data that follows them.
//!
//! A command that carries a CDB for LUN 0 moves the command window, then
//! either starts a write (immediate data, or a pending write that Data-Out
//! PDUs complete), flushes the device, or runs through the SCSI handler;
//! read data goes back in Data-In PDUs no longer than the initiator's
//! MaxRecvDataSegmentLength.

use vstd::prelude::*;
use super::{handler_result, pdus_view, wrong_opcode_message, HandlerError};
use crate::bytes::be_value;
use crate::error::{IscsiError, ScsiResult};
use crate::pdu::{self, bit6, bit7, built_pdu, put_byte, data_in_specific, field, scsi_response_specific, IscsiPdu, PduView};
use crate::scsi::{
    answers_from, asc, command_outcome, device_block_size, device_flushed, device_wrote, good_view, medium_error_sense,
    outcome_matches, rw16_overflows, scsi_status, sense_bytes, sense_key, sense_of, DeviceAnswers,
    ScsiBlockDevice, ScsiHandler, ScsiResponse,
    ScsiResponseView, SenseData,
};
use crate::session::{in_window, with_stat_sn, wrap_inc, IscsiSession, PendingWrite, SessionView};

verus! {

broadcast use vstd::std_specs::hash::group_hash_axioms;

// ============================================================================
// The command as mathematical functions
// ============================================================================

/// The 16-byte CDB of a SCSI command PDU.
pub open spec fn cdb_of(p: PduView) -> Seq<u8> {
    p.specific.subrange(12, 28)
}

/// WRITE (6), WRITE (10) and WRITE (16).
pub open spec fn is_write_opcode(op: u8) -> bool {
    op == 0x0a || op == 0x2a || op == 0x8a
}

/// SYNCHRONIZE CACHE (10) and (16).
pub open spec fn is_sync_opcode(op: u8) -> bool {
    op == 0x35 || op == 0x91
}

/// The logical block address and the number of blocks of a WRITE CDB.
pub open spec fn write_range(cdb: Seq<u8>) -> (u64, u32) {
    if cdb[0] == 0x0a {
        // WRITE(6): a 21-bit LBA in bytes 1-3, the length in byte 4
        (((cdb[1] % 32) as nat * 65536 + cdb[2] as nat * 256 + cdb[3] as nat) as u64, cdb[4] as u32)
    } else if cdb[0] == 0x2a {
        (be_value(cdb.subrange(2, 6)) as u64, be_value(cdb.subrange(7, 9)) as u32)
    } else {
        (be_value(cdb.subrange(2, 10)) as u64, be_value(cdb.subrange(10, 14)) as u32)
    }
}

/// The session after a command with this CmdSN: the window moves up by one
/// when the CmdSN is the expected one.
pub open spec fn after_cmd_sn(s: SessionView, cmd_sn: u32) -> SessionView {
    if in_window(cmd_sn, s.exp_cmd_sn, s.max_cmd_sn) && cmd_sn == s.exp_cmd_sn {
        SessionView { exp_cmd_sn: wrap_inc(s.exp_cmd_sn), max_cmd_sn: wrap_inc(s.max_cmd_sn), ..s }
    } else {
        s
    }
}

pub open spec fn scsi_response_view(s: SessionView, itt: u32, status: u8, sense: Option<Seq<u8>>) -> PduView {
    built_pdu(
        pdu::opcode::SCSI_RESPONSE,
        false,
        pdu::flags::FINAL,
        0,
        itt,
        scsi_response_specific(s.stat_sn, s.exp_cmd_sn, s.max_cmd_sn, status, 0, 0),
        match sense {
            Some(b) => b,
            None => seq![],
        },
    )
}

/// A SCSI response PDU, and the session with its StatSN used up.
pub open spec fn respond_once(s: SessionView, itt: u32, status: u8, sense: Option<Seq<u8>>) -> (
    SessionView,
    Result<Seq<PduView>, HandlerError>,
) {
    (with_stat_sn(s, wrap_inc(s.stat_sn)), Ok(seq![scsi_response_view(s, itt, status, sense)]))
}

pub open spec fn min_nat(a: nat, b: nat) -> nat {
    if a < b {
        a
    } else {
        b
    }
}

/// The Data-In PDUs that carry `data` from `offset` on, at most `seg`
/// bytes each; the last one has the final and status bits, the StatSN and
/// the status.
pub open spec fn data_in_pdus(
    s: SessionView,
    itt: u32,
    data: Seq<u8>,
    status: u8,
    seg: nat,
    offset: nat,
    data_sn: nat,
) -> Seq<PduView>
    decreases data.len() - offset,
{
    if seg == 0 || offset >= data.len() {
        seq![]
    } else {
        let chunk = min_nat((data.len() - offset) as nat, seg);
        let last = offset + chunk >= data.len();
        seq![
            built_pdu(
                pdu::opcode::SCSI_DATA_IN,
                false,
                if last {
                    129u8
                } else {
                    0u8
                },
                0,
                itt,
                data_in_specific(
                    0xFFFF_FFFF,
                    if last {
                        s.stat_sn
                    } else {
                        0
                    },
                    s.exp_cmd_sn,
                    s.max_cmd_sn,
                    (data_sn % 0x1_0000_0000) as u32,
                    (offset % 0x1_0000_0000) as u32,
                    if last {
                        Some(status)
                    } else {
                        None
                    },
                ),
                data.subrange(offset as int, (offset + chunk) as int),
            ),
        ] + data_in_pdus(s, itt, data, status, seg, offset + chunk, data_sn + 1)
    }
}

/// The PDUs that return a SCSI response: Data-In for a read with data,
/// else one SCSI Response with the status and any sense data.
pub open spec fn respond(s: SessionView, p: PduView, resp: ScsiResponseView) -> (
    SessionView,
    Result<Seq<PduView>, HandlerError>,
) {
    if bit6(p.flags) && resp.data.len() > 0 {
        (
            with_stat_sn(s, wrap_inc(s.stat_sn)),
            Ok(
                data_in_pdus(
                    s,
                    p.itt,
                    resp.data,
                    resp.status,
                    s.params.max_xmit_data_segment_length as nat,
                    0,
                    0,
                ),
            ),
        )
    } else {
        respond_once(
            s,
            p.itt,
            resp.status,
            match resp.sense {
                Some(sd) => Some(sense_bytes(sd)),
                None => None,
            },
        )
    }
}

/// The data segments of a list of PDUs, one after the other.
pub open spec fn data_of(ps: Seq<PduView>) -> Seq<u8>
    decreases ps.len(),
{
    if ps.len() == 0 {
        seq![]
    } else {
        ps[0].data + data_of(ps.drop_first())
    }
}

/// The Data-In PDUs of a read carry its data in order and whole, none of
/// them more than `seg` bytes, and only the last one has the final bit.
pub proof fn lemma_data_in_reassembles(
    s: SessionView,
    itt: u32,
    data: Seq<u8>,
    status: u8,
    seg: nat,
    offset: nat,
    data_sn: nat,
)
    requires
        seg > 0,
        offset <= data.len(),
    ensures
        ({
            let ps = data_in_pdus(s, itt, data, status, seg, offset, data_sn);
            &&& data_of(ps) == data.subrange(offset as int, data.len() as int)
            &&& forall|i: int| 0 <= i < ps.len() ==> (#[trigger] ps[i]).data.len() <= seg
            &&& forall|i: int| 0 <= i < ps.len() ==> (bit7((#[trigger] ps[i]).flags) <==> i == ps.len() - 1)
        }),
    decreases data.len() - offset,
{
    let ps = data_in_pdus(s, itt, data, status, seg, offset, data_sn);
    if offset >= data.len() {
        assert(data.subrange(offset as int, data.len() as int) =~= Seq::<u8>::empty());
    } else {
        let chunk = min_nat((data.len() - offset) as nat, seg);
        let rest = data_in_pdus(s, itt, data, status, seg, offset + chunk, data_sn + 1);
        lemma_data_in_reassembles(s, itt, data, status, seg, offset + chunk, data_sn + 1);
        assert(ps.drop_first() =~= rest);
        assert(data_of(ps) =~= data.subrange(offset as int, data.len() as int));
        assert(bit7(129u8));
        assert(!bit7(0u8));
        assert forall|i: int| 0 <= i < ps.len() implies (bit7((#[trigger] ps[i]).flags) <==> i == ps.len()
            - 1) by {
            if i > 0 {
                assert(ps[i] == rest[i - 1]);
            } else if offset + chunk < data.len() {
                assert(rest.len() > 0);
            } else {
                assert(rest.len() == 0);
            }
        }
        assert forall|i: int| 0 <= i < ps.len() implies (#[trigger] ps[i]).data.len() <= seg by {
            if i > 0 {
                assert(ps[i] == rest[i - 1]);
            }
        }
    }
}

/// What the device answered while a SCSI command ran.
pub struct CommandAnswers {
    /// The block size the device reported, for a WRITE with blocks to transfer
    pub block_size: u32,
    /// Whether writing the immediate data failed
    pub write_failed: bool,
    /// The error that flushing returned, for SYNCHRONIZE CACHE
    pub flush_error: Option<IscsiError>,
    /// The SCSI handler's response to any other command
    pub response: ScsiResponseView,
}

/// The answers are ones the device gives: the response to a command that
/// goes through the SCSI handler is what the handler makes of answers that
/// the device `before` gave to the calls asking for them.
pub open spec fn command_answers_possible<D: ScsiBlockDevice>(p: PduView, x: CommandAnswers, before: D) -> bool {
    (p.opcode == pdu::opcode::SCSI_COMMAND && p.lun == 0 && !is_write_opcode(cdb_of(p)[0])
        && !is_sync_opcode(cdb_of(p)[0])) ==> exists|a: DeviceAnswers|
        answers_from(&before, cdb_of(p), None, a) && #[trigger] command_outcome(cdb_of(p), a, None) == Ok::<
            ScsiResponseView,
            Seq<char>,
        >(x.response)
}

/// A WRITE: the data that came with the command is written at once; the
/// command completes when that was all of it and the PDU is final, and
/// otherwise waits, as a pending write, for Data-Out PDUs.
pub open spec fn write_command_outcome(s: SessionView, p: PduView, x: CommandAnswers) -> (
    SessionView,
    Result<Seq<PduView>, HandlerError>,
) {
    let (lba, blocks) = write_range(cdb_of(p));
    let pending = PendingWrite {
        lba,
        transfer_length: blocks,
        block_size: x.block_size,
        bytes_received: if p.data.len() > 0 {
            (p.data.len() % 0x1_0000_0000) as u32
        } else {
            0
        },
        ttt: 0xFFFF_FFFF,
        r2t_sn: 0,
        lun: p.lun,
    };
    if blocks == 0 {
        (s, Ok(seq![]))
    } else if p.data.len() > 0 && x.write_failed {
        respond_once(
            s,
            p.itt,
            scsi_status::CHECK_CONDITION,
            Some(sense_bytes(medium_error_sense())),
        )
    } else if p.data.len() > 0 && bit7(p.flags) && p.data.len() == blocks * x.block_size {
        respond_once(s, p.itt, scsi_status::GOOD, None)
    } else {
        (SessionView { pending_writes: s.pending_writes.insert(p.itt, pending), ..s }, Ok(seq![]))
    }
}

/// What a SCSI command PDU does to the session and what the target
/// answers, given the device's answers.
pub open spec fn scsi_command_outcome(s: SessionView, p: PduView, x: CommandAnswers) -> (
    SessionView,
    Result<Seq<PduView>, HandlerError>,
) {
    if p.opcode != pdu::opcode::SCSI_COMMAND {
        (s, Err(HandlerError::Invalid(wrong_opcode_message("Expected SCSI Command opcode 0x01"@, p.opcode))))
    } else if p.lun != 0 {
        // Only LUN 0 exists
        respond_once(
            s,
            p.itt,
            scsi_status::CHECK_CONDITION,
            Some(sense_bytes(sense_of(sense_key::ILLEGAL_REQUEST, asc::LOGICAL_UNIT_NOT_SUPPORTED, 0))),
        )
    } else {
        let s1 = after_cmd_sn(s, field(p.specific, 4, 4) as u32);
        let op = cdb_of(p)[0];
        if is_write_opcode(op) {
            write_command_outcome(s1, p, x)
        } else if is_sync_opcode(op) {
            match x.flush_error {
                Some(e) => (s1, Err(HandlerError::Device(e))),
                None => respond(s1, p, good_view(seq![])),
            }
        } else {
            respond(s1, p, x.response)
        }
    }
}

/// The SCSI command PDUs the target cannot handle: a READ (16) whose block
/// range ends beyond 2^64 (the range check overflows), and a read of a
/// command that goes to the SCSI handler while the initiator's
/// MaxRecvDataSegmentLength is 0 (the data would never be sent).
pub open spec fn scsi_command_fails(s: SessionView, p: PduView) -> bool {
    &&& p.opcode == pdu::opcode::SCSI_COMMAND
    &&& p.lun == 0
    &&& {
        let cdb = cdb_of(p);
        ||| cdb[0] == 0x88 && rw16_overflows(cdb)
        ||| !is_write_opcode(cdb[0]) && !is_sync_opcode(cdb[0]) && bit6(p.flags)
            && s.params.max_xmit_data_segment_length == 0
    }
}

/// What a SCSI command asks of the device, and what it leaves alone: a
/// WRITE with blocks to transfer asks the block size and writes its
/// immediate data from the CDB's block address on, SYNCHRONIZE CACHE
/// flushes, and nothing else changes the device (`before` and `after` are
/// the device before and after the command).
pub open spec fn command_device_effect<D: ScsiBlockDevice>(
    p: PduView,
    x: CommandAnswers,
    before: D,
    after: D,
) -> bool {
    let cdb = cdb_of(p);
    let lba = write_range(cdb).0;
    let blocks = write_range(cdb).1;
    if p.opcode == pdu::opcode::SCSI_COMMAND && p.lun == 0 && is_write_opcode(cdb[0]) && blocks > 0 {
        &&& device_block_size(&before, x.block_size)
        &&& if p.data.len() > 0 {
            exists|w: ScsiResult<()>|
                #[trigger] device_wrote(before, lba, p.data, x.block_size, w) && (w is Err) == x.write_failed
        } else {
            after == before
        }
    } else if p.opcode == pdu::opcode::SCSI_COMMAND && p.lun == 0 && is_sync_opcode(cdb[0]) {
        exists|f: ScsiResult<()>|
            #[trigger] device_flushed(before, f) && x.flush_error == match f {
                Ok(_) => None,
                Err(e) => Some(e),
            }
    } else {
        after == before
    }
}

/// The contract of `handle_scsi_command`: for some answers the device can
/// give to the calls that the command makes, the session and the result
/// are the outcome.
pub open spec fn scsi_command_done<D: ScsiBlockDevice>(
    s: SessionView,
    p: PduView,
    before: D,
    after: D,
    s2: SessionView,
    r: ScsiResult<Vec<IscsiPdu>>,
) -> bool {
    exists|x: CommandAnswers|
        command_answers_possible(p, x, before) && command_device_effect(p, x, before, after) && #[trigger] handler_result(
            s2,
            r,
            scsi_command_outcome(s, p, x),
        )
}

// ============================================================================
// Data-Out
// ============================================================================

/// The buffer offset of a Data-Out PDU.
pub open spec fn data_out_offset(p: PduView) -> nat {
    field(p.specific, 20, 4)
}

/// What a Data-Out PDU does, given whether writing its data failed.  Data
/// for no pending write is dropped.  The final PDU of a write completes it
/// with GOOD, or with a medium error when its own data could not be written.
pub open spec fn data_out_outcome(s: SessionView, p: PduView, write_failed: bool) -> (
    SessionView,
    Result<Seq<PduView>, HandlerError>,
) {
    if p.opcode != pdu::opcode::SCSI_DATA_OUT {
        (s, Err(HandlerError::Invalid(wrong_opcode_message("Expected SCSI Data-Out opcode 0x05"@, p.opcode))))
    } else if !s.pending_writes.contains_key(p.itt) {
        (s, Ok(seq![]))
    } else if bit7(p.flags) {
        let s1 = SessionView { pending_writes: s.pending_writes.remove(p.itt), ..s };
        if write_failed {
            respond_once(
                s1,
                p.itt,
                scsi_status::CHECK_CONDITION,
                Some(sense_bytes(medium_error_sense())),
            )
        } else {
            respond_once(s1, p.itt, scsi_status::GOOD, None)
        }
    } else {
        let pw = s.pending_writes[p.itt];
        let received = (data_out_offset(p) + p.data.len() % 0x1_0000_0000) as u32;
        (
            SessionView {
                pending_writes: s.pending_writes.insert(p.itt, PendingWrite { bytes_received: received, ..pw }),
                ..s
            },
            Ok(seq![]),
        )
    }
}

/// The Data-Out PDUs whose arithmetic fails: a pending write with block
/// size 0, a block address beyond 2^64, or a byte count beyond 2^32.
pub open spec fn data_out_fails(s: SessionView, p: PduView) -> bool {
    &&& p.opcode == pdu::opcode::SCSI_DATA_OUT
    &&& s.pending_writes.contains_key(p.itt)
    &&& {
        let pw = s.pending_writes[p.itt];
        ||| pw.block_size == 0
        ||| pw.lba + data_out_offset(p) / (pw.block_size as nat) > u64::MAX
        ||| data_out_offset(p) + p.data.len() % 0x1_0000_0000 > u32::MAX
    }
}

/// The first block that a Data-Out PDU's data goes to: the pending write's
/// first block plus the whole blocks before the PDU's buffer offset.
pub open spec fn data_out_block_address(pw: PendingWrite, offset: nat) -> int {
    pw.lba + offset / (pw.block_size as nat)
}

/// The contract of `handle_scsi_data_out`: data for a pending write is
/// written from its block address on, and the outcome follows from whether
/// that write failed; any other PDU leaves the device alone.
pub open spec fn data_out_done<D: ScsiBlockDevice>(
    s: SessionView,
    p: PduView,
    before: D,
    after: D,
    s2: SessionView,
    r: ScsiResult<Vec<IscsiPdu>>,
) -> bool {
    if p.opcode == pdu::opcode::SCSI_DATA_OUT && s.pending_writes.contains_key(p.itt) {
        let pw = s.pending_writes[p.itt];
        exists|w: ScsiResult<()>|
            #[trigger] device_wrote(
                before,
                data_out_block_address(pw, data_out_offset(p)) as u64,
                p.data,
                pw.block_size,
                w,
            ) && handler_result(s2, r, data_out_outcome(s, p, w is Err))
    } else {
        after == before && handler_result(s2, r, data_out_outcome(s, p, false))
    }
}

// ============================================================================
// Executable code
// ============================================================================

fn one_response(p: IscsiPdu) -> (r: ScsiResult<Vec<IscsiPdu>>)
    ensures
        r matches Ok(v) && pdus_view(v@) == seq![p@],
{
    let mut v: Vec<IscsiPdu> = Vec::new();
    v.push(p);
    assert(pdus_view(v@) =~= seq![p@]);
    Ok(v)
}

fn no_response() -> (r: ScsiResult<Vec<IscsiPdu>>)
    ensures
        r matches Ok(v) && pdus_view(v@) == Seq::<PduView>::empty(),
{
    let v: Vec<IscsiPdu> = Vec::new();
    assert(pdus_view(v@) =~= Seq::<PduView>::empty());
    Ok(v)
}

/// A SCSI Response PDU with the next StatSN.
fn send_response(session: &mut IscsiSession, itt: u32, status: u8, sense: Option<&[u8]>) -> (r: ScsiResult<
    Vec<IscsiPdu>,
>)
    ensures
        handler_result(
            final(session)@,
            r,
            respond_once(
                old(session)@,
                itt,
                status,
                match sense {
                    Some(b) => Some(b@),
                    None => None,
                },
            ),
        ),
{
    let stat_sn = session.next_stat_sn();
    one_response(
        IscsiPdu::scsi_response(itt, stat_sn, session.exp_cmd_sn, session.max_cmd_sn, status, 0, 0, sense),
    )
}

/// The LBA and block count of a WRITE CDB.
fn write_fields(cdb: &[u8; 16]) -> (r: (u64, u32))
    ensures
        r == write_range(cdb@),
{
    if cdb[0] == 0x0a {
        // WRITE(6): LBA is 21 bits in bytes 1-3
        let lba_21 = ((cdb[1] % 32) as u32) * 65536 + (cdb[2] as u32) * 256 + (cdb[3] as u32);
        (lba_21 as u64, cdb[4] as u32)
    } else if cdb[0] == 0x2a {
        // WRITE(10): LBA is 32 bits in bytes 2-5
        let lba = crate::bytes::read_be(cdb.as_slice(), 2, 4);
        let length = crate::bytes::read_be(cdb.as_slice(), 7, 2);
        proof {
            crate::bytes::lemma_be_value_bound(cdb@.subrange(7, 9));
            crate::bytes::lemma_pow256_values();
        }
        (lba, length as u32)
    } else {
        // WRITE(16): LBA is 64 bits in bytes 2-9
        let lba = crate::bytes::read_be(cdb.as_slice(), 2, 8);
        let length = crate::bytes::read_be(cdb.as_slice(), 10, 4);
        proof {
            crate::bytes::lemma_be_value_bound(cdb@.subrange(10, 14));
            crate::bytes::lemma_pow256_values();
        }
        (lba, length as u32)
    }
}

/// Sends `data` in Data-In PDUs of at most `seg` bytes, from `offset` on.
#[verifier::rlimit(40)]
fn push_data_in(
    out: &mut Vec<IscsiPdu>,
    s: &IscsiSession,
    itt: u32,
    stat_sn: u32,
    data: &Vec<u8>,
    status: u8,
    seg: u32,
)
    requires
        seg > 0,
    ensures
        pdus_view(final(out)@) == pdus_view(old(out)@) + data_in_pdus(
            with_stat_sn(s@, stat_sn),
            itt,
            data@,
            status,
            seg as nat,
            0,
            0,
        ),
{
    let ghost sv = with_stat_sn(s@, stat_sn);
    let len = data.len();
    let mut offset: usize = 0;
    let mut data_sn: u32 = 0;
    let ghost sn: nat = 0;
    while offset < len
        invariant
            len == data@.len(),
            sv == with_stat_sn(s@, stat_sn),
            seg > 0,
            offset <= len,
            data_sn == sn % 0x1_0000_0000,
            pdus_view(out@) + data_in_pdus(sv, itt, data@, status, seg as nat, offset as nat, sn)
                == pdus_view(old(out)@) + data_in_pdus(sv, itt, data@, status, seg as nat, 0, 0),
        decreases len - offset,
    {
        let remaining = len - offset;
        let chunk_size = if remaining < seg as usize {
            remaining
        } else {
            seg as usize
        };
        let is_final = offset + chunk_size >= len;
        let chunk = vstd::slice::slice_to_vec(vstd::slice::slice_subrange(data.as_slice(), offset, offset + chunk_size));
        // StatSN is only valid for the final PDU
        let pdu_stat_sn = if is_final {
            stat_sn
        } else {
            0
        };
        let ghost before = pdus_view(out@);
        let data_in = IscsiPdu::scsi_data_in(
            itt,
            0xFFFF_FFFF,  // TTT
            pdu_stat_sn,
            s.exp_cmd_sn,
            s.max_cmd_sn,
            data_sn,
            (offset as u64 % 0x1_0000_0000) as u32,
            chunk,
            is_final,
            if is_final {
                Some(status)
            } else {
                None
            },
        );
        out.push(data_in);
        proof {
            let step = data_in_pdus(sv, itt, data@, status, seg as nat, offset as nat, sn);
            assert(step[0] == out@.last()@);
            assert(pdus_view(out@) =~= before.push(step[0]));
            assert(step =~= seq![step[0]] + data_in_pdus(
                sv,
                itt,
                data@,
                status,
                seg as nat,
                (offset + chunk_size) as nat,
                sn + 1,
            ));
            sn = sn + 1;
        }
        offset = offset + chunk_size;
        data_sn = data_sn.wrapping_add(1);
    }
}

/// Handle SCSI Command PDU
#[verifier::rlimit(40)]
pub fn handle_scsi_command<D: ScsiBlockDevice>(
    session: &mut IscsiSession,
    pdu: &IscsiPdu,
    device: &mut D,
) -> (r: ScsiResult<Vec<IscsiPdu>>)
    requires
        !scsi_command_fails(old(session)@, pdu@),
    ensures
        scsi_command_done(old(session)@, pdu@, *old(device), *final(device), final(session)@, r),
{
    let ghost mut x = CommandAnswers {
        block_size: 0,
        write_failed: false,
        flush_error: None,
        response: good_view(seq![]),
    };
    let cmd = match pdu.parse_scsi_command() {
        Ok(c) => c,
        Err(e) => {
            assert(handler_result(session@, Err(e), scsi_command_outcome(old(session)@, pdu@, x)));
            return Err(e);
        },
    };
    assert(cmd.cdb@ == cdb_of(pdu@));
    // Validate LUN - only LUN 0 is supported
    if cmd.lun != 0 {
        let sense = SenseData::new(sense_key::ILLEGAL_REQUEST, asc::LOGICAL_UNIT_NOT_SUPPORTED, 0);
        let sense_data = sense.to_bytes();
        let r = send_response(session, cmd.itt, scsi_status::CHECK_CONDITION, Some(sense_data.as_slice()));
        assert(handler_result(session@, r, scsi_command_outcome(old(session)@, pdu@, x)));
        return r;
    }
    // Validate command sequence number
    let cmd_sn = crate::bytes::read_be_u32(pdu.specific.as_slice(), 4);
    let _in_window = session.validate_cmd_sn(cmd_sn);
    let ghost s1 = session@;
    assert(s1 == after_cmd_sn(old(session)@, field(pdu@.specific, 4, 4) as u32));
    let opcode = cmd.cdb[0];
    let is_sync_cache = opcode == 0x35 || opcode == 0x91;
    let is_write_cmd = opcode == 0x0a || opcode == 0x2a || opcode == 0x8a;
    // WRITE commands carry immediate data or wait for Data-Out PDUs
    if is_write_cmd {
        let (lba, transfer_length) = write_fields(&cmd.cdb);
        if transfer_length > 0 {
            let block_size = device.block_size();
            proof {
                x.block_size = block_size;
            }
            proof {
                let (t, b) = (transfer_length as int, block_size as int);
                assert(t * b <= 0xFFFF_FFFFint * 0xFFFF_FFFFint) by (nonlinear_arith)
                    requires
                        0 <= t <= 0xFFFF_FFFF,
                        0 <= b <= 0xFFFF_FFFF,
                ;
            }
            let expected_data_len = transfer_length as u64 * block_size as u64;
            let mut bytes_received: u32 = 0;
            if pdu.data.len() > 0 {
                // Write the immediate data
                let write_result = device.write(lba, pdu.data.as_slice(), block_size);
                assert(device_wrote(*old(device), lba, pdu@.data, block_size, write_result));
                if write_result.is_err() {
                    proof {
                        x.write_failed = true;
                    }
                    let sense = SenseData::medium_error();
                    let sense_data = sense.to_bytes();
                    let r = send_response(
                        session,
                        cmd.itt,
                        scsi_status::CHECK_CONDITION,
                        Some(sense_data.as_slice()),
                    );
                    assert(handler_result(session@, r, scsi_command_outcome(old(session)@, pdu@, x)));
                    return r;
                }
                // The final PDU with all the data completes the command
                if cmd.final_flag && pdu.data.len() as u64 == expected_data_len {
                    let r = send_response(session, cmd.itt, scsi_status::GOOD, None);
                    assert(handler_result(session@, r, scsi_command_outcome(old(session)@, pdu@, x)));
                    return r;
                }
                bytes_received = (pdu.data.len() as u64 % 0x1_0000_0000) as u32;
            }
            // Wait for Data-Out PDUs with the rest of the data
            session.pending_writes.insert(
                cmd.itt,
                PendingWrite {
                    lba,
                    transfer_length,
                    block_size,
                    bytes_received,
                    ttt: 0xFFFF_FFFF,
                    r2t_sn: 0,
                    lun: cmd.lun,
                },
            );
        }
        let r = no_response();
        assert(session@ =~= scsi_command_outcome(old(session)@, pdu@, x).0);
        assert(handler_result(session@, r, scsi_command_outcome(old(session)@, pdu@, x)));
        return r;
    }
    let response = if is_sync_cache {
        // SYNCHRONIZE CACHE flushes the device
        let flushed = device.flush();
        assert(device_flushed(*old(device), flushed));
        match flushed {
            Ok(()) => ScsiResponse::good_no_data(),
            Err(e) => {
                proof {
                    x.flush_error = Some(e);
                }
                assert(handler_result(session@, Err(e), scsi_command_outcome(old(session)@, pdu@, x)));
                return Err(e);
            },
        }
    } else {
        let hr = ScsiHandler::handle_command(cmd.cdb.as_slice(), &*device, None);
        let ghost a = choose|a: DeviceAnswers|
            answers_from(&*device, cmd.cdb@, None, a) && outcome_matches(hr, command_outcome(cmd.cdb@, a, None));
        proof {
            assert(command_outcome(cmd.cdb@, a, None) is Ok);
        }
        match hr {
            Ok(resp) => {
                proof {
                    x.response = resp@;
                }
                resp
            },
            Err(e) => {
                return Err(e);
            },
        }
    };
    assert(command_answers_possible(pdu@, x, *old(device)));
    // Build response PDU(s)
    if cmd.read && response.data.len() > 0 {
        // Send data with Data-In PDU(s); StatSN is only valid for the final one
        let max_data_seg = session.params.max_xmit_data_segment_length;
        let stat_sn = session.next_stat_sn();
        let mut responses: Vec<IscsiPdu> = Vec::new();
        push_data_in(&mut responses, session, cmd.itt, stat_sn, &response.data, response.status, max_data_seg);
        proof {
            assert(with_stat_sn(session@, stat_sn) =~= s1);
            assert(pdus_view(responses@) =~= data_in_pdus(
                s1,
                cmd.itt,
                response.data@,
                response.status,
                max_data_seg as nat,
                0,
                0,
            ));
        }
        let r: ScsiResult<Vec<IscsiPdu>> = Ok(responses);
        assert(handler_result(session@, r, scsi_command_outcome(old(session)@, pdu@, x)));
        r
    } else {
        // No data - send SCSI Response
        let sense = response.sense_bytes_opt();
        let r = match &sense {
            Some(b) => send_response(session, cmd.itt, response.status, Some(b.as_slice())),
            None => send_response(session, cmd.itt, response.status, None),
        };
        assert(handler_result(session@, r, scsi_command_outcome(old(session)@, pdu@, x)));
        r
    }
}

/// The first block that Data-Out data at `offset` goes to.
fn data_out_lba(pw: &PendingWrite, offset: u32) -> (r: u64)
    requires
        pw.block_size > 0,
        data_out_block_address(*pw, offset as nat) <= u64::MAX,
    ensures
        r == data_out_block_address(*pw, offset as nat),
{
    pw.lba + (offset / pw.block_size) as u64
}

/// Handle SCSI Data-Out PDU (write data from initiator)
///
/// The data is written at the block that its buffer offset falls in; the
/// final PDU completes the write.
#[verifier::rlimit(40)]
pub fn handle_scsi_data_out<D: ScsiBlockDevice>(
    session: &mut IscsiSession,
    pdu: &IscsiPdu,
    device: &mut D,
) -> (r: ScsiResult<Vec<IscsiPdu>>)
    requires
        !data_out_fails(old(session)@, pdu@),
    ensures
        data_out_done(old(session)@, pdu@, *old(device), *final(device), final(session)@, r),
{
    let data_out = match pdu.parse_scsi_data_out() {
        Ok(d) => d,
        Err(e) => {
            assert(handler_result(session@, Err(e), data_out_outcome(old(session)@, pdu@, false)));
            return Err(e);
        },
    };
    // Look up the pending write command
    let pending = match session.pending_writes.get(&data_out.itt) {
        Some(p) => *p,
        None => {
            let r = no_response();
            assert(handler_result(session@, r, data_out_outcome(old(session)@, pdu@, false)));
            return r;
        },
    };
    let block_size = pending.block_size;
    // The buffer offset counts from the start of the transfer
    let lba = data_out_lba(&pending, data_out.buffer_offset);
    let write_result = device.write(lba, data_out.data.as_slice(), block_size);
    assert(device_wrote(
        *old(device),
        data_out_block_address(old(session)@.pending_writes[pdu.itt], data_out_offset(pdu@)) as u64,
        pdu@.data,
        old(session)@.pending_writes[pdu.itt].block_size,
        write_result,
    ));
    let write_failed = write_result.is_err();
    // Bytes received: the buffer offset plus this PDU's data
    let expected_bytes = data_out.buffer_offset + (data_out.data.len() as u64 % 0x1_0000_0000) as u32;
    session.pending_writes.insert(data_out.itt, PendingWrite { bytes_received: expected_bytes, ..pending });
    if data_out.final_flag {
        // The final data PDU completes the write
        session.pending_writes.remove(&data_out.itt);
        let r = if write_failed {
            let sense = SenseData::medium_error();
            let sense_data = sense.to_bytes();
            send_response(session, data_out.itt, scsi_status::CHECK_CONDITION, Some(sense_data.as_slice()))
        } else {
            send_response(session, data_out.itt, scsi_status::GOOD, None)
        };
        proof {
            let o = data_out_outcome(old(session)@, pdu@, write_failed);
            assert(session@ =~= o.0);
            assert(handler_result(session@, r, o));
        }
        r
    } else {
        // More data expected, no response yet
        let r = no_response();
        proof {
            let o = data_out_outcome(old(session)@, pdu@, write_failed);
            assert(session@ =~= o.0);
            assert(handler_result(session@, r, o));
        }
        r
    }
}

impl ScsiResponse {
    /// The response's sense data as bytes.
    fn sense_bytes_opt(&self) -> (r: Option<Vec<u8>>)
        ensures
            match self.sense {
                Some(sd) => r matches Some(b) && b@ == sense_bytes(sd),
                None => r is None,
            },
    {
        match &self.sense {
            Some(s) => Some(s.to_bytes()),
            None => None,
        }
    }
}

/// The PDUs `ps` answer the task `itt`: each is a SCSI Response or a
/// Data-In PDU for that task, and a SCSI Response is final and reports the
/// command completed at the target (Response byte 0).
pub open spec fn answers_task(ps: Seq<PduView>, itt: u32) -> bool {
    forall|i: int|
        0 <= i < ps.len() ==> (#[trigger] ps[i]).itt == itt && (ps[i].opcode == 0x21 || ps[i].opcode == 0x25) && (
        ps[i].opcode == 0x21 ==> ps[i].specific[0] == 0 && bit7(ps[i].flags))
}

proof fn lemma_data_in_pdus_answer(
    s: SessionView,
    itt: u32,
    data: Seq<u8>,
    status: u8,
    seg: nat,
    offset: nat,
    data_sn: nat,
)
    ensures
        answers_task(data_in_pdus(s, itt, data, status, seg, offset, data_sn), itt),
    decreases data.len() - offset,
{
    let ps = data_in_pdus(s, itt, data, status, seg, offset, data_sn);
    if seg > 0 && offset < data.len() {
        let chunk = min_nat((data.len() - offset) as nat, seg);
        let rest = data_in_pdus(s, itt, data, status, seg, offset + chunk, data_sn + 1);
        lemma_data_in_pdus_answer(s, itt, data, status, seg, offset + chunk, data_sn + 1);
        assert forall|i: int| 0 < i < ps.len() implies ps[i] == rest[i - 1] by {}
    }
}

proof fn lemma_respond_once_answers(s: SessionView, itt: u32, status: u8, sense: Option<Seq<u8>>)
    ensures
        respond_once(s, itt, status, sense).1 matches Ok(ps) && answers_task(ps, itt) && ps.len() == 1
            && ps[0].specific[1] == status,
{
    let sp0 = put_byte(put_byte(crate::bytes::zeros(28), 0, 0), 1, status);
    pdu::lemma_sn_specific_fields(sp0, s.stat_sn, s.exp_cmd_sn, s.max_cmd_sn);
    let sp1 = pdu::sn_specific(sp0, s.stat_sn, s.exp_cmd_sn, s.max_cmd_sn);
    let sp = pdu::put(sp1, 20, 0, 4);
    crate::bytes::lemma_be_bytes_value(0, 4);
    assert(sp[0] == sp1.subrange(0, 4)[0] && sp[1] == sp1.subrange(0, 4)[1]);
    assert(bit7(pdu::flags::FINAL));
}

proof fn lemma_respond_answers(s: SessionView, p: PduView, resp: ScsiResponseView)
    ensures
        respond(s, p, resp).1 matches Ok(ps) && answers_task(ps, p.itt),
{
    if bit6(p.flags) && resp.data.len() > 0 {
        lemma_data_in_pdus_answer(s, p.itt, resp.data, resp.status, s.params.max_xmit_data_segment_length as nat, 0, 0);
    } else {
        lemma_respond_once_answers(
            s,
            p.itt,
            resp.status,
            match resp.sense {
                Some(sd) => Some(sense_bytes(sd)),
                None => None,
            },
        );
    }
}

/// What the target sends back for a SCSI command answers that command: for
/// every session, SCSI Command PDU `p` and device, every PDU that
/// `handle_scsi_command` returns carries `p`'s task tag and is a SCSI
/// Response or a Data-In PDU, and a SCSI Response is final and reports the
/// command completed at the target (Response byte 0); a command for a LUN
/// other than 0 gets exactly one SCSI Response with CHECK CONDITION.
pub proof fn lemma_scsi_command_answers_its_task<D: ScsiBlockDevice>(
    s: SessionView,
    p: PduView,
    before: D,
    after: D,
    s2: SessionView,
    r: ScsiResult<Vec<IscsiPdu>>,
)
    requires
        p.opcode == pdu::opcode::SCSI_COMMAND,
        scsi_command_done(s, p, before, after, s2, r),
    ensures
        r matches Ok(v) ==> answers_task(pdus_view(v@), p.itt),
        p.lun != 0 ==> (r matches Ok(v) && v@.len() == 1 && v@[0]@.opcode == 0x21 && v@[0]@.specific[1] == 2),
{
    let x = choose|x: CommandAnswers|
        command_answers_possible(p, x, before) && command_device_effect(p, x, before, after) && #[trigger] handler_result(
            s2,
            r,
            scsi_command_outcome(s, p, x),
        );
    if p.lun != 0 {
        lemma_respond_once_answers(
            s,
            p.itt,
            scsi_status::CHECK_CONDITION,
            Some(sense_bytes(sense_of(sense_key::ILLEGAL_REQUEST, asc::LOGICAL_UNIT_NOT_SUPPORTED, 0))),
        );
        let v = r->Ok_0;
        assert(pdus_view(v@)[0] == v@[0]@);
    } else {
        let s1 = after_cmd_sn(s, field(p.specific, 4, 4) as u32);
        let op = cdb_of(p)[0];
        if is_write_opcode(op) {
            lemma_respond_once_answers(s1, p.itt, scsi_status::CHECK_CONDITION, Some(sense_bytes(medium_error_sense())));
            lemma_respond_once_answers(s1, p.itt, scsi_status::GOOD, None);
        } else if is_sync_opcode(op) {
            lemma_respond_answers(s1, p, good_view(seq![]));
        } else {
            lemma_respond_answers(s1, p, x.response);
        }
    }
}

/// What the target sends back for a Data-Out PDU answers that task: for
/// every session, Data-Out PDU `p` and device, every PDU that
/// `handle_scsi_data_out` returns carries `p`'s task tag and is a final
/// SCSI Response reporting the command completed at the target.  Only the
/// final Data-Out of a pending write is answered, with one response whose
/// status is GOOD when writing its data succeeded and CHECK CONDITION when
/// it failed; any other Data-Out gets no answer.
pub proof fn lemma_data_out_answers_its_task<D: ScsiBlockDevice>(
    s: SessionView,
    p: PduView,
    before: D,
    after: D,
    s2: SessionView,
    r: ScsiResult<Vec<IscsiPdu>>,
)
    requires
        p.opcode == pdu::opcode::SCSI_DATA_OUT,
        data_out_done(s, p, before, after, s2, r),
    ensures
        r matches Ok(v) && answers_task(pdus_view(v@), p.itt),
        !(s.pending_writes.contains_key(p.itt) && bit7(p.flags)) ==> (r matches Ok(v) && v@.len() == 0),
        s.pending_writes.contains_key(p.itt) && bit7(p.flags) ==> (r matches Ok(v) && v@.len() == 1 && exists|
            w: ScsiResult<()>,
        |
            #[trigger] device_wrote(
                before,
                data_out_block_address(s.pending_writes[p.itt], data_out_offset(p)) as u64,
                p.data,
                s.pending_writes[p.itt].block_size,
                w,
            ) && v@[0]@.specific[1] == (if w is Err {
                2u8
            } else {
                0u8
            })),
{
    if s.pending_writes.contains_key(p.itt) {
        let pw = s.pending_writes[p.itt];
        let w = choose|w: ScsiResult<()>|
            #[trigger] device_wrote(before, data_out_block_address(pw, data_out_offset(p)) as u64, p.data, pw.block_size, w)
                && handler_result(s2, r, data_out_outcome(s, p, w is Err));
        let s1 = SessionView { pending_writes: s.pending_writes.remove(p.itt), ..s };
        lemma_respond_once_answers(s1, p.itt, scsi_status::CHECK_CONDITION, Some(sense_bytes(medium_error_sense())));
        lemma_respond_once_answers(s1, p.itt, scsi_status::GOOD, None);
        let v = r->Ok_0;
        assert(pdus_view(v@).len() == v@.len());
        if bit7(p.flags) {
            assert(pdus_view(v@)[0] == v@[0]@);
        }
    } else {
        let v = r->Ok_0;
        assert(pdus_view(v@).len() == v@.len());
    }
}

} // verus!
