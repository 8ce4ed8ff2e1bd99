//! SCSI block device trait and command handling
//!
//! This module defines the interface that storage backends must implement
//! and handles SCSI command processing per the SCSI Block Commands (SBC)
//! specification.

pub mod asc;
pub mod scsi_status;
pub mod sense_key;

use vstd::prelude::*;
use crate::bytes::{be_bytes, be_value, lemma_be_bytes_value, lemma_be_value_bound, lemma_pow256_values, read_be, read_be_u16, read_be_u32, write_be, zeros};
use crate::error::{IscsiError, ScsiResult};
use crate::text::{dec_chars, push_decimal};

verus! {

/// SCSI block device trait
///
/// Implement this trait to provide storage backend for the iSCSI target.
/// The trait is designed to be simple and focused on block-level operations.
pub trait ScsiBlockDevice: Send + Sync {
    /// Read blocks from the device
    ///
    /// Returns the requested data (length = blocks * block_size)
    fn read(&self, lba: u64, blocks: u32, block_size: u32) -> ScsiResult<Vec<u8>>;

    /// Write blocks to the device
    ///
    /// The length of `data` must be a multiple of `block_size`.
    fn write(&mut self, lba: u64, data: &[u8], block_size: u32) -> ScsiResult<()>;

    /// Get total capacity in logical blocks
    fn capacity(&self) -> u64;

    /// Get block size in bytes (typically 512 or 4096)
    fn block_size(&self) -> u32;

    /// Flush any pending writes to stable storage
    fn flush(&mut self) -> (r: ScsiResult<()>)
        default_ensures
            r is Ok,
    {
        Ok(())
    }

    /// Get vendor identification (8 chars max)
    fn vendor_id(&self) -> (r: &str)
        default_ensures
            r@ == "ISCSI   "@,
    {
        "ISCSI   "
    }

    /// Get product identification (16 chars max)
    fn product_id(&self) -> (r: &str)
        default_ensures
            r@ == "Virtual Disk    "@,
    {
        "Virtual Disk    "
    }

    /// Get product revision (4 chars max)
    fn product_rev(&self) -> (r: &str)
        default_ensures
            r@ == "1.0 "@,
    {
        "1.0 "
    }
}

/// `r` is a result that the device `before` can give when asked to write
/// `data` from block `lba` on, in blocks of `block_size` bytes.
pub open spec fn device_wrote<D: ScsiBlockDevice>(
    before: D,
    lba: u64,
    data: Seq<u8>,
    block_size: u32,
    r: ScsiResult<()>,
) -> bool {
    exists|d: &mut D, buf: &[u8]|
        *d == before && buf@ == data && #[trigger] call_ensures(D::write, (d, lba, buf, block_size), r)
}

/// `r` is a result that the device `before` can give when asked to flush.
pub open spec fn device_flushed<D: ScsiBlockDevice>(before: D, r: ScsiResult<()>) -> bool {
    exists|d: &mut D| *d == before && #[trigger] call_ensures(D::flush, (d,), r)
}

/// `size` is a block size that the device can report.
pub open spec fn device_block_size<D: ScsiBlockDevice + ?Sized>(device: &D, size: u32) -> bool {
    call_ensures(D::block_size, (device,), size)
}

/// `c` is a capacity, in blocks, that the device can report.
pub open spec fn device_capacity<D: ScsiBlockDevice + ?Sized>(device: &D, c: u64) -> bool {
    call_ensures(D::capacity, (device,), c)
}

/// `r` is a result that the device can give when asked to read `blocks`
/// blocks of `block_size` bytes from block `lba` on.
pub open spec fn device_read<D: ScsiBlockDevice + ?Sized>(
    device: &D,
    lba: u64,
    blocks: u32,
    block_size: u32,
    r: ScsiResult<Vec<u8>>,
) -> bool {
    call_ensures(D::read, (device, lba, blocks, block_size), r)
}

/// `b` are the bytes of a vendor identification the device can report.
pub open spec fn device_vendor_id<D: ScsiBlockDevice + ?Sized>(device: &D, b: Seq<u8>) -> bool {
    exists|id: &str| #[trigger] call_ensures(D::vendor_id, (device,), id) && vstd::utf8::encode_utf8(id@) == b
}

/// `b` are the bytes of a product identification the device can report.
pub open spec fn device_product_id<D: ScsiBlockDevice + ?Sized>(device: &D, b: Seq<u8>) -> bool {
    exists|id: &str| #[trigger] call_ensures(D::product_id, (device,), id) && vstd::utf8::encode_utf8(id@) == b
}

/// `b` are the bytes of a product revision the device can report.
pub open spec fn device_product_rev<D: ScsiBlockDevice + ?Sized>(device: &D, b: Seq<u8>) -> bool {
    exists|id: &str| #[trigger] call_ensures(D::product_rev, (device,), id) && vstd::utf8::encode_utf8(id@) == b
}

/// SCSI command opcodes (subset needed for basic block storage)
#[derive(Debug, Clone, Copy, PartialEq, Eq, Structural)]
pub enum ScsiOpcode {
    TestUnitReady,
    RequestSense,
    Inquiry,
    ModeSense6,
    StartStopUnit,
    ReadCapacity10,
    Read10,
    Write10,
    Verify10,
    SynchronizeCache10,
    ModeSense10,
    Read16,
    Write16,
    Verify16,
    SynchronizeCache16,
    /// READ CAPACITY (16) uses this
    ServiceActionIn16,
    ReportLuns,
}

// Keep the old enum name for backwards compatibility
pub type ScsiCommand = ScsiOpcode;

/// The command that an operation code names, if it is one of those handled.
pub open spec fn opcode_of(val: u8) -> Option<ScsiOpcode> {
    if val == 0x00 {
        Some(ScsiOpcode::TestUnitReady)
    } else if val == 0x03 {
        Some(ScsiOpcode::RequestSense)
    } else if val == 0x12 {
        Some(ScsiOpcode::Inquiry)
    } else if val == 0x1A {
        Some(ScsiOpcode::ModeSense6)
    } else if val == 0x1B {
        Some(ScsiOpcode::StartStopUnit)
    } else if val == 0x25 {
        Some(ScsiOpcode::ReadCapacity10)
    } else if val == 0x28 {
        Some(ScsiOpcode::Read10)
    } else if val == 0x2A {
        Some(ScsiOpcode::Write10)
    } else if val == 0x2F {
        Some(ScsiOpcode::Verify10)
    } else if val == 0x35 {
        Some(ScsiOpcode::SynchronizeCache10)
    } else if val == 0x5A {
        Some(ScsiOpcode::ModeSense10)
    } else if val == 0x88 {
        Some(ScsiOpcode::Read16)
    } else if val == 0x8A {
        Some(ScsiOpcode::Write16)
    } else if val == 0x8F {
        Some(ScsiOpcode::Verify16)
    } else if val == 0x91 {
        Some(ScsiOpcode::SynchronizeCache16)
    } else if val == 0x9E {
        Some(ScsiOpcode::ServiceActionIn16)
    } else if val == 0xA0 {
        Some(ScsiOpcode::ReportLuns)
    } else {
        None
    }
}

impl ScsiOpcode {
    pub fn from_u8(val: u8) -> (r: Option<Self>)
        ensures
            r == opcode_of(val),
    {
        match val {
            0x00 => Some(ScsiOpcode::TestUnitReady),
            0x03 => Some(ScsiOpcode::RequestSense),
            0x12 => Some(ScsiOpcode::Inquiry),
            0x1A => Some(ScsiOpcode::ModeSense6),
            0x1B => Some(ScsiOpcode::StartStopUnit),
            0x25 => Some(ScsiOpcode::ReadCapacity10),
            0x28 => Some(ScsiOpcode::Read10),
            0x2A => Some(ScsiOpcode::Write10),
            0x2F => Some(ScsiOpcode::Verify10),
            0x35 => Some(ScsiOpcode::SynchronizeCache10),
            0x5A => Some(ScsiOpcode::ModeSense10),
            0x88 => Some(ScsiOpcode::Read16),
            0x8A => Some(ScsiOpcode::Write16),
            0x8F => Some(ScsiOpcode::Verify16),
            0x91 => Some(ScsiOpcode::SynchronizeCache16),
            0x9E => Some(ScsiOpcode::ServiceActionIn16),
            0xA0 => Some(ScsiOpcode::ReportLuns),
            _ => None,
        }
    }

    /// The operation code of the command: `from_u8` gives the command back.
    pub fn code(&self) -> (r: u8)
        ensures
            opcode_of(r) == Some(*self),
    {
        match self {
            ScsiOpcode::TestUnitReady => 0x00,
            ScsiOpcode::RequestSense => 0x03,
            ScsiOpcode::Inquiry => 0x12,
            ScsiOpcode::ModeSense6 => 0x1A,
            ScsiOpcode::StartStopUnit => 0x1B,
            ScsiOpcode::ReadCapacity10 => 0x25,
            ScsiOpcode::Read10 => 0x28,
            ScsiOpcode::Write10 => 0x2A,
            ScsiOpcode::Verify10 => 0x2F,
            ScsiOpcode::SynchronizeCache10 => 0x35,
            ScsiOpcode::ModeSense10 => 0x5A,
            ScsiOpcode::Read16 => 0x88,
            ScsiOpcode::Write16 => 0x8A,
            ScsiOpcode::Verify16 => 0x8F,
            ScsiOpcode::SynchronizeCache16 => 0x91,
            ScsiOpcode::ServiceActionIn16 => 0x9E,
            ScsiOpcode::ReportLuns => 0xA0,
        }
    }
}

/// SCSI sense data (fixed format)
#[derive(Debug, Clone, Copy)]
pub struct SenseData {
    pub sense_key: u8,
    /// Additional Sense Code
    pub asc: u8,
    /// Additional Sense Code Qualifier
    pub ascq: u8,
    pub information: u32,
}

/// The 18 bytes of fixed-format sense data: response code 0x70, the sense
/// key in the low four bits of byte 2, the information field in bytes 3-6,
/// additional length 10 in byte 7, and ASC and ASCQ in bytes 12 and 13.
pub open spec fn sense_bytes(s: SenseData) -> Seq<u8> {
    seq![0x70u8, 0u8, s.sense_key % 16] + be_bytes(s.information as nat, 4) + seq![10u8] + zeros(4)
        + seq![s.asc, s.ascq] + zeros(4)
}

pub open spec fn sense_of(sense_key: u8, asc: u8, ascq: u8) -> SenseData {
    SenseData { sense_key, asc, ascq, information: 0 }
}

/// Sense data for a command that is not supported or not well formed.
pub open spec fn invalid_command_sense() -> SenseData {
    sense_of(sense_key::ILLEGAL_REQUEST, asc::INVALID_FIELD_IN_CDB, 0)
}

pub open spec fn lba_out_of_range_sense(lba: u32) -> SenseData {
    SenseData { information: lba, ..sense_of(sense_key::ILLEGAL_REQUEST, asc::LBA_OUT_OF_RANGE, 0) }
}

/// Unrecovered read error.
pub open spec fn medium_error_sense() -> SenseData {
    sense_of(sense_key::MEDIUM_ERROR, 0x11, 0x00)
}

impl SenseData {
    pub fn new(sense_key: u8, asc: u8, ascq: u8) -> (r: Self)
        ensures
            r == sense_of(sense_key, asc, ascq),
    {
        SenseData { sense_key, asc, ascq, information: 0 }
    }

    pub fn with_info(self, info: u32) -> (r: Self)
        ensures
            r == (SenseData { information: info, ..self }),
    {
        let mut s = self;
        s.information = info;
        s
    }

    /// Serialize to fixed format sense data (18 bytes)
    pub fn to_bytes(&self) -> (r: Vec<u8>)
        ensures
            r@ == sense_bytes(*self),
    {
        let mut data: Vec<u8> = Vec::new();
        data.push(0x70);
        data.push(0);
        data.push(self.sense_key % 16);
        let mut info = write_be(self.information as u64, 4);
        data.append(&mut info);
        data.push(10);
        push_zeros(&mut data, 4);
        data.push(self.asc);
        data.push(self.ascq);
        push_zeros(&mut data, 4);
        assert(data@ =~= sense_bytes(*self));
        data
    }

    /// Create sense data for invalid/unsupported command opcode
    pub fn invalid_command() -> (r: Self)
        ensures
            r == invalid_command_sense(),
    {
        SenseData::new(sense_key::ILLEGAL_REQUEST, asc::INVALID_FIELD_IN_CDB, 0)
    }

    /// Create sense data for LBA out of range
    pub fn lba_out_of_range(lba: u32) -> (r: Self)
        ensures
            r == lba_out_of_range_sense(lba),
    {
        SenseData::new(sense_key::ILLEGAL_REQUEST, asc::LBA_OUT_OF_RANGE, 0).with_info(lba)
    }

    /// Create sense data for medium error
    pub fn medium_error() -> (r: Self)
        ensures
            r == medium_error_sense(),
    {
        SenseData::new(sense_key::MEDIUM_ERROR, 0x11, 0x00)
    }

    /// Create sense data for write protected
    pub fn write_protected() -> (r: Self)
        ensures
            r == sense_of(sense_key::DATA_PROTECT, asc::WRITE_PROTECTED, 0),
    {
        SenseData::new(sense_key::DATA_PROTECT, asc::WRITE_PROTECTED, 0)
    }
}

/// Appends `n` zero bytes.
pub fn push_zeros(v: &mut Vec<u8>, n: usize)
    ensures
        final(v)@ == old(v)@ + zeros(n as nat),
{
    let mut i: usize = 0;
    while i < n
        invariant
            i <= n,
            v@ == old(v)@ + zeros(i as nat),
        decreases n - i,
    {
        v.push(0);
        i = i + 1;
        assert(v@ =~= old(v)@ + zeros(i as nat));
    }
}

/// Result of SCSI command execution
#[derive(Debug, Clone)]
pub struct ScsiResponse {
    /// SCSI status code
    pub status: u8,
    /// Response data (for read commands)
    pub data: Vec<u8>,
    /// Sense data (for CHECK CONDITION status)
    pub sense: Option<SenseData>,
}

/// A SCSI response as mathematical values.
pub struct ScsiResponseView {
    pub status: u8,
    pub data: Seq<u8>,
    pub sense: Option<SenseData>,
}

impl View for ScsiResponse {
    type V = ScsiResponseView;

    open spec fn view(&self) -> ScsiResponseView {
        ScsiResponseView { status: self.status, data: self.data@, sense: self.sense }
    }
}

pub open spec fn good_view(data: Seq<u8>) -> ScsiResponseView {
    ScsiResponseView { status: scsi_status::GOOD, data, sense: None }
}

pub open spec fn check_view(sense: SenseData) -> ScsiResponseView {
    ScsiResponseView { status: scsi_status::CHECK_CONDITION, data: seq![], sense: Some(sense) }
}

impl ScsiResponse {
    /// Create a GOOD status response with data
    pub fn good(data: Vec<u8>) -> (r: Self)
        ensures
            r@ == good_view(data@),
    {
        ScsiResponse { status: scsi_status::GOOD, data, sense: None }
    }

    /// Create a GOOD status response without data
    pub fn good_no_data() -> (r: Self)
        ensures
            r@ == good_view(seq![]),
    {
        ScsiResponse { status: scsi_status::GOOD, data: Vec::new(), sense: None }
    }

    /// Create a CHECK CONDITION response with sense data
    pub fn check_condition(sense: SenseData) -> (r: Self)
        ensures
            r@ == check_view(sense),
    {
        ScsiResponse { status: scsi_status::CHECK_CONDITION, data: Vec::new(), sense: Some(sense) }
    }
}

/// `s` cut to at most `n` bytes (an allocation length).
pub open spec fn trunc(s: Seq<u8>, n: nat) -> Seq<u8> {
    if n <= s.len() {
        s.take(n as int)
    } else {
        s
    }
}

/// `n` ASCII spaces.
pub open spec fn spaces(n: nat) -> Seq<u8> {
    Seq::new(n, |i: int| 32u8)
}

/// An identification field of width `w`: the first `w` bytes of `b`,
/// padded with spaces.
pub open spec fn id_field(b: Seq<u8>, w: nat) -> Seq<u8> {
    if b.len() >= w {
        b.take(w as int)
    } else {
        b + spaces((w - b.len()) as nat)
    }
}

/// What the device reports while a command runs: its geometry, its
/// identification strings as bytes, and the data a read returned (`None`
/// when the read failed).
pub struct DeviceAnswers {
    pub capacity: u64,
    pub block_size: u32,
    pub vendor: Seq<u8>,
    pub product: Seq<u8>,
    pub rev: Seq<u8>,
    pub read: Option<Seq<u8>>,
}

/// The data of a read, or `None` when it failed.
pub open spec fn read_data(r: ScsiResult<Vec<u8>>) -> Option<Seq<u8>> {
    match r {
        Ok(v) => Some(v@),
        Err(_) => None,
    }
}

/// The capacity and the block size are what the device reports.
pub open spec fn geometry_from<D: ScsiBlockDevice + ?Sized>(device: &D, a: DeviceAnswers) -> bool {
    device_capacity(device, a.capacity) && device_block_size(device, a.block_size)
}

/// The identification strings are the device's own.
pub open spec fn identity_from<D: ScsiBlockDevice + ?Sized>(device: &D, a: DeviceAnswers) -> bool {
    &&& device_vendor_id(device, a.vendor)
    &&& device_product_id(device, a.product)
    &&& device_product_rev(device, a.rev)
}

/// The answers a READ (10) or (16) goes by come from the device: for a
/// transfer of at least one block, the capacity; for a range inside it,
/// the block size and what reading exactly that range in blocks of that
/// size returned.
pub open spec fn read_answers_from<D: ScsiBlockDevice + ?Sized>(
    device: &D,
    cdb: Seq<u8>,
    sixteen: bool,
    a: DeviceAnswers,
) -> bool {
    let lba = rw_fields(cdb, sixteen).0;
    let n = rw_fields(cdb, sixteen).1;
    cdb.len() >= (if sixteen { 16int } else { 10int }) && n > 0 ==> {
        &&& device_capacity(device, a.capacity)
        &&& lba + n <= a.capacity ==> device_block_size(device, a.block_size) && exists|r: ScsiResult<Vec<u8>>|
            #[trigger] device_read(device, lba as u64, n as u32, a.block_size, r) && a.read == read_data(r)
    }
}

/// A read of the CDB's own range, with the capacity and block size the
/// device reported, supplies the answers a READ goes by.
proof fn lemma_read_answers<D: ScsiBlockDevice + ?Sized>(
    device: &D,
    cdb: Seq<u8>,
    sixteen: bool,
    a: DeviceAnswers,
    r: ScsiResult<Vec<u8>>,
)
    requires
        device_capacity(device, a.capacity),
        device_block_size(device, a.block_size),
        device_read(device, rw_fields(cdb, sixteen).0 as u64, rw_fields(cdb, sixteen).1 as u32, a.block_size, r),
        a.read == read_data(r),
    ensures
        read_answers_from(device, cdb, sixteen, a),
{
}

/// The answers a WRITE (10) or (16) goes by come from the device: for a
/// transfer of at least one block, the capacity, and for a range inside it
/// with data, the block size.
pub open spec fn write_answers_from<D: ScsiBlockDevice + ?Sized>(
    device: &D,
    cdb: Seq<u8>,
    sixteen: bool,
    write_data: Option<Seq<u8>>,
    a: DeviceAnswers,
) -> bool {
    let lba = rw_fields(cdb, sixteen).0;
    let n = rw_fields(cdb, sixteen).1;
    cdb.len() >= (if sixteen { 16int } else { 10int }) && n > 0 ==> {
        &&& device_capacity(device, a.capacity)
        &&& lba + n <= a.capacity && write_data is Some ==> device_block_size(device, a.block_size)
    }
}

/// Every answer a command's outcome goes by is one the device gave to the
/// call that asks for it.
pub open spec fn answers_from<D: ScsiBlockDevice + ?Sized>(
    device: &D,
    cdb: Seq<u8>,
    write_data: Option<Seq<u8>>,
    a: DeviceAnswers,
) -> bool {
    cdb.len() > 0 ==> match opcode_of(cdb[0]) {
        Some(ScsiOpcode::Inquiry) => identity_from(device, a),
        Some(ScsiOpcode::ReadCapacity10) => geometry_from(device, a),
        Some(ScsiOpcode::ServiceActionIn16) => cdb.len() >= 16 && cdb[1] % 32 == 0x10 ==> geometry_from(
            device,
            a,
        ),
        Some(ScsiOpcode::Read10) => read_answers_from(device, cdb, false, a),
        Some(ScsiOpcode::Read16) => read_answers_from(device, cdb, true, a),
        Some(ScsiOpcode::Write10) => write_answers_from(device, cdb, false, write_data, a),
        Some(ScsiOpcode::Write16) => write_answers_from(device, cdb, true, write_data, a),
        _ => true,
    }
}

/// The big-endian value of `n` bytes of the CDB from `off` on.
pub open spec fn cdb_field(cdb: Seq<u8>, off: int, n: int) -> nat {
    be_value(cdb.subrange(off, off + n))
}

pub open spec fn standard_inquiry_data(vendor: Seq<u8>, product: Seq<u8>, rev: Seq<u8>) -> Seq<u8> {
    seq![0x00u8, 0x00u8, 0x05u8, 0x12u8, 91u8, 0x00u8, 0x00u8, 0x02u8] + id_field(vendor, 8)
        + id_field(product, 16) + id_field(rev, 4) + zeros(60)
}

pub open spec fn vpd_page(page_code: u8) -> Option<Seq<u8>> {
    if page_code == 0x00 {
        Some(seq![0x00u8, 0x00u8, 0x00u8, 4u8, 0x00u8, 0x80u8, 0x83u8, 0xB0u8])
    } else if page_code == 0x80 {
        Some(seq![0x00u8, 0x80u8, 0x00u8, 16u8] + "ISCSI00000000001"@.map_values(|c: char| c as u8))
    } else if page_code == 0x83 {
        Some(
            seq![
                0x00u8, 0x83u8, 0x00u8, 12u8,
                0x01u8, 0x03u8, 0x00u8, 0x08u8,
                0x60u8, 0x00u8, 0x00u8, 0x00u8, 0x00u8, 0x00u8, 0x00u8, 0x01u8
            ],
        )
    } else if page_code == 0xB0 {
        Some(
            seq![0x00u8, 0xB0u8] + be_bytes(60, 2) + zeros(4) + be_bytes(65535, 4) + be_bytes(128, 4)
                + zeros(48),
        )
    } else {
        None
    }
}

pub open spec fn inquiry_outcome(cdb: Seq<u8>, a: DeviceAnswers) -> ScsiResponseView {
    if cdb.len() < 6 {
        check_view(invalid_command_sense())
    } else if cdb[1] % 2 == 1 {
        match vpd_page(cdb[2]) {
            Some(d) => good_view(trunc(d, cdb_field(cdb, 3, 2))),
            None => check_view(invalid_command_sense()),
        }
    } else {
        good_view(trunc(standard_inquiry_data(a.vendor, a.product, a.rev), cdb_field(cdb, 3, 2)))
    }
}

pub open spec fn last_lba(capacity: u64) -> nat {
    if capacity > 0 {
        (capacity - 1) as nat
    } else {
        0
    }
}

pub open spec fn read_capacity_10_data(capacity: u64, block_size: u32) -> Seq<u8> {
    be_bytes(
        if last_lba(capacity) > 0xFFFF_FFFE {
            0xFFFF_FFFFnat
        } else {
            last_lba(capacity)
        },
        4,
    ) + be_bytes(block_size as nat, 4)
}

pub open spec fn read_capacity_16_outcome(cdb: Seq<u8>, a: DeviceAnswers) -> ScsiResponseView {
    if cdb.len() < 16 || cdb[1] % 32 != 0x10 {
        check_view(invalid_command_sense())
    } else {
        good_view(
            trunc(
                be_bytes(last_lba(a.capacity), 8) + be_bytes(a.block_size as nat, 4) + zeros(20),
                cdb_field(cdb, 10, 4),
            ),
        )
    }
}

/// The block address and transfer length of a READ/WRITE (10) or (16) CDB.
pub open spec fn rw_fields(cdb: Seq<u8>, sixteen: bool) -> (nat, nat) {
    if sixteen {
        (cdb_field(cdb, 2, 8), cdb_field(cdb, 10, 4))
    } else {
        (cdb_field(cdb, 2, 4), cdb_field(cdb, 7, 2))
    }
}

pub open spec fn read_outcome(cdb: Seq<u8>, sixteen: bool, a: DeviceAnswers) -> ScsiResponseView {
    let (lba, len) = rw_fields(cdb, sixteen);
    if cdb.len() < (if sixteen { 16int } else { 10int }) {
        check_view(invalid_command_sense())
    } else if len == 0 {
        good_view(seq![])
    } else if lba + len > a.capacity {
        check_view(lba_out_of_range_sense((lba % 0x1_0000_0000) as u32))
    } else {
        match a.read {
            Some(d) => good_view(d),
            None => check_view(medium_error_sense()),
        }
    }
}

pub open spec fn write_outcome(
    cdb: Seq<u8>,
    sixteen: bool,
    a: DeviceAnswers,
    write_data: Option<Seq<u8>>,
) -> Result<ScsiResponseView, Seq<char>> {
    let (lba, len) = rw_fields(cdb, sixteen);
    if cdb.len() < (if sixteen { 16int } else { 10int }) {
        Ok(check_view(invalid_command_sense()))
    } else if len == 0 {
        Ok(good_view(seq![]))
    } else if lba + len > a.capacity {
        Ok(check_view(lba_out_of_range_sense((lba % 0x1_0000_0000) as u32)))
    } else {
        match write_data {
            None => Err("Write data required but not provided"@),
            Some(d) => if d.len() < len * a.block_size {
                Err(
                    "Write data too short: got "@ + dec_chars(d.len()) + ", need "@ + dec_chars(
                        (len * a.block_size) as nat,
                    ),
                )
            } else {
                Ok(good_view(seq![]))
            },
        }
    }
}

pub open spec fn mode_sense_6_outcome(cdb: Seq<u8>) -> ScsiResponseView {
    if cdb.len() < 6 {
        check_view(invalid_command_sense())
    } else {
        good_view(trunc(seq![3u8, 0u8, 0u8, 0u8], cdb[4] as nat))
    }
}

pub open spec fn mode_sense_10_outcome(cdb: Seq<u8>) -> ScsiResponseView {
    if cdb.len() < 10 {
        check_view(invalid_command_sense())
    } else {
        good_view(trunc(seq![0u8, 6u8, 0u8, 0u8, 0u8, 0u8, 0u8, 0u8], cdb_field(cdb, 7, 2)))
    }
}

pub open spec fn request_sense_outcome(cdb: Seq<u8>) -> ScsiResponseView {
    if cdb.len() < 6 {
        check_view(invalid_command_sense())
    } else {
        good_view(trunc(sense_bytes(sense_of(sense_key::NO_SENSE, asc::NO_ADDITIONAL_SENSE, 0)), cdb[4] as nat))
    }
}

pub open spec fn report_luns_outcome(cdb: Seq<u8>) -> ScsiResponseView {
    if cdb.len() < 12 {
        check_view(invalid_command_sense())
    } else {
        good_view(trunc(be_bytes(8, 4) + zeros(12), cdb_field(cdb, 6, 4)))
    }
}

/// What a command yields given the device's answers: the response, or the
/// message of the error it fails with.
pub open spec fn command_outcome(
    cdb: Seq<u8>,
    a: DeviceAnswers,
    write_data: Option<Seq<u8>>,
) -> Result<ScsiResponseView, Seq<char>> {
    if cdb.len() == 0 {
        Ok(check_view(invalid_command_sense()))
    } else {
        match opcode_of(cdb[0]) {
            Some(ScsiOpcode::TestUnitReady) => Ok(good_view(seq![])),
            Some(ScsiOpcode::Inquiry) => Ok(inquiry_outcome(cdb, a)),
            Some(ScsiOpcode::ReadCapacity10) => Ok(good_view(read_capacity_10_data(a.capacity, a.block_size))),
            Some(ScsiOpcode::ServiceActionIn16) => Ok(read_capacity_16_outcome(cdb, a)),
            Some(ScsiOpcode::Read10) => Ok(read_outcome(cdb, false, a)),
            Some(ScsiOpcode::Read16) => Ok(read_outcome(cdb, true, a)),
            Some(ScsiOpcode::Write10) => write_outcome(cdb, false, a, write_data),
            Some(ScsiOpcode::Write16) => write_outcome(cdb, true, a, write_data),
            Some(ScsiOpcode::ModeSense6) => Ok(mode_sense_6_outcome(cdb)),
            Some(ScsiOpcode::ModeSense10) => Ok(mode_sense_10_outcome(cdb)),
            Some(ScsiOpcode::RequestSense) => Ok(request_sense_outcome(cdb)),
            Some(ScsiOpcode::SynchronizeCache10) => Ok(good_view(seq![])),
            Some(ScsiOpcode::SynchronizeCache16) => Ok(good_view(seq![])),
            Some(ScsiOpcode::ReportLuns) => Ok(report_luns_outcome(cdb)),
            Some(ScsiOpcode::StartStopUnit) => Ok(good_view(seq![])),
            Some(ScsiOpcode::Verify10) => Ok(good_view(seq![])),
            Some(ScsiOpcode::Verify16) => Ok(good_view(seq![])),
            None => Ok(check_view(invalid_command_sense())),
        }
    }
}

/// Whether a READ (16) or WRITE (16) CDB names a block range whose end
/// does not fit in 64 bits (the addition that checks the range would
/// overflow).
pub open spec fn rw16_overflows(cdb: Seq<u8>) -> bool {
    &&& cdb.len() >= 16
    &&& (cdb[0] == 0x88 || cdb[0] == 0x8A)
    &&& cdb_field(cdb, 10, 4) != 0
    &&& cdb_field(cdb, 2, 8) + cdb_field(cdb, 10, 4) > u64::MAX
}

/// Whether a result is the outcome: the same response, or an `Scsi` error
/// with the same message.
pub open spec fn outcome_matches(
    r: ScsiResult<ScsiResponse>,
    o: Result<ScsiResponseView, Seq<char>>,
) -> bool {
    match o {
        Ok(v) => r matches Ok(x) && x@ == v,
        Err(m) => r matches Err(IscsiError::Scsi(x)) && x@ == m,
    }
}

pub open spec fn opt_bytes(d: Option<&[u8]>) -> Option<Seq<u8>> {
    match d {
        Some(s) => Some(s@),
        None => None,
    }
}

pub open spec fn no_answers() -> DeviceAnswers {
    DeviceAnswers {
        capacity: 0,
        block_size: 0,
        vendor: seq![],
        product: seq![],
        rev: seq![],
        read: None,
    }
}

/// Appends an identification field of width `w`.
fn push_id_field(v: &mut Vec<u8>, b: &[u8], w: usize)
    ensures
        final(v)@ == old(v)@ + id_field(b@, w as nat),
{
    let n = b.len();
    let mut i: usize = 0;
    while i < w
        invariant
            n == b@.len(),
            i <= w,
            v@ == old(v)@ + id_field(b@, w as nat).take(i as int),
        decreases w - i,
    {
        if i < n {
            v.push(b[i]);
        } else {
            v.push(32u8);
        }
        i = i + 1;
        assert(v@ =~= old(v)@ + id_field(b@, w as nat).take(i as int));
    }
    assert(id_field(b@, w as nat).take(w as int) =~= id_field(b@, w as nat));
}

/// A vector holding the given bytes.
fn bytes_vec(s: &[u8]) -> (r: Vec<u8>)
    ensures
        r@ == s@,
{
    vstd::slice::slice_to_vec(s)
}

/// SCSI Command Handler
pub struct ScsiHandler;

impl ScsiHandler {
    /// Handle a SCSI command and return response
    ///
    /// The response is the one that the command's outcome gives for what the
    /// device reported while it ran.
    pub fn handle_command<D: ScsiBlockDevice + ?Sized>(
        cdb: &[u8],
        device: &D,
        write_data: Option<&[u8]>,
    ) -> (r: ScsiResult<ScsiResponse>)
        requires
            !rw16_overflows(cdb@),
        ensures
            exists|a: DeviceAnswers|
                answers_from(device, cdb@, opt_bytes(write_data), a) && #[trigger] outcome_matches(
                    r,
                    command_outcome(cdb@, a, opt_bytes(write_data)),
                ),
    {
        if cdb.len() == 0 {
            let r = Ok(ScsiResponse::check_condition(SenseData::invalid_command()));
            assert(answers_from(device, cdb@, opt_bytes(write_data), no_answers()));
            assert(outcome_matches(r, command_outcome(cdb@, no_answers(), opt_bytes(write_data))));
            return r;
        }
        let opcode = cdb[0];
        let (r, answers) = match ScsiOpcode::from_u8(opcode) {
            Some(ScsiOpcode::TestUnitReady) => (Self::handle_test_unit_ready(), Ghost(no_answers())),
            Some(ScsiOpcode::Inquiry) => {
                let vendor = device.vendor_id();
                let product = device.product_id();
                let rev = device.product_rev();
                let vb = vendor.as_bytes();
                let pb = product.as_bytes();
                let rb = rev.as_bytes();
                let r = Self::handle_inquiry(cdb, vb, pb, rb);
                assert(device_vendor_id(device, vb@));
                assert(device_product_id(device, pb@));
                assert(device_product_rev(device, rb@));
                (r, Ghost(DeviceAnswers { vendor: vb@, product: pb@, rev: rb@, ..no_answers() }))
            },
            Some(ScsiOpcode::ReadCapacity10) => {
                let capacity = device.capacity();
                let block_size = device.block_size();
                (
                    Self::handle_read_capacity_10(capacity, block_size),
                    Ghost(DeviceAnswers { capacity, block_size, ..no_answers() }),
                )
            },
            Some(ScsiOpcode::ServiceActionIn16) => Self::handle_service_action_in_16(cdb, device),
            Some(ScsiOpcode::Read10) => Self::handle_read_10(cdb, device),
            Some(ScsiOpcode::Read16) => Self::handle_read_16(cdb, device),
            Some(ScsiOpcode::Write10) => Self::handle_write_10(cdb, device, write_data),
            Some(ScsiOpcode::Write16) => Self::handle_write_16(cdb, device, write_data),
            Some(ScsiOpcode::ModeSense6) => (Self::handle_mode_sense_6(cdb), Ghost(no_answers())),
            Some(ScsiOpcode::ModeSense10) => (Self::handle_mode_sense_10(cdb), Ghost(no_answers())),
            Some(ScsiOpcode::RequestSense) => (Self::handle_request_sense(cdb), Ghost(no_answers())),
            Some(ScsiOpcode::SynchronizeCache10) | Some(ScsiOpcode::SynchronizeCache16) => {
                (Self::handle_synchronize_cache(device), Ghost(no_answers()))
            },
            Some(ScsiOpcode::ReportLuns) => (Self::handle_report_luns(cdb), Ghost(no_answers())),
            Some(ScsiOpcode::StartStopUnit) => (Self::handle_start_stop_unit(cdb), Ghost(no_answers())),
            Some(ScsiOpcode::Verify10) | Some(ScsiOpcode::Verify16) => {
                // VERIFY without BYTCHK just checks the medium - always succeed
                (Ok(ScsiResponse::good_no_data()), Ghost(no_answers()))
            },
            None => {
                let sense = SenseData::invalid_command();
                (Ok(ScsiResponse::check_condition(sense)), Ghost(no_answers()))
            },
        };
        assert(answers_from(device, cdb@, opt_bytes(write_data), answers@));
        assert(outcome_matches(r, command_outcome(cdb@, answers@, opt_bytes(write_data))));
        r
    }

    /// Handle TEST UNIT READY (0x00)
    fn handle_test_unit_ready() -> (r: ScsiResult<ScsiResponse>)
        ensures
            r matches Ok(x) && x@ == good_view(seq![]),
    {
        // Device is always ready
        Ok(ScsiResponse::good_no_data())
    }

    /// Handle INQUIRY (0x12)
    fn handle_inquiry(cdb: &[u8], vendor: &[u8], product: &[u8], rev: &[u8]) -> (r: ScsiResult<
        ScsiResponse,
    >)
        requires
            cdb@.len() > 0,
        ensures
            r matches Ok(x) && x@ == inquiry_outcome(
                cdb@,
                DeviceAnswers { vendor: vendor@, product: product@, rev: rev@, ..no_answers() },
            ),
    {
        if cdb.len() < 6 {
            return Ok(ScsiResponse::check_condition(SenseData::invalid_command()));
        }
        let evpd = cdb[1] % 2;
        let page_code = cdb[2];
        let alloc_len = read_be_u16(cdb, 3) as usize;
        if evpd != 0 {
            // VPD page request
            return Self::handle_inquiry_vpd(page_code, alloc_len);
        }
        // Standard INQUIRY response
        let mut data: Vec<u8> = Vec::new();
        data.push(0x00);  // Peripheral device type: direct access block device
        data.push(0x00);  // Not removable
        data.push(0x05);  // Version: SPC-3
        data.push(0x12);  // Response data format 2, HiSup
        data.push(91);  // Additional length
        data.push(0x00);
        data.push(0x00);
        data.push(0x02);  // CmdQue
        push_id_field(&mut data, vendor, 8);
        push_id_field(&mut data, product, 16);
        push_id_field(&mut data, rev, 4);
        push_zeros(&mut data, 60);
        assert(data@ =~= standard_inquiry_data(vendor@, product@, rev@));
        data.truncate(alloc_len);
        Ok(ScsiResponse::good(data))
    }

    /// Handle INQUIRY VPD pages
    fn handle_inquiry_vpd(page_code: u8, alloc_len: usize) -> (r: ScsiResult<ScsiResponse>)
        ensures
            r matches Ok(x) && x@ == match vpd_page(page_code) {
                Some(d) => good_view(trunc(d, alloc_len as nat)),
                None => check_view(invalid_command_sense()),
            },
    {
        match page_code {
            0x00 => {
                // Supported VPD pages
                let mut data: Vec<u8> = Vec::new();
                data.push(0x00);
                data.push(0x00);
                data.push(0x00);
                data.push(4);
                data.push(0x00);
                data.push(0x80);
                data.push(0x83);
                data.push(0xB0);
                assert(data@ =~= vpd_page(0x00)->0);
                data.truncate(alloc_len);
                Ok(ScsiResponse::good(data))
            },
            0x80 => {
                // Unit Serial Number
                let mut data: Vec<u8> = Vec::new();
                data.push(0x00);
                data.push(0x80);
                data.push(0x00);
                data.push(16);
                let serial = "ISCSI00000000001";
                proof {
                    reveal_strlit("ISCSI00000000001");
                    vstd::string::is_ascii_spec_bytes(serial);
                }
                crate::bytes::extend_bytes(&mut data, serial.as_bytes());
                assert(data@ =~= vpd_page(0x80)->0);
                data.truncate(alloc_len);
                Ok(ScsiResponse::good(data))
            },
            0x83 => {
                // Device Identification: one NAA descriptor
                let mut data: Vec<u8> = Vec::new();
                data.push(0x00);
                data.push(0x83);
                data.push(0x00);
                data.push(0x00);
                data.push(0x01);
                data.push(0x03);
                data.push(0x00);
                data.push(0x08);
                data.push(0x60);
                push_zeros(&mut data, 6);
                data.push(0x01);
                // Page length
                let page_len = (data.len() - 4) as u8;
                data.set(3, page_len);
                assert(data@ =~= vpd_page(0x83)->0);
                data.truncate(alloc_len);
                Ok(ScsiResponse::good(data))
            },
            0xB0 => {
                // Block Limits
                let mut data: Vec<u8> = Vec::new();
                data.push(0x00);
                data.push(0xB0);
                let mut v = write_be(60, 2);
                data.append(&mut v);
                push_zeros(&mut data, 4);
                // Maximum transfer length (in blocks)
                let mut v = write_be(65535, 4);
                data.append(&mut v);
                // Optimal transfer length
                let mut v = write_be(128, 4);
                data.append(&mut v);
                push_zeros(&mut data, 48);
                assert(data@ =~= vpd_page(0xB0)->0);
                data.truncate(alloc_len);
                Ok(ScsiResponse::good(data))
            },
            _ => Ok(ScsiResponse::check_condition(SenseData::invalid_command())),
        }
    }

    /// Handle READ CAPACITY (10) - 0x25
    fn handle_read_capacity_10(capacity: u64, block_size: u32) -> (r: ScsiResult<ScsiResponse>)
        ensures
            r matches Ok(x) && x@ == good_view(read_capacity_10_data(capacity, block_size)),
    {
        let last_lba = if capacity > 0 {
            capacity - 1
        } else {
            0
        };
        // 0xFFFFFFFF signals that READ CAPACITY (16) is needed
        let last_lba_32: u32 = if last_lba > 0xFFFF_FFFE {
            0xFFFF_FFFF
        } else {
            last_lba as u32
        };
        let mut data = write_be(last_lba_32 as u64, 4);
        let mut v = write_be(block_size as u64, 4);
        data.append(&mut v);
        Ok(ScsiResponse::good(data))
    }

    /// Handle SERVICE ACTION IN (16) - includes READ CAPACITY 16
    fn handle_service_action_in_16<D: ScsiBlockDevice + ?Sized>(cdb: &[u8], device: &D) -> (r: (
        ScsiResult<ScsiResponse>,
        Ghost<DeviceAnswers>,
    ))
        ensures
            r.0 matches Ok(x) && x@ == read_capacity_16_outcome(cdb@, r.1@),
            cdb@.len() >= 16 && cdb@[1] % 32 == 0x10 ==> geometry_from(device, r.1@),
    {
        if cdb.len() < 16 {
            return (Ok(ScsiResponse::check_condition(SenseData::invalid_command())), Ghost(no_answers()));
        }
        let service_action = cdb[1] % 32;
        if service_action != 0x10 {
            // 0x10 = READ CAPACITY 16
            return (Ok(ScsiResponse::check_condition(SenseData::invalid_command())), Ghost(no_answers()));
        }
        let alloc_len = read_be_u32(cdb, 10) as usize;
        let capacity = device.capacity();
        let block_size = device.block_size();
        let last_lba = if capacity > 0 {
            capacity - 1
        } else {
            0
        };
        let mut data = write_be(last_lba, 8);
        let mut v = write_be(block_size as u64, 4);
        data.append(&mut v);
        push_zeros(&mut data, 20);
        data.truncate(alloc_len);
        (Ok(ScsiResponse::good(data)), Ghost(DeviceAnswers { capacity, block_size, ..no_answers() }))
    }

    /// The read handling shared by READ (10) and READ (16), once the CDB is decoded.
    fn read_blocks<D: ScsiBlockDevice + ?Sized>(
        cdb: Ghost<Seq<u8>>,
        sixteen: Ghost<bool>,
        lba: u64,
        transfer_length: u32,
        device: &D,
    ) -> (r: (ScsiResult<ScsiResponse>, Ghost<DeviceAnswers>))
        requires
            cdb@.len() >= (if sixteen@ { 16int } else { 10int }),
            rw_fields(cdb@, sixteen@) == (lba as nat, transfer_length as nat),
            lba + transfer_length <= u64::MAX,
        ensures
            r.0 matches Ok(x) && x@ == read_outcome(cdb@, sixteen@, r.1@),
            read_answers_from(device, cdb@, sixteen@, r.1@),
    {
        if transfer_length == 0 {
            return (Ok(ScsiResponse::good_no_data()), Ghost(no_answers()));
        }
        // Validate LBA range
        let capacity = device.capacity();
        if lba + transfer_length as u64 > capacity {
            return (
                Ok(ScsiResponse::check_condition(SenseData::lba_out_of_range((lba % 0x1_0000_0000) as u32))),
                Ghost(DeviceAnswers { capacity, ..no_answers() }),
            );
        }
        let block_size = device.block_size();
        let read = device.read(lba, transfer_length, block_size);
        assert(device_read(device, lba, transfer_length, block_size, read));
        match read {
            Ok(data) => {
                let ghost a = DeviceAnswers { capacity, block_size, read: Some(data@), ..no_answers() };
                proof {
                    lemma_read_answers(device, cdb@, sixteen@, a, read);
                }
                (Ok(ScsiResponse::good(data)), Ghost(a))
            },
            Err(_) => {
                let ghost a = DeviceAnswers { capacity, block_size, ..no_answers() };
                proof {
                    lemma_read_answers(device, cdb@, sixteen@, a, read);
                }
                (Ok(ScsiResponse::check_condition(SenseData::medium_error())), Ghost(a))
            },
        }
    }

    /// Handle READ (10) - 0x28
    fn handle_read_10<D: ScsiBlockDevice + ?Sized>(cdb: &[u8], device: &D) -> (r: (
        ScsiResult<ScsiResponse>,
        Ghost<DeviceAnswers>,
    ))
        ensures
            r.0 matches Ok(x) && x@ == read_outcome(cdb@, false, r.1@),
            read_answers_from(device, cdb@, false, r.1@),
    {
        if cdb.len() < 10 {
            return (Ok(ScsiResponse::check_condition(SenseData::invalid_command())), Ghost(no_answers()));
        }
        let lba = read_be_u32(cdb, 2) as u64;
        let transfer_length = read_be_u16(cdb, 7) as u32;
        Self::read_blocks(Ghost(cdb@), Ghost(false), lba, transfer_length, device)
    }

    /// Handle READ (16) - 0x88
    fn handle_read_16<D: ScsiBlockDevice + ?Sized>(cdb: &[u8], device: &D) -> (r: (
        ScsiResult<ScsiResponse>,
        Ghost<DeviceAnswers>,
    ))
        requires
            !rw16_overflows(cdb@),
            cdb@.len() > 0 && cdb@[0] == 0x88,
        ensures
            r.0 matches Ok(x) && x@ == read_outcome(cdb@, true, r.1@),
            read_answers_from(device, cdb@, true, r.1@),
    {
        if cdb.len() < 16 {
            return (Ok(ScsiResponse::check_condition(SenseData::invalid_command())), Ghost(no_answers()));
        }
        let lba = read_be(cdb, 2, 8);
        let transfer_length = read_be_u32(cdb, 10);
        if transfer_length == 0 {
            return (Ok(ScsiResponse::good_no_data()), Ghost(no_answers()));
        }
        Self::read_blocks(Ghost(cdb@), Ghost(true), lba, transfer_length, device)
    }

    /// The write handling shared by WRITE (10) and WRITE (16), once the CDB is decoded.
    fn check_write<D: ScsiBlockDevice + ?Sized>(
        cdb: Ghost<Seq<u8>>,
        sixteen: Ghost<bool>,
        lba: u64,
        transfer_length: u32,
        device: &D,
        write_data: Option<&[u8]>,
    ) -> (r: (ScsiResult<ScsiResponse>, Ghost<DeviceAnswers>))
        requires
            cdb@.len() >= (if sixteen@ { 16int } else { 10int }),
            rw_fields(cdb@, sixteen@) == (lba as nat, transfer_length as nat),
            lba + transfer_length <= u64::MAX,
        ensures
            outcome_matches(r.0, write_outcome(cdb@, sixteen@, r.1@, opt_bytes(write_data))),
            write_answers_from(device, cdb@, sixteen@, opt_bytes(write_data), r.1@),
    {
        if transfer_length == 0 {
            return (Ok(ScsiResponse::good_no_data()), Ghost(no_answers()));
        }
        // Validate LBA range
        let capacity = device.capacity();
        if lba + transfer_length as u64 > capacity {
            return (
                Ok(ScsiResponse::check_condition(SenseData::lba_out_of_range((lba % 0x1_0000_0000) as u32))),
                Ghost(DeviceAnswers { capacity, ..no_answers() }),
            );
        }
        // Check write data
        let data = match write_data {
            Some(d) => d,
            None => {
                return (
                    Err(IscsiError::Scsi("Write data required but not provided".to_string())),
                    Ghost(DeviceAnswers { capacity, ..no_answers() }),
                );
            },
        };
        let block_size = device.block_size();
        assert(transfer_length as nat * block_size as nat <= 0xFFFF_FFFF * 0xFFFF_FFFF) by (nonlinear_arith)
            requires
                transfer_length <= 0xFFFF_FFFF,
                block_size <= 0xFFFF_FFFF,
        ;
        let expected_len: u64 = transfer_length as u64 * block_size as u64;
        let got = data.len();
        if (got as u64) < expected_len {
            let mut m = "Write data too short: got ".to_string();
            push_decimal(&mut m, got as u64);
            m.append(", need ");
            push_decimal(&mut m, expected_len);
            return (Err(IscsiError::Scsi(m)), Ghost(DeviceAnswers { capacity, block_size, ..no_answers() }));
        }
        // The device is written by the target server, which holds it mutably;
        // here the request is only validated.
        (Ok(ScsiResponse::good_no_data()), Ghost(DeviceAnswers { capacity, block_size, ..no_answers() }))
    }

    /// Handle WRITE (10) - 0x2A
    fn handle_write_10<D: ScsiBlockDevice + ?Sized>(
        cdb: &[u8],
        device: &D,
        write_data: Option<&[u8]>,
    ) -> (r: (ScsiResult<ScsiResponse>, Ghost<DeviceAnswers>))
        ensures
            outcome_matches(r.0, write_outcome(cdb@, false, r.1@, opt_bytes(write_data))),
            write_answers_from(device, cdb@, false, opt_bytes(write_data), r.1@),
    {
        if cdb.len() < 10 {
            return (Ok(ScsiResponse::check_condition(SenseData::invalid_command())), Ghost(no_answers()));
        }
        let lba = read_be_u32(cdb, 2) as u64;
        let transfer_length = read_be_u16(cdb, 7) as u32;
        Self::check_write(Ghost(cdb@), Ghost(false), lba, transfer_length, device, write_data)
    }

    /// Handle WRITE (16) - 0x8A
    fn handle_write_16<D: ScsiBlockDevice + ?Sized>(
        cdb: &[u8],
        device: &D,
        write_data: Option<&[u8]>,
    ) -> (r: (ScsiResult<ScsiResponse>, Ghost<DeviceAnswers>))
        requires
            !rw16_overflows(cdb@),
            cdb@.len() > 0 && cdb@[0] == 0x8A,
        ensures
            outcome_matches(r.0, write_outcome(cdb@, true, r.1@, opt_bytes(write_data))),
            write_answers_from(device, cdb@, true, opt_bytes(write_data), r.1@),
    {
        if cdb.len() < 16 {
            return (Ok(ScsiResponse::check_condition(SenseData::invalid_command())), Ghost(no_answers()));
        }
        let lba = read_be(cdb, 2, 8);
        let transfer_length = read_be_u32(cdb, 10);
        if transfer_length == 0 {
            return (Ok(ScsiResponse::good_no_data()), Ghost(no_answers()));
        }
        Self::check_write(Ghost(cdb@), Ghost(true), lba, transfer_length, device, write_data)
    }

    /// Handle MODE SENSE (6) - 0x1A
    fn handle_mode_sense_6(cdb: &[u8]) -> (r: ScsiResult<ScsiResponse>)
        ensures
            r matches Ok(x) && x@ == mode_sense_6_outcome(cdb@),
    {
        if cdb.len() < 6 {
            return Ok(ScsiResponse::check_condition(SenseData::invalid_command()));
        }
        let alloc_len = cdb[4] as usize;
        // Minimal mode parameter header: mode data length 3, medium type,
        // device-specific parameter (not write protected), block descriptor length
        let mut data: Vec<u8> = Vec::new();
        data.push(3);
        data.push(0);
        data.push(0);
        data.push(0);
        assert(data@ =~= seq![3u8, 0u8, 0u8, 0u8]);
        data.truncate(alloc_len);
        Ok(ScsiResponse::good(data))
    }

    /// Handle MODE SENSE (10) - 0x5A
    fn handle_mode_sense_10(cdb: &[u8]) -> (r: ScsiResult<ScsiResponse>)
        ensures
            r matches Ok(x) && x@ == mode_sense_10_outcome(cdb@),
    {
        if cdb.len() < 10 {
            return Ok(ScsiResponse::check_condition(SenseData::invalid_command()));
        }
        let alloc_len = read_be_u16(cdb, 7) as usize;
        // Minimal mode parameter header (8 bytes): mode data length 6, the rest zero
        let mut data: Vec<u8> = Vec::new();
        data.push(0);
        data.push(6);
        push_zeros(&mut data, 6);
        assert(data@ =~= seq![0u8, 6u8, 0u8, 0u8, 0u8, 0u8, 0u8, 0u8]);
        data.truncate(alloc_len);
        Ok(ScsiResponse::good(data))
    }

    /// Handle REQUEST SENSE - 0x03
    fn handle_request_sense(cdb: &[u8]) -> (r: ScsiResult<ScsiResponse>)
        ensures
            r matches Ok(x) && x@ == request_sense_outcome(cdb@),
    {
        if cdb.len() < 6 {
            return Ok(ScsiResponse::check_condition(SenseData::invalid_command()));
        }
        let alloc_len = cdb[4] as usize;
        // Return "no sense" - no errors to report
        let sense = SenseData::new(sense_key::NO_SENSE, asc::NO_ADDITIONAL_SENSE, 0);
        let mut data = sense.to_bytes();
        data.truncate(alloc_len);
        Ok(ScsiResponse::good(data))
    }

    /// Handle SYNCHRONIZE CACHE - 0x35 / 0x91
    fn handle_synchronize_cache<D: ScsiBlockDevice + ?Sized>(_device: &D) -> (r: ScsiResult<ScsiResponse>)
        ensures
            r matches Ok(x) && x@ == good_view(seq![]),
    {
        // The flush itself happens at the target server, which holds the device mutably
        Ok(ScsiResponse::good_no_data())
    }

    /// Handle REPORT LUNS - 0xA0
    fn handle_report_luns(cdb: &[u8]) -> (r: ScsiResult<ScsiResponse>)
        ensures
            r matches Ok(x) && x@ == report_luns_outcome(cdb@),
    {
        if cdb.len() < 12 {
            return Ok(ScsiResponse::check_condition(SenseData::invalid_command()));
        }
        let alloc_len = read_be_u32(cdb, 6) as usize;
        // Report LUN 0 only: LUN list length 8, reserved, LUN 0
        let mut data = write_be(8, 4);
        push_zeros(&mut data, 12);
        data.truncate(alloc_len);
        Ok(ScsiResponse::good(data))
    }

    /// Handle START STOP UNIT - 0x1B
    fn handle_start_stop_unit(_cdb: &[u8]) -> (r: ScsiResult<ScsiResponse>)
        ensures
            r matches Ok(x) && x@ == good_view(seq![]),
    {
        // Accept but ignore start/stop commands
        Ok(ScsiResponse::good_no_data())
    }

    /// Parse LBA and transfer length from READ/WRITE 10 CDB
    pub fn parse_rw10_cdb(cdb: &[u8]) -> (r: Option<(u64, u32)>)
        ensures
            cdb@.len() < 10 ==> r is None,
            cdb@.len() >= 10 ==> r == Some((cdb_field(cdb@, 2, 4) as u64, cdb_field(cdb@, 7, 2) as u32)),
    {
        if cdb.len() < 10 {
            return None;
        }
        let lba = read_be_u32(cdb, 2) as u64;
        let length = read_be_u16(cdb, 7) as u32;
        Some((lba, length))
    }

    /// Parse LBA and transfer length from READ/WRITE 16 CDB
    pub fn parse_rw16_cdb(cdb: &[u8]) -> (r: Option<(u64, u32)>)
        ensures
            cdb@.len() < 16 ==> r is None,
            cdb@.len() >= 16 ==> r == Some((cdb_field(cdb@, 2, 8) as u64, cdb_field(cdb@, 10, 4) as u32)),
    {
        if cdb.len() < 16 {
            return None;
        }
        let lba = read_be(cdb, 2, 8);
        let length = read_be_u32(cdb, 10);
        Some((lba, length))
    }
}

/// REPORT LUNS lists exactly one logical unit, LUN 0: for every REPORT
/// LUNS CDB of full length and every device, the command succeeds with
/// GOOD status and no sense, and its parameter data, cut to the CDB's
/// allocation length (bytes 6..10), is 16 bytes whose LUN LIST LENGTH
/// (bytes 0..4, big-endian) is 8, one 8-byte entry, and whose entry
/// (bytes 8..16) is LUN 0, all zero.
pub proof fn lemma_report_luns_lists_lun_zero<D: ScsiBlockDevice + ?Sized>(
    device: &D,
    cdb: Seq<u8>,
    write_data: Option<Seq<u8>>,
    r: ScsiResult<ScsiResponse>,
)
    requires
        cdb.len() >= 12,
        cdb[0] == 0xA0,
        exists|a: DeviceAnswers|
            answers_from(device, cdb, write_data, a) && #[trigger] outcome_matches(
                r,
                command_outcome(cdb, a, write_data),
            ),
    ensures
        r matches Ok(x) && {
            let alloc = be_value(cdb.subrange(6, 10));
            &&& x@.status == 0
            &&& x@.sense is None
            &&& x@.data.len() == (if alloc < 16 {
                alloc
            } else {
                16
            })
            &&& forall|i: int| 0 <= i < x@.data.len() ==> #[trigger] x@.data[i] == (if i == 3 {
                8u8
            } else {
                0u8
            })
        },
{
    let a = choose|a: DeviceAnswers|
        answers_from(device, cdb, write_data, a) && #[trigger] outcome_matches(r, command_outcome(cdb, a, write_data));
    assert(opcode_of(cdb[0]) == Some(ScsiOpcode::ReportLuns));
    reveal_with_fuel(be_bytes, 5);
    let list = be_bytes(8, 4) + zeros(12);
    assert(list =~= seq![0u8, 0u8, 0u8, 8u8, 0u8, 0u8, 0u8, 0u8, 0u8, 0u8, 0u8, 0u8, 0u8, 0u8, 0u8, 0u8]);
}

/// `x` is what a read of `n` blocks from block `lba` answers on `device`:
/// GOOD with no data for no blocks; otherwise, against a capacity the
/// device reports, CHECK CONDITION with ILLEGAL REQUEST, LBA OUT OF RANGE
/// (0x21) and the block address in the information field for a range past
/// its end; for a range inside it, what reading exactly those blocks, in
/// blocks of a size the device reports, returned: GOOD with the data, or
/// CHECK CONDITION with MEDIUM ERROR, UNRECOVERED READ ERROR (0x11).
pub open spec fn serves_read<D: ScsiBlockDevice + ?Sized>(device: &D, lba: nat, n: nat, x: ScsiResponseView) -> bool {
    &&& n == 0 ==> x == (ScsiResponseView { status: 0, data: seq![], sense: None })
    &&& n > 0 ==> exists|cap: u64|
        #[trigger] device_capacity(device, cap) && if lba + n > cap {
            x == (ScsiResponseView {
                status: 2,
                data: seq![],
                sense: Some(
                    SenseData { sense_key: 5, asc: 0x21, ascq: 0, information: (lba % 0x1_0000_0000) as u32 },
                ),
            })
        } else {
            exists|bs: u32, rr: ScsiResult<Vec<u8>>|
                device_block_size(device, bs) && #[trigger] device_read(device, lba as u64, n as u32, bs, rr)
                    && x == match rr {
                    Ok(d) => ScsiResponseView { status: 0, data: d@, sense: None },
                    Err(_) => ScsiResponseView {
                        status: 2,
                        data: seq![],
                        sense: Some(SenseData { sense_key: 3, asc: 0x11, ascq: 0, information: 0 }),
                    },
                }
        }
}

proof fn lemma_read_outcome_serves<D: ScsiBlockDevice + ?Sized>(
    device: &D,
    cdb: Seq<u8>,
    sixteen: bool,
    lba: nat,
    n: nat,
    a: DeviceAnswers,
)
    requires
        cdb.len() >= (if sixteen { 16int } else { 10int }),
        rw_fields(cdb, sixteen) == (lba, n),
        read_answers_from(device, cdb, sixteen, a),
    ensures
        serves_read(device, lba, n, read_outcome(cdb, sixteen, a)),
{
    let x = read_outcome(cdb, sixteen, a);
    if n > 0 {
        assert(device_capacity(device, a.capacity));
        if lba + n <= a.capacity {
            let rr = choose|rr: ScsiResult<Vec<u8>>|
                #[trigger] device_read(device, lba as u64, n as u32, a.block_size, rr) && a.read == read_data(rr);
            assert(device_read(device, lba as u64, n as u32, a.block_size, rr));
            assert(device_block_size(device, a.block_size));
        }
    }
}

/// A READ (10) or READ (16) serves the device's own blocks: for every
/// device and every such CDB of full length, the command succeeds and its
/// response is what `serves_read` says of the block address and count read
/// from the CDB (bytes 2..6 and 7..9 for READ (10), 2..10 and 10..14 for
/// READ (16)).
pub proof fn lemma_read_serves_device_blocks<D: ScsiBlockDevice + ?Sized>(
    device: &D,
    cdb: Seq<u8>,
    write_data: Option<Seq<u8>>,
    r: ScsiResult<ScsiResponse>,
)
    requires
        (cdb.len() >= 10 && cdb[0] == 0x28) || (cdb.len() >= 16 && cdb[0] == 0x88),
        exists|a: DeviceAnswers|
            answers_from(device, cdb, write_data, a) && #[trigger] outcome_matches(
                r,
                command_outcome(cdb, a, write_data),
            ),
    ensures
        r matches Ok(x) && if cdb[0] == 0x88 {
            serves_read(device, be_value(cdb.subrange(2, 10)), be_value(cdb.subrange(10, 14)), x@)
        } else {
            serves_read(device, be_value(cdb.subrange(2, 6)), be_value(cdb.subrange(7, 9)), x@)
        },
{
    let a = choose|a: DeviceAnswers|
        answers_from(device, cdb, write_data, a) && #[trigger] outcome_matches(r, command_outcome(cdb, a, write_data));
    if cdb[0] == 0x88 {
        assert(opcode_of(cdb[0]) == Some(ScsiOpcode::Read16));
        lemma_read_outcome_serves(
            device,
            cdb,
            true,
            be_value(cdb.subrange(2, 10)),
            be_value(cdb.subrange(10, 14)),
            a,
        );
    } else {
        assert(opcode_of(cdb[0]) == Some(ScsiOpcode::Read10));
        lemma_read_outcome_serves(device, cdb, false, be_value(cdb.subrange(2, 6)), be_value(cdb.subrange(7, 9)), a);
    }
}

/// The bytes of a response cut to an allocation length: as many as the
/// allocation length allows of `full`, the byte at each place given by `b`.
pub open spec fn cut_bytes(data: Seq<u8>, full: nat, alloc: nat, b: spec_fn(int) -> u8) -> bool {
    &&& data.len() == (if alloc < full {
        alloc
    } else {
        full
    })
    &&& forall|i: int| 0 <= i < data.len() ==> #[trigger] data[i] == b(i)
}

/// The commands whose answer does not depend on the device.  TEST UNIT
/// READY, SYNCHRONIZE CACHE (10)/(16), START STOP UNIT and VERIFY (10)/(16)
/// succeed with GOOD and nothing else.  MODE SENSE (6) returns a 4-byte
/// header whose mode data length (byte 0) is 3 and all else zero, MODE
/// SENSE (10) an 8-byte header whose mode data length (bytes 0..2) is 6,
/// and REQUEST SENSE 18 bytes of fixed-format sense data, response code
/// 0x70 and additional length 10, reporting NO SENSE; each cut to the
/// CDB's allocation length (byte 4, bytes 7..9 and byte 4).  A CDB that is
/// empty or names an unsupported command gets CHECK CONDITION with ILLEGAL
/// REQUEST, INVALID FIELD IN CDB (0x24).
#[verifier::rlimit(40)]
pub proof fn lemma_device_free_answers<D: ScsiBlockDevice + ?Sized>(
    device: &D,
    cdb: Seq<u8>,
    write_data: Option<Seq<u8>>,
    r: ScsiResult<ScsiResponse>,
)
    requires
        exists|a: DeviceAnswers|
            answers_from(device, cdb, write_data, a) && #[trigger] outcome_matches(
                r,
                command_outcome(cdb, a, write_data),
            ),
    ensures
        cdb.len() > 0 && (cdb[0] == 0x00 || cdb[0] == 0x35 || cdb[0] == 0x91 || cdb[0] == 0x1B || cdb[0] == 0x2F
            || cdb[0] == 0x8F) ==> (r matches Ok(x) && x@ == (ScsiResponseView {
            status: 0,
            data: seq![],
            sense: None,
        })),
        cdb.len() >= 6 && cdb[0] == 0x1A ==> (r matches Ok(x) && x@.status == 0 && x@.sense is None && cut_bytes(
            x@.data,
            4,
            cdb[4] as nat,
            |i: int|
                if i == 0 {
                    3u8
                } else {
                    0u8
                },
        )),
        cdb.len() >= 10 && cdb[0] == 0x5A ==> (r matches Ok(x) && x@.status == 0 && x@.sense is None && cut_bytes(
            x@.data,
            8,
            be_value(cdb.subrange(7, 9)),
            |i: int|
                if i == 1 {
                    6u8
                } else {
                    0u8
                },
        )),
        cdb.len() >= 6 && cdb[0] == 0x03 ==> (r matches Ok(x) && x@.status == 0 && x@.sense is None && cut_bytes(
            x@.data,
            18,
            cdb[4] as nat,
            |i: int|
                if i == 0 {
                    0x70u8
                } else if i == 7 {
                    10u8
                } else {
                    0u8
                },
        )),
        cdb.len() == 0 || opcode_of(cdb[0]) is None ==> (r matches Ok(x) && x@ == (ScsiResponseView {
            status: 2,
            data: seq![],
            sense: Some(SenseData { sense_key: 5, asc: 0x24, ascq: 0, information: 0 }),
        })),
{
    let a = choose|a: DeviceAnswers|
        answers_from(device, cdb, write_data, a) && #[trigger] outcome_matches(r, command_outcome(cdb, a, write_data));
    reveal_with_fuel(be_bytes, 5);
    if cdb.len() >= 6 && cdb[0] == 0x03 {
        let d = sense_bytes(sense_of(0, 0, 0));
        assert(d =~= seq![0x70u8, 0, 0, 0, 0, 0, 0, 10, 0, 0, 0, 0, 0, 0, 0, 0, 0, 0]);
    }
}

/// The last block address a capacity gives, as READ CAPACITY reports it.
pub open spec fn last_block(cap: u64) -> nat {
    if cap == 0 {
        0
    } else {
        (cap - 1) as nat
    }
}

/// READ CAPACITY reports the device's geometry: for every device, READ
/// CAPACITY (10) answers GOOD with 8 bytes, the last block address (capacity
/// minus one, 0xFFFFFFFF when that does not fit below it) big-endian in bytes
/// 0..4 and the block size in bytes 4..8; READ CAPACITY (16) (service action
/// 0x10) answers GOOD with 32 bytes cut to the allocation length (bytes
/// 10..14), the last block address in bytes 0..8, the block size in bytes
/// 8..12 and zeros after; both for a capacity and a block size the device
/// reports.
#[verifier::rlimit(40)]
pub proof fn lemma_read_capacity_reports_geometry<D: ScsiBlockDevice + ?Sized>(
    device: &D,
    cdb: Seq<u8>,
    write_data: Option<Seq<u8>>,
    r: ScsiResult<ScsiResponse>,
)
    requires
        exists|a: DeviceAnswers|
            answers_from(device, cdb, write_data, a) && #[trigger] outcome_matches(
                r,
                command_outcome(cdb, a, write_data),
            ),
    ensures
        cdb.len() > 0 && cdb[0] == 0x25 ==> (r matches Ok(x) && x@.status == 0 && x@.sense is None
            && x@.data.len() == 8 && exists|cap: u64, bs: u32|
            #[trigger] device_capacity(device, cap) && #[trigger] device_block_size(device, bs) && be_value(
                x@.data.subrange(0, 4),
            ) == (if last_block(cap) > 0xFFFF_FFFE {
                0xFFFF_FFFFnat
            } else {
                last_block(cap)
            }) && be_value(x@.data.subrange(4, 8)) == bs),
        cdb.len() >= 16 && cdb[0] == 0x9E && cdb[1] % 32 == 0x10 ==> (r matches Ok(x) && x@.status == 0
            && x@.sense is None && x@.data.len() == (if be_value(cdb.subrange(10, 14)) < 32 {
            be_value(cdb.subrange(10, 14))
        } else {
            32
        }) && (forall|i: int| 12 <= i < x@.data.len() ==> #[trigger] x@.data[i] == 0) && exists|cap: u64, bs: u32|
            #[trigger] device_capacity(device, cap) && #[trigger] device_block_size(device, bs) && (x@.data.len() >= 12
                ==> be_value(x@.data.subrange(0, 8)) == last_block(cap) && be_value(x@.data.subrange(8, 12))
                == bs)),
{
    let a = choose|a: DeviceAnswers|
        answers_from(device, cdb, write_data, a) && #[trigger] outcome_matches(r, command_outcome(cdb, a, write_data));
    lemma_be_bytes_value(last_block(a.capacity), 8);
    lemma_be_bytes_value(a.block_size as nat, 4);
    lemma_pow256_values();
    assert(last_lba(a.capacity) == last_block(a.capacity));
    if cdb.len() > 0 && cdb[0] == 0x25 {
        assert(opcode_of(cdb[0]) == Some(ScsiOpcode::ReadCapacity10));
        let v = if last_block(a.capacity) > 0xFFFF_FFFE {
            0xFFFF_FFFFnat
        } else {
            last_block(a.capacity)
        };
        lemma_be_bytes_value(v, 4);
        let d = read_capacity_10_data(a.capacity, a.block_size);
        assert(d.subrange(0, 4) =~= be_bytes(v, 4));
        assert(d.subrange(4, 8) =~= be_bytes(a.block_size as nat, 4));
        assert(device_capacity(device, a.capacity) && device_block_size(device, a.block_size));
    }
    if cdb.len() >= 16 && cdb[0] == 0x9E && cdb[1] % 32 == 0x10 {
        assert(opcode_of(cdb[0]) == Some(ScsiOpcode::ServiceActionIn16));
        let full = be_bytes(last_lba(a.capacity), 8) + be_bytes(a.block_size as nat, 4) + zeros(20);
        let alloc = cdb_field(cdb, 10, 4);
        let x = r->Ok_0;
        assert(x@.data == trunc(full, alloc));
        assert(full.len() == 32);
        if x@.data.len() >= 12 {
            assert(x@.data.subrange(0, 8) =~= be_bytes(last_lba(a.capacity), 8));
            assert(x@.data.subrange(8, 12) =~= be_bytes(a.block_size as nat, 4));
        }
        assert forall|i: int| 12 <= i < x@.data.len() implies #[trigger] x@.data[i] == 0 by {
            assert(x@.data[i] == full[i]);
        }
        assert(device_capacity(device, a.capacity) && device_block_size(device, a.block_size));
    }
}

/// Standard INQUIRY names the device as the device names itself: for every
/// device and every INQUIRY CDB of full length without the EVPD bit, the
/// answer is GOOD with 96 bytes cut to the allocation length (bytes 3..5):
/// a direct-access block device (byte 0 zero), SPC-3 (byte 2 is 5), response
/// format 2 with HiSup (byte 3 is 0x12), additional length 91 (byte 4),
/// command queuing (byte 7 is 2); then the vendor, product and revision
/// strings that the device reports, in 8, 16 and 4 bytes, cut or padded
/// with spaces; then zeros.
#[verifier::rlimit(40)]
pub proof fn lemma_inquiry_names_the_device<D: ScsiBlockDevice + ?Sized>(
    device: &D,
    cdb: Seq<u8>,
    write_data: Option<Seq<u8>>,
    r: ScsiResult<ScsiResponse>,
)
    requires
        cdb.len() >= 6,
        cdb[0] == 0x12,
        cdb[1] % 2 == 0,
        exists|a: DeviceAnswers|
            answers_from(device, cdb, write_data, a) && #[trigger] outcome_matches(
                r,
                command_outcome(cdb, a, write_data),
            ),
    ensures
        r matches Ok(x) && x@.status == 0 && x@.sense is None && x@.data.len() == (if be_value(
            cdb.subrange(3, 5),
        ) < 96 {
            be_value(cdb.subrange(3, 5))
        } else {
            96
        }) && exists|v: Seq<u8>, p: Seq<u8>, rv: Seq<u8>|
            #[trigger] device_vendor_id(device, v) && #[trigger] device_product_id(device, p) && #[trigger] device_product_rev(device, rv)
                && forall|i: int|
                0 <= i < x@.data.len() ==> #[trigger] x@.data[i] == if i == 2 {
                    5u8
                } else if i == 3 {
                    0x12u8
                } else if i == 4 {
                    91u8
                } else if i == 7 {
                    2u8
                } else if 8 <= i < 16 {
                    if i - 8 < v.len() {
                        v[i - 8]
                    } else {
                        32u8
                    }
                } else if 16 <= i < 32 {
                    if i - 16 < p.len() {
                        p[i - 16]
                    } else {
                        32u8
                    }
                } else if 32 <= i < 36 {
                    if i - 32 < rv.len() {
                        rv[i - 32]
                    } else {
                        32u8
                    }
                } else {
                    0u8
                },
{
    let a = choose|a: DeviceAnswers|
        answers_from(device, cdb, write_data, a) && #[trigger] outcome_matches(r, command_outcome(cdb, a, write_data));
    assert(opcode_of(cdb[0]) == Some(ScsiOpcode::Inquiry));
    let full = standard_inquiry_data(a.vendor, a.product, a.rev);
    let x = r->Ok_0;
    assert(x@.data == trunc(full, cdb_field(cdb, 3, 2)));
    let h = seq![0x00u8, 0x00u8, 0x05u8, 0x12u8, 91u8, 0x00u8, 0x00u8, 0x02u8];
    let iv = id_field(a.vendor, 8);
    let ip = id_field(a.product, 16);
    let ir = id_field(a.rev, 4);
    assert(full == h + iv + ip + ir + zeros(60));
    assert forall|i: int| 0 <= i < x@.data.len() implies #[trigger] x@.data[i] == if i == 2 {
        5u8
    } else if i == 3 {
        0x12u8
    } else if i == 4 {
        91u8
    } else if i == 7 {
        2u8
    } else if 8 <= i < 16 {
        if i - 8 < a.vendor.len() {
            a.vendor[i - 8]
        } else {
            32u8
        }
    } else if 16 <= i < 32 {
        if i - 16 < a.product.len() {
            a.product[i - 16]
        } else {
            32u8
        }
    } else if 32 <= i < 36 {
        if i - 32 < a.rev.len() {
            a.rev[i - 32]
        } else {
            32u8
        }
    } else {
        0u8
    } by {
        assert(x@.data[i] == full[i]);
        if i < 8 {
            assert(full[i] == h[i]);
        } else if i < 16 {
            assert(full[i] == iv[i - 8]);
        } else if i < 32 {
            assert(full[i] == ip[i - 16]);
        } else if i < 36 {
            assert(full[i] == ir[i - 32]);
        } else {
            assert(full[i] == zeros(60)[i - 36]);
        }
    }
    assert(device_vendor_id(device, a.vendor));
}

/// `r` is what a WRITE of `n` blocks from block `lba`, with the data
/// `write_data`, answers on `device` (the data itself is written by the
/// target, not here): GOOD for no blocks; otherwise, against a capacity the
/// device reports, CHECK CONDITION with ILLEGAL REQUEST, LBA OUT OF RANGE
/// (0x21) and the block address for a range past its end; for a range
/// inside it an error when no data came, or less than `n` blocks of a size
/// the device reports, and GOOD otherwise.
pub open spec fn serves_write<D: ScsiBlockDevice + ?Sized>(
    device: &D,
    lba: nat,
    n: nat,
    write_data: Option<Seq<u8>>,
    r: ScsiResult<ScsiResponse>,
) -> bool {
    &&& n == 0 ==> (r matches Ok(x) && x@ == (ScsiResponseView { status: 0, data: seq![], sense: None }))
    &&& n > 0 ==> exists|cap: u64|
        #[trigger] device_capacity(device, cap) && if lba + n > cap {
            r matches Ok(x) && x@ == (ScsiResponseView {
                status: 2,
                data: seq![],
                sense: Some(
                    SenseData { sense_key: 5, asc: 0x21, ascq: 0, information: (lba % 0x1_0000_0000) as u32 },
                ),
            })
        } else {
            match write_data {
                None => r matches Err(IscsiError::Scsi(_)),
                Some(d) => exists|bs: u32|
                    #[trigger] device_block_size(device, bs) && if d.len() < n * bs {
                        r matches Err(IscsiError::Scsi(_))
                    } else {
                        r matches Ok(x) && x@ == (ScsiResponseView { status: 0, data: seq![], sense: None })
                    },
            }
        }
}

proof fn lemma_write_outcome_serves<D: ScsiBlockDevice + ?Sized>(
    device: &D,
    cdb: Seq<u8>,
    sixteen: bool,
    lba: nat,
    n: nat,
    write_data: Option<Seq<u8>>,
    a: DeviceAnswers,
    r: ScsiResult<ScsiResponse>,
)
    requires
        cdb.len() >= (if sixteen { 16int } else { 10int }),
        rw_fields(cdb, sixteen) == (lba, n),
        write_answers_from(device, cdb, sixteen, write_data, a),
        outcome_matches(r, write_outcome(cdb, sixteen, a, write_data)),
    ensures
        serves_write(device, lba, n, write_data, r),
{
    if n > 0 {
        assert(device_capacity(device, a.capacity));
        if lba + n <= a.capacity && write_data is Some {
            assert(device_block_size(device, a.block_size));
        }
    }
}

/// A WRITE (10) or WRITE (16) is checked against the device: for every
/// device, every such CDB of full length and any data, the handler's answer
/// is what `serves_write` says of the block address and count read from
/// the CDB (bytes 2..6 and 7..9 for WRITE (10), 2..10 and 10..14 for
/// WRITE (16)).
pub proof fn lemma_write_checked_against_device<D: ScsiBlockDevice + ?Sized>(
    device: &D,
    cdb: Seq<u8>,
    write_data: Option<Seq<u8>>,
    r: ScsiResult<ScsiResponse>,
)
    requires
        (cdb.len() >= 10 && cdb[0] == 0x2A) || (cdb.len() >= 16 && cdb[0] == 0x8A),
        exists|a: DeviceAnswers|
            answers_from(device, cdb, write_data, a) && #[trigger] outcome_matches(
                r,
                command_outcome(cdb, a, write_data),
            ),
    ensures
        if cdb[0] == 0x8A {
            serves_write(device, be_value(cdb.subrange(2, 10)), be_value(cdb.subrange(10, 14)), write_data, r)
        } else {
            serves_write(device, be_value(cdb.subrange(2, 6)), be_value(cdb.subrange(7, 9)), write_data, r)
        },
{
    let a = choose|a: DeviceAnswers|
        answers_from(device, cdb, write_data, a) && #[trigger] outcome_matches(r, command_outcome(cdb, a, write_data));
    if cdb[0] == 0x8A {
        assert(opcode_of(cdb[0]) == Some(ScsiOpcode::Write16));
        lemma_write_outcome_serves(
            device,
            cdb,
            true,
            be_value(cdb.subrange(2, 10)),
            be_value(cdb.subrange(10, 14)),
            write_data,
            a,
            r,
        );
    } else {
        assert(opcode_of(cdb[0]) == Some(ScsiOpcode::Write10));
        lemma_write_outcome_serves(
            device,
            cdb,
            false,
            be_value(cdb.subrange(2, 6)),
            be_value(cdb.subrange(7, 9)),
            write_data,
            a,
            r,
        );
    }
}

/// Sense data in fixed format (SPC-3 4.5.3): for every `SenseData`, the
/// bytes that `to_bytes` gives, and that a CHECK CONDITION carries, are 18
/// long: response code 0x70 (current error, fixed format) in byte 0, the
/// sense key in the low four bits of byte 2, the information field
/// big-endian in bytes 3..7, additional sense length 10 in byte 7, the ASC
/// and ASCQ in bytes 12 and 13, and zeros elsewhere.
pub proof fn lemma_sense_data_layout(sd: SenseData, b: Seq<u8>)
    requires
        b == sense_bytes(sd),
    ensures
        b.len() == 18,
        b[0] == 0x70,
        b[1] == 0,
        b[2] == sd.sense_key % 16,
        be_value(b.subrange(3, 7)) == sd.information,
        b[7] == 10,
        b.subrange(8, 12) == zeros(4),
        b[12] == sd.asc,
        b[13] == sd.ascq,
        b.subrange(14, 18) == zeros(4),
{
    lemma_be_bytes_value(sd.information as nat, 4);
    lemma_pow256_values();
    assert(b.subrange(3, 7) =~= be_bytes(sd.information as nat, 4));
    assert(b.subrange(8, 12) =~= zeros(4));
    assert(b.subrange(14, 18) =~= zeros(4));
}

} // verus!
