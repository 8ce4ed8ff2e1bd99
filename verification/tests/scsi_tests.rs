//! SCSI command handling over a block device.

use byteorder::{BigEndian, ByteOrder};
use iscsi_target::scsi::{asc, scsi_status, sense_key, ScsiHandler, ScsiOpcode, SenseData};
use iscsi_target::{IscsiError, ScsiBlockDevice, ScsiResult};

/// Mock device for testing
struct MockDevice {
    capacity: u64,
    block_size: u32,
    data: Vec<u8>,
}

impl MockDevice {
    fn new(capacity: u64, block_size: u32) -> Self {
        let size = (capacity * block_size as u64) as usize;
        MockDevice { capacity, block_size, data: vec![0u8; size] }
    }
}

impl ScsiBlockDevice for MockDevice {
    fn read(&self, lba: u64, blocks: u32, block_size: u32) -> ScsiResult<Vec<u8>> {
        let offset = (lba * block_size as u64) as usize;
        let len = (blocks * block_size) as usize;
        Ok(self.data[offset..offset + len].to_vec())
    }

    fn write(&mut self, lba: u64, data: &[u8], block_size: u32) -> ScsiResult<()> {
        let offset = (lba * block_size as u64) as usize;
        self.data[offset..offset + data.len()].copy_from_slice(data);
        Ok(())
    }

    fn capacity(&self) -> u64 {
        self.capacity
    }

    fn block_size(&self) -> u32 {
        self.block_size
    }
}

#[test]
fn test_test_unit_ready() {
    let device = MockDevice::new(1000, 512);
    let cdb = [0x00, 0, 0, 0, 0, 0];
    let response = ScsiHandler::handle_command(&cdb, &device, None).unwrap();
    assert_eq!(response.status, scsi_status::GOOD);
}

#[test]
fn test_inquiry() {
    let device = MockDevice::new(1000, 512);
    let cdb = [0x12, 0, 0, 0, 96, 0]; // INQUIRY, alloc_len=96
    let response = ScsiHandler::handle_command(&cdb, &device, None).unwrap();
    assert_eq!(response.status, scsi_status::GOOD);
    assert!(!response.data.is_empty());
    assert_eq!(response.data[0], 0x00); // Block device
}

#[test]
fn test_inquiry_vpd_supported_pages() {
    let device = MockDevice::new(1000, 512);
    let cdb = [0x12, 0x01, 0x00, 0, 255, 0]; // INQUIRY VPD page 0
    let response = ScsiHandler::handle_command(&cdb, &device, None).unwrap();
    assert_eq!(response.status, scsi_status::GOOD);
    assert_eq!(response.data[1], 0x00); // Page code 0
}

#[test]
fn test_read_capacity_10() {
    let device = MockDevice::new(1000, 512);
    let cdb = [0x25, 0, 0, 0, 0, 0, 0, 0, 0, 0];
    let response = ScsiHandler::handle_command(&cdb, &device, None).unwrap();
    assert_eq!(response.status, scsi_status::GOOD);
    assert_eq!(response.data.len(), 8);

    let last_lba = BigEndian::read_u32(&response.data[0..4]);
    let block_size = BigEndian::read_u32(&response.data[4..8]);
    assert_eq!(last_lba, 999); // 1000 blocks, last LBA is 999
    assert_eq!(block_size, 512);
}

#[test]
fn test_read_capacity_16() {
    let device = MockDevice::new(1000, 512);
    let cdb = [0x9E, 0x10, 0, 0, 0, 0, 0, 0, 0, 0, 0, 0, 0, 32, 0, 0];
    let response = ScsiHandler::handle_command(&cdb, &device, None).unwrap();
    assert_eq!(response.status, scsi_status::GOOD);

    let last_lba = BigEndian::read_u64(&response.data[0..8]);
    let block_size = BigEndian::read_u32(&response.data[8..12]);
    assert_eq!(last_lba, 999);
    assert_eq!(block_size, 512);
}

#[test]
fn test_read_10() {
    let device = MockDevice::new(1000, 512);
    // READ(10): LBA=0, transfer_length=1
    let cdb = [0x28, 0, 0, 0, 0, 0, 0, 0, 1, 0];
    let response = ScsiHandler::handle_command(&cdb, &device, None).unwrap();
    assert_eq!(response.status, scsi_status::GOOD);
    assert_eq!(response.data.len(), 512);
}

#[test]
fn test_read_10_out_of_range() {
    let device = MockDevice::new(100, 512);
    // READ(10): LBA=200 (out of range)
    let cdb = [0x28, 0, 0, 0, 0, 200, 0, 0, 1, 0];
    let response = ScsiHandler::handle_command(&cdb, &device, None).unwrap();
    assert_eq!(response.status, scsi_status::CHECK_CONDITION);
    assert!(response.sense.is_some());
}

#[test]
fn test_mode_sense_6() {
    let device = MockDevice::new(1000, 512);
    let cdb = [0x1A, 0, 0x3F, 0, 255, 0];
    let response = ScsiHandler::handle_command(&cdb, &device, None).unwrap();
    assert_eq!(response.status, scsi_status::GOOD);
}

#[test]
fn test_mode_sense_10() {
    let device = MockDevice::new(1000, 512);
    let cdb = [0x5A, 0, 0x3F, 0, 0, 0, 0, 0, 255, 0];
    let response = ScsiHandler::handle_command(&cdb, &device, None).unwrap();
    assert_eq!(response.status, scsi_status::GOOD);
}

#[test]
fn test_report_luns() {
    let device = MockDevice::new(1000, 512);
    let cdb = [0xA0, 0, 0, 0, 0, 0, 0, 0, 0, 16, 0, 0];
    let response = ScsiHandler::handle_command(&cdb, &device, None).unwrap();
    assert_eq!(response.status, scsi_status::GOOD);
    assert_eq!(response.data.len(), 16);
}

#[test]
fn test_request_sense() {
    let device = MockDevice::new(1000, 512);
    let cdb = [0x03, 0, 0, 0, 18, 0];
    let response = ScsiHandler::handle_command(&cdb, &device, None).unwrap();
    assert_eq!(response.status, scsi_status::GOOD);
    assert_eq!(response.data.len(), 18);
}

#[test]
fn test_synchronize_cache() {
    let device = MockDevice::new(1000, 512);
    let cdb = [0x35, 0, 0, 0, 0, 0, 0, 0, 0, 0];
    let response = ScsiHandler::handle_command(&cdb, &device, None).unwrap();
    assert_eq!(response.status, scsi_status::GOOD);
}

#[test]
fn test_unsupported_command() {
    let device = MockDevice::new(1000, 512);
    let cdb = [0xFF, 0, 0, 0, 0, 0]; // Invalid opcode
    let response = ScsiHandler::handle_command(&cdb, &device, None).unwrap();
    assert_eq!(response.status, scsi_status::CHECK_CONDITION);
    assert!(response.sense.is_some());
    let sense = response.sense.unwrap();
    assert_eq!(sense.sense_key, sense_key::ILLEGAL_REQUEST);
    assert_eq!(sense.asc, asc::INVALID_FIELD_IN_CDB);
    // Verify sense data serialization
    let sense_bytes = sense.to_bytes();
    assert_eq!(sense_bytes[2], sense_key::ILLEGAL_REQUEST);
    assert_eq!(sense_bytes[12], asc::INVALID_FIELD_IN_CDB);
}

#[test]
fn test_sense_data_serialization() {
    let sense = SenseData::new(sense_key::ILLEGAL_REQUEST, asc::INVALID_FIELD_IN_CDB, 0);
    let data = sense.to_bytes();
    assert_eq!(data.len(), 18);
    assert_eq!(data[0], 0x70); // Current error, fixed format
    assert_eq!(data[2], sense_key::ILLEGAL_REQUEST);
    assert_eq!(data[12], asc::INVALID_FIELD_IN_CDB);
}

#[test]
fn test_parse_rw10_cdb() {
    let cdb = [0x28, 0, 0, 0, 0, 100, 0, 0, 10, 0]; // LBA=100, length=10
    let (lba, length) = ScsiHandler::parse_rw10_cdb(&cdb).unwrap();
    assert_eq!(lba, 100);
    assert_eq!(length, 10);
}

#[test]
fn test_parse_rw16_cdb() {
    let cdb = [
        0x88, 0, 0, 0, 0, 0, 0, 0, 0, 100, // LBA=100
        0, 0, 0, 10, // length=10
        0, 0,
    ];
    let (lba, length) = ScsiHandler::parse_rw16_cdb(&cdb).unwrap();
    assert_eq!(lba, 100);
    assert_eq!(length, 10);
}

#[test]
fn test_start_stop_unit() {
    let device = MockDevice::new(1000, 512);
    let cdb = [0x1B, 0, 0, 0, 0, 0];
    let response = ScsiHandler::handle_command(&cdb, &device, None).unwrap();
    assert_eq!(response.status, scsi_status::GOOD);
}

#[test]
fn test_verify() {
    let device = MockDevice::new(1000, 512);
    let cdb = [0x2F, 0, 0, 0, 0, 0, 0, 0, 0, 0]; // VERIFY(10)
    let response = ScsiHandler::handle_command(&cdb, &device, None).unwrap();
    assert_eq!(response.status, scsi_status::GOOD);
}

// ----------------------------------------------------------------------------
// Further cases
// ----------------------------------------------------------------------------

/// A device whose reads fail.
struct FailingDevice;

impl ScsiBlockDevice for FailingDevice {
    fn read(&self, _lba: u64, _blocks: u32, _block_size: u32) -> ScsiResult<Vec<u8>> {
        Err(IscsiError::Scsi("broken".to_string()))
    }

    fn write(&mut self, _lba: u64, _data: &[u8], _block_size: u32) -> ScsiResult<()> {
        Err(IscsiError::Scsi("broken".to_string()))
    }

    fn capacity(&self) -> u64 {
        10
    }

    fn block_size(&self) -> u32 {
        512
    }
}

#[test]
fn read_failure_gives_medium_error() {
    let device = FailingDevice;
    let cdb = [0x28, 0, 0, 0, 0, 1, 0, 0, 1, 0];
    let response = ScsiHandler::handle_command(&cdb, &device, None).unwrap();
    assert_eq!(response.status, scsi_status::CHECK_CONDITION);
    let sense = response.sense.unwrap();
    assert_eq!(sense.sense_key, sense_key::MEDIUM_ERROR);
    assert_eq!(sense.asc, 0x11);
}

#[test]
fn read_capacity_10_exact_bytes() {
    let device = MockDevice { capacity: 0x1_0000_0002, block_size: 4096, data: Vec::new() };
    let cdb = [0x25, 0, 0, 0, 0, 0, 0, 0, 0, 0];
    let response = ScsiHandler::handle_command(&cdb, &device, None).unwrap();
    // More blocks than fit in 32 bits: the last LBA reads 0xFFFFFFFF
    assert_eq!(response.data, vec![0xFF, 0xFF, 0xFF, 0xFF, 0, 0, 0x10, 0]);
}

#[test]
fn write_10_through_handler() {
    let mut device = MockDevice::new(8, 512);
    let cdb = [0x2A, 0, 0, 0, 0, 2, 0, 0, 1, 0];
    let data = vec![0x5A; 512];
    let response = ScsiHandler::handle_command(&cdb, &device, Some(&data)).unwrap();
    assert_eq!(response.status, scsi_status::GOOD);
    let err = ScsiHandler::handle_command(&cdb, &device, Some(&data[..100])).unwrap_err();
    assert_eq!(err.to_string(), "SCSI error: Write data too short: got 100, need 512");
    let err = ScsiHandler::handle_command(&cdb, &device, None).unwrap_err();
    assert_eq!(err.to_string(), "SCSI error: Write data required but not provided");
    device.write(0, &data, 512).unwrap();
}

#[test]
fn lba_out_of_range_sense_bytes() {
    let sense = SenseData::lba_out_of_range(0x01020304);
    let bytes = sense.to_bytes();
    assert_eq!(bytes[2], sense_key::ILLEGAL_REQUEST);
    assert_eq!(&bytes[3..7], &[1, 2, 3, 4]);
    assert_eq!(bytes[7], 10);
    assert_eq!(bytes[12], asc::LBA_OUT_OF_RANGE);
}

#[test]
fn opcode_codes_name_their_commands() {
    assert_eq!(ScsiOpcode::Read10.code(), 0x28);
    assert_eq!(ScsiOpcode::Write16.code(), 0x8A);
    assert_eq!(ScsiOpcode::ReportLuns.code(), 0xA0);
    let all = [
        ScsiOpcode::TestUnitReady,
        ScsiOpcode::RequestSense,
        ScsiOpcode::Inquiry,
        ScsiOpcode::ModeSense6,
        ScsiOpcode::StartStopUnit,
        ScsiOpcode::ReadCapacity10,
        ScsiOpcode::Read10,
        ScsiOpcode::Write10,
        ScsiOpcode::Verify10,
        ScsiOpcode::SynchronizeCache10,
        ScsiOpcode::ModeSense10,
        ScsiOpcode::Read16,
        ScsiOpcode::Write16,
        ScsiOpcode::Verify16,
        ScsiOpcode::SynchronizeCache16,
        ScsiOpcode::ServiceActionIn16,
        ScsiOpcode::ReportLuns,
    ];
    for op in all {
        assert_eq!(ScsiOpcode::from_u8(op.code()), Some(op));
    }
}

#[test]
fn read_returns_the_blocks_it_names() {
    let mut device = MockDevice::new(16, 512);
    device.data[3 * 512..5 * 512].copy_from_slice(&[0x3C; 1024]);
    // READ(10) of blocks 3 and 4
    let cdb = [0x28, 0, 0, 0, 0, 3, 0, 0, 2, 0];
    let response = ScsiHandler::handle_command(&cdb, &device, None).unwrap();
    assert_eq!(response.status, scsi_status::GOOD);
    assert_eq!(response.data, vec![0x3C; 1024]);
    // READ(16) of block 5, which is still zero
    let cdb = [0x88, 0, 0, 0, 0, 0, 0, 0, 0, 5, 0, 0, 0, 1, 0, 0];
    let response = ScsiHandler::handle_command(&cdb, &device, None).unwrap();
    assert_eq!(response.data, vec![0; 512]);
}

/// A device with its own identification strings.
struct NamedDevice;

impl ScsiBlockDevice for NamedDevice {
    fn read(&self, _lba: u64, _blocks: u32, _block_size: u32) -> ScsiResult<Vec<u8>> {
        Ok(Vec::new())
    }

    fn write(&mut self, _lba: u64, _data: &[u8], _block_size: u32) -> ScsiResult<()> {
        Ok(())
    }

    fn capacity(&self) -> u64 {
        4
    }

    fn block_size(&self) -> u32 {
        4096
    }

    fn vendor_id(&self) -> &str {
        "ACME"
    }

    fn product_id(&self) -> &str {
        "A product name longer than sixteen"
    }

    fn product_rev(&self) -> &str {
        "2.5"
    }
}

#[test]
fn inquiry_carries_the_device_identity() {
    let device = NamedDevice;
    let cdb = [0x12, 0, 0, 0, 96, 0];
    let response = ScsiHandler::handle_command(&cdb, &device, None).unwrap();
    assert_eq!(response.data.len(), 96);
    assert_eq!(&response.data[8..16], b"ACME    ");
    assert_eq!(&response.data[16..32], b"A product name l");
    assert_eq!(&response.data[32..36], b"2.5 ");
    // The default strings of a device that does not name itself
    let device = MockDevice::new(4, 512);
    let response = ScsiHandler::handle_command(&cdb, &device, None).unwrap();
    assert_eq!(&response.data[8..36], b"ISCSI   Virtual Disk    1.0 ");
}

#[test]
fn write_range_is_checked_against_the_device_capacity() {
    let device = NamedDevice;
    let data = vec![0u8; 4096];
    // Block 3 is the last of four
    let cdb = [0x2A, 0, 0, 0, 0, 3, 0, 0, 1, 0];
    let response = ScsiHandler::handle_command(&cdb, &device, Some(&data)).unwrap();
    assert_eq!(response.status, scsi_status::GOOD);
    // Blocks 3 and 4 run past the end
    let cdb = [0x2A, 0, 0, 0, 0, 3, 0, 0, 2, 0];
    let response = ScsiHandler::handle_command(&cdb, &device, Some(&data)).unwrap();
    assert_eq!(response.status, scsi_status::CHECK_CONDITION);
    assert_eq!(response.sense.unwrap().asc, asc::LBA_OUT_OF_RANGE);
}
