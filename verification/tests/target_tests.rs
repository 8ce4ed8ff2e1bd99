//! Target configuration and PDU handling.

use iscsi_target::pdu::{flags, opcode, IscsiPdu};
use iscsi_target::scsi::scsi_status;
use iscsi_target::session::{IscsiSession, SessionState};
use iscsi_target::target::command::{handle_scsi_command, handle_scsi_data_out};
use iscsi_target::target::{
    connection_step, handle_full_feature_phase, handle_task_management, handle_text_request, pdu_frame_length,
    pdu_would_fail,
};
use iscsi_target::{IscsiError, IscsiTarget, ScsiBlockDevice, ScsiResult};
use std::sync::atomic::Ordering;

/// Mock device for testing
struct MockDevice {
    capacity: u64,
    block_size: u32,
    data: Vec<u8>,
    flush_fails: bool,
}

impl MockDevice {
    fn new(capacity: u64, block_size: u32) -> Self {
        let size = (capacity * block_size as u64) as usize;
        MockDevice { capacity, block_size, data: vec![0u8; size], flush_fails: false }
    }
}

impl ScsiBlockDevice for MockDevice {
    fn read(&self, lba: u64, blocks: u32, block_size: u32) -> ScsiResult<Vec<u8>> {
        let offset = (lba * block_size as u64) as usize;
        let len = (blocks * block_size) as usize;
        if offset + len > self.data.len() {
            return Err(IscsiError::Scsi("Read out of bounds".into()));
        }
        Ok(self.data[offset..offset + len].to_vec())
    }

    fn write(&mut self, lba: u64, data: &[u8], block_size: u32) -> ScsiResult<()> {
        let offset = (lba * block_size as u64) as usize;
        if offset + data.len() > self.data.len() {
            return Err(IscsiError::Scsi("Write out of bounds".into()));
        }
        self.data[offset..offset + data.len()].copy_from_slice(data);
        Ok(())
    }

    fn capacity(&self) -> u64 {
        self.capacity
    }

    fn block_size(&self) -> u32 {
        self.block_size
    }

    fn flush(&mut self) -> ScsiResult<()> {
        if self.flush_fails {
            Err(IscsiError::Scsi("flush failed".into()))
        } else {
            Ok(())
        }
    }
}

#[test]
fn test_builder_default() {
    let device = MockDevice::new(1000, 512);
    let target = IscsiTarget::builder().build(device).unwrap();

    assert_eq!(target.bind_addr, "0.0.0.0:3260");
    assert!(target.target_name.starts_with("iqn."));
}

#[test]
fn test_builder_custom() {
    let device = MockDevice::new(1000, 512);
    let target = IscsiTarget::builder()
        .bind_addr("127.0.0.1:3260")
        .target_name("iqn.2025-12.test:disk1")
        .target_alias("Test Disk")
        .build(device)
        .unwrap();

    assert_eq!(target.bind_addr, "127.0.0.1:3260");
    assert_eq!(target.target_name, "iqn.2025-12.test:disk1");
    assert_eq!(target.target_alias, "Test Disk");
}

#[test]
fn test_builder_invalid_iqn() {
    let device = MockDevice::new(1000, 512);
    let result = IscsiTarget::builder().target_name("invalid-name").build(device);

    assert!(result.is_err());
}

#[test]
fn test_running_flag() {
    let device = MockDevice::new(1000, 512);
    let target = IscsiTarget::builder().build(device).unwrap();

    assert!(!target.is_running());
    target.running.store(true, Ordering::SeqCst);
    assert!(target.is_running());
    target.stop();
    assert!(!target.is_running());
}

#[test]
fn target_test_pdu_roundtrip() {
    // Test that PDU serialization/deserialization works correctly
    let mut pdu = IscsiPdu::new();
    pdu.opcode = opcode::NOP_IN;
    pdu.flags = flags::FINAL;
    pdu.itt = 0x12345678;

    let bytes = pdu.to_bytes();
    let parsed = IscsiPdu::from_bytes(&bytes).unwrap();

    assert_eq!(parsed.opcode, opcode::NOP_IN);
    assert_eq!(parsed.flags, flags::FINAL);
    assert_eq!(parsed.itt, 0x12345678);
}

// ----------------------------------------------------------------------------
// Further cases
// ----------------------------------------------------------------------------

#[test]
fn builder_accepts_eui_and_naa_names() {
    let t = IscsiTarget::builder().target_name("eui.0123456789ABCDEF").build(MockDevice::new(1, 512));
    assert!(t.is_ok());
    let t = IscsiTarget::builder().target_name("naa.6001405").build(MockDevice::new(1, 512));
    assert!(t.is_ok());
    let err = IscsiTarget::builder().target_name("iqn").build(MockDevice::new(1, 512)).err().unwrap();
    assert_eq!(
        err.to_string(),
        "Configuration error: target_name must be in IQN, EUI, or NAA format (e.g., iqn.2025-12.local:storage.disk1)"
    );
    let t = IscsiTarget::builder().build(MockDevice::new(1, 512)).unwrap();
    assert_eq!(t.target_name, "iqn.2025-12.local:storage.default");
    assert_eq!(t.target_alias, "iSCSI Target");
}

fn ffp_session() -> IscsiSession {
    let mut session = IscsiSession::new();
    session.state = SessionState::FullFeaturePhase;
    session.exp_cmd_sn = 1;
    session.max_cmd_sn = 10;
    session.stat_sn = 5;
    session
}

fn scsi_command(itt: u32, cmd_sn: u32, flags_byte: u8, cdb: &[u8], data: Vec<u8>) -> IscsiPdu {
    let mut pdu = IscsiPdu::new();
    pdu.opcode = opcode::SCSI_COMMAND;
    pdu.flags = flags_byte;
    pdu.itt = itt;
    pdu.specific[4..8].copy_from_slice(&cmd_sn.to_be_bytes());
    pdu.specific[12..12 + cdb.len()].copy_from_slice(cdb);
    pdu.data_length = data.len() as u32;
    pdu.data = data;
    pdu
}

#[test]
fn read_is_split_into_data_in_pdus() {
    let mut device = MockDevice::new(16, 512);
    device.data[512..1024].copy_from_slice(&[0x77; 512]);
    let mut session = ffp_session();
    session.params.max_xmit_data_segment_length = 200;
    // READ(10) of block 1, one block, with the read flag
    let pdu = scsi_command(0x42, 1, 0xC0, &[0x28, 0, 0, 0, 0, 1, 0, 0, 1, 0], vec![]);
    let out = handle_scsi_command(&mut session, &pdu, &mut device).unwrap();
    assert_eq!(out.len(), 3);
    assert_eq!(out[0].opcode, opcode::SCSI_DATA_IN);
    assert_eq!(out[0].data.len(), 200);
    assert_eq!(out[1].data.len(), 200);
    assert_eq!(out[2].data.len(), 112);
    assert_eq!(out[0].flags, 0);
    assert_eq!(out[2].flags, 0x81);
    assert_eq!(&out[1].specific[16..20], &1u32.to_be_bytes()); // DataSN
    assert_eq!(&out[1].specific[20..24], &200u32.to_be_bytes()); // buffer offset
    assert_eq!(&out[2].specific[4..8], &5u32.to_be_bytes()); // StatSN on the last one
    assert_eq!(&out[0].specific[4..8], &0u32.to_be_bytes());
    assert_eq!(out[2].specific[27], scsi_status::GOOD);
    assert!(out.iter().all(|p| p.data.iter().all(|b| *b == 0x77)));
    assert_eq!(session.stat_sn, 6);
    assert_eq!(session.exp_cmd_sn, 2);
    assert_eq!(session.max_cmd_sn, 11);
}

#[test]
fn command_for_other_lun_is_rejected() {
    let mut device = MockDevice::new(16, 512);
    let mut session = ffp_session();
    let mut pdu = scsi_command(7, 1, 0x80, &[0x00, 0, 0, 0, 0, 0], vec![]);
    pdu.lun = 1 << 48;
    let out = handle_scsi_command(&mut session, &pdu, &mut device).unwrap();
    assert_eq!(out.len(), 1);
    assert_eq!(out[0].opcode, opcode::SCSI_RESPONSE);
    assert_eq!(out[0].specific[1], scsi_status::CHECK_CONDITION);
    assert_eq!(out[0].data[2], 0x05); // ILLEGAL REQUEST
    assert_eq!(out[0].data[12], 0x25); // LOGICAL UNIT NOT SUPPORTED
    assert_eq!(session.exp_cmd_sn, 1); // window unchanged
}

#[test]
fn write_with_all_immediate_data_completes() {
    let mut device = MockDevice::new(16, 512);
    let mut session = ffp_session();
    let pdu = scsi_command(9, 1, 0xA0, &[0x2A, 0, 0, 0, 0, 3, 0, 0, 1, 0], vec![0xEE; 512]);
    let out = handle_scsi_command(&mut session, &pdu, &mut device).unwrap();
    assert_eq!(out.len(), 1);
    assert_eq!(out[0].specific[1], scsi_status::GOOD);
    assert!(device.data[1536..2048].iter().all(|b| *b == 0xEE));
    assert!(session.pending_writes.is_empty());
}

#[test]
fn write_without_data_waits_for_data_out() {
    let mut device = MockDevice::new(16, 512);
    let mut session = ffp_session();
    // WRITE(10) of blocks 2..4, no immediate data
    let pdu = scsi_command(11, 1, 0xA0, &[0x2A, 0, 0, 0, 0, 2, 0, 0, 2, 0], vec![]);
    let out = handle_scsi_command(&mut session, &pdu, &mut device).unwrap();
    assert!(out.is_empty());
    let pending = session.pending_writes.get(&11).copied().unwrap();
    assert_eq!((pending.lba, pending.transfer_length, pending.block_size), (2, 2, 512));
    assert_eq!(pending.bytes_received, 0);

    let mut data_out = IscsiPdu::new();
    data_out.opcode = opcode::SCSI_DATA_OUT;
    data_out.itt = 11;
    data_out.data = vec![0x11; 512];
    let out = handle_scsi_data_out(&mut session, &data_out, &mut device).unwrap();
    assert!(out.is_empty());
    assert_eq!(session.pending_writes.get(&11).unwrap().bytes_received, 512);

    data_out.flags = flags::FINAL;
    data_out.specific[20..24].copy_from_slice(&512u32.to_be_bytes());
    data_out.data = vec![0x22; 512];
    let out = handle_scsi_data_out(&mut session, &data_out, &mut device).unwrap();
    assert_eq!(out.len(), 1);
    assert_eq!(out[0].specific[1], scsi_status::GOOD);
    assert!(session.pending_writes.is_empty());
    assert!(device.data[1024..1536].iter().all(|b| *b == 0x11));
    assert!(device.data[1536..2048].iter().all(|b| *b == 0x22));
}

#[test]
fn data_out_for_unknown_task_is_dropped() {
    let mut device = MockDevice::new(16, 512);
    let mut session = ffp_session();
    let mut data_out = IscsiPdu::new();
    data_out.opcode = opcode::SCSI_DATA_OUT;
    data_out.itt = 99;
    data_out.flags = flags::FINAL;
    let out = handle_scsi_data_out(&mut session, &data_out, &mut device).unwrap();
    assert!(out.is_empty());
    assert_eq!(session.stat_sn, 5);
}

#[test]
fn failed_data_out_write_reports_medium_error() {
    let mut device = MockDevice::new(2, 512);
    let mut session = ffp_session();
    let pdu = scsi_command(12, 1, 0xA0, &[0x2A, 0, 0, 0, 0, 1, 0, 0, 4, 0], vec![]);
    handle_scsi_command(&mut session, &pdu, &mut device).unwrap();
    let mut data_out = IscsiPdu::new();
    data_out.opcode = opcode::SCSI_DATA_OUT;
    data_out.itt = 12;
    data_out.flags = flags::FINAL;
    data_out.specific[20..24].copy_from_slice(&1024u32.to_be_bytes());
    data_out.data = vec![1; 512];
    let out = handle_scsi_data_out(&mut session, &data_out, &mut device).unwrap();
    assert_eq!(out[0].specific[1], scsi_status::CHECK_CONDITION);
    assert_eq!(out[0].data[2], 0x03); // MEDIUM ERROR
}

#[test]
fn flush_error_is_returned() {
    let mut device = MockDevice::new(2, 512);
    device.flush_fails = true;
    let mut session = ffp_session();
    let pdu = scsi_command(13, 1, 0x80, &[0x35, 0, 0, 0, 0, 0, 0, 0, 0, 0], vec![]);
    let err = handle_scsi_command(&mut session, &pdu, &mut device).unwrap_err();
    assert_eq!(err.to_string(), "SCSI error: flush failed");
    device.flush_fails = false;
    let out = handle_scsi_command(&mut session, &pdu, &mut device).unwrap();
    assert_eq!(out[0].specific[1], scsi_status::GOOD);
}

#[test]
fn send_targets_text_request() {
    let mut session = ffp_session();
    let mut pdu = IscsiPdu::new();
    pdu.opcode = opcode::TEXT_REQUEST;
    pdu.itt = 3;
    pdu.data = b"SendTargets=All\0".to_vec();
    let out = handle_text_request(&mut session, &pdu, "iqn.a:b", "10.0.0.1:3260").unwrap();
    assert_eq!(out.len(), 1);
    assert_eq!(out[0].opcode, opcode::TEXT_RESPONSE);
    assert_eq!(out[0].data, b"TargetName=iqn.a:b\0TargetAddress=10.0.0.1:3260,1\0".to_vec());
    assert_eq!(&out[0].specific[0..4], &[0xFF; 4]);
    pdu.data = b"SendTargets=iqn.other\0".to_vec();
    let out = handle_text_request(&mut session, &pdu, "iqn.a:b", "x").unwrap();
    assert!(out[0].data.is_empty());
    assert_eq!(session.stat_sn, 7);
}

#[test]
fn task_management_is_acknowledged() {
    let mut session = ffp_session();
    let mut pdu = IscsiPdu::new();
    pdu.opcode = opcode::TASK_MANAGEMENT_REQUEST;
    pdu.flags = 0x81;
    pdu.itt = 0x55;
    let out = handle_task_management(&mut session, &pdu).unwrap();
    assert_eq!(out[0].opcode, opcode::TASK_MANAGEMENT_RESPONSE);
    assert_eq!(out[0].flags, flags::FINAL);
    assert_eq!(out[0].itt, 0x55);
    assert_eq!(&out[0].specific[4..16], &[0, 0, 0, 5, 0, 0, 0, 1, 0, 0, 0, 10]);
}

#[test]
fn full_feature_dispatch_and_logout_closes() {
    let mut device = MockDevice::new(2, 512);
    let mut session = ffp_session();
    let mut nop = IscsiPdu::new();
    nop.opcode = opcode::NOP_OUT;
    nop.itt = 1;
    let out = handle_full_feature_phase(&mut session, &nop, &mut device, "iqn.a:b", "x").unwrap();
    assert_eq!(out[0].opcode, opcode::NOP_IN);
    nop.itt = 0xFFFF_FFFF;
    let err = handle_full_feature_phase(&mut session, &nop, &mut device, "iqn.a:b", "x").unwrap_err();
    assert_eq!(err.to_string(), "Protocol error: Unsolicited NOP-Out response");

    let mut logout = IscsiPdu::new();
    logout.opcode = opcode::LOGOUT_REQUEST;
    logout.itt = 8;
    let out = connection_step(&mut session, &logout, &mut device, "iqn.a:b", "x").unwrap().unwrap();
    assert_eq!(out[0].opcode, opcode::LOGOUT_RESPONSE);
    assert_eq!(session.state, SessionState::Logout);
    assert!(connection_step(&mut session, &logout, &mut device, "iqn.a:b", "x").unwrap().is_none());
}

#[test]
fn frame_length_from_header() {
    let mut bhs = [0u8; 48];
    bhs[4] = 2;
    bhs[5] = 0;
    bhs[6] = 1;
    bhs[7] = 1; // 257 data bytes
    assert_eq!(pdu_frame_length(&bhs), 48 + 8 + 260);
}

#[test]
fn unhandled_pdus_are_recognised() {
    let session = ffp_session();
    let read16 = scsi_command(1, 1, 0x80, &[0x88, 0, 0xFF, 0xFF, 0xFF, 0xFF, 0xFF, 0xFF, 0xFF, 0xF0, 0, 0, 1, 0, 0, 0], vec![]);
    assert!(pdu_would_fail(&session, &read16));
    let read10 = scsi_command(1, 1, 0xC0, &[0x28, 0, 0, 0, 0, 0, 0, 0, 1, 0], vec![]);
    assert!(!pdu_would_fail(&session, &read10));
    let mut login_session = IscsiSession::new();
    let mut login = IscsiPdu::login_request([0; 6], 0, 0, u32::MAX, 0, 0, 1, false, vec![]);
    assert!(pdu_would_fail(&login_session, &login));
    login_session.state = SessionState::SecurityNegotiation;
    assert!(!pdu_would_fail(&login_session, &login));
    login.version_or_reserved = 0x0001; // version-min 1: rejected before any arithmetic
    login_session.state = SessionState::Free;
    assert!(!pdu_would_fail(&login_session, &login));
}

#[test]
fn write_to_other_lun_leaves_device_alone() {
    let mut device = MockDevice::new(4, 512);
    let mut session = ffp_session();
    // WRITE(10) of block 0 with its data, sent to LUN 1
    let mut pdu = scsi_command(14, 1, 0xA0, &[0x2A, 0, 0, 0, 0, 0, 0, 0, 1, 0], vec![0x5A; 512]);
    pdu.lun = 1;
    let out = handle_scsi_command(&mut session, &pdu, &mut device).unwrap();
    assert_eq!(out.len(), 1);
    assert_eq!(out[0].specific[1], scsi_status::CHECK_CONDITION);
    assert!(device.data.iter().all(|b| *b == 0));
    assert!(session.pending_writes.is_empty());
    assert_eq!(session.exp_cmd_sn, 1);
}

#[test]
fn data_out_goes_to_block_of_its_offset() {
    let mut device = MockDevice::new(16, 512);
    let mut session = ffp_session();
    // WRITE(10) of blocks 4..8, the data to follow
    let pdu = scsi_command(15, 1, 0xA0, &[0x2A, 0, 0, 0, 0, 4, 0, 0, 4, 0], vec![]);
    handle_scsi_command(&mut session, &pdu, &mut device).unwrap();
    let mut data_out = IscsiPdu::new();
    data_out.opcode = opcode::SCSI_DATA_OUT;
    data_out.itt = 15;
    data_out.flags = flags::FINAL;
    // Offset 1100 falls in the third block of the transfer: block 6
    data_out.specific[20..24].copy_from_slice(&1100u32.to_be_bytes());
    data_out.data = vec![0x33; 512];
    let out = handle_scsi_data_out(&mut session, &data_out, &mut device).unwrap();
    assert_eq!(out[0].specific[1], scsi_status::GOOD);
    assert!(device.data[3072..3584].iter().all(|b| *b == 0x33));
    assert!(device.data[..3072].iter().all(|b| *b == 0));
    assert!(device.data[3584..].iter().all(|b| *b == 0));
}
