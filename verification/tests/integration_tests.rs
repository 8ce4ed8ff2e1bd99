//! PDU round trips as an initiator and a target see them.

use iscsi_target::pdu::IscsiPdu;

#[test]
fn integration_tests_test_pdu_roundtrip() {
    let mut pdu = IscsiPdu::new();
    pdu.opcode = 0x01; // SCSI_COMMAND
    pdu.immediate = false;
    pdu.flags = 0x80; // FINAL
    pdu.itt = 0x12345678;
    pdu.lun = 0x0000000000000000;
    pdu.data = b"test data".to_vec();

    let bytes = pdu.to_bytes();
    let parsed = IscsiPdu::from_bytes(&bytes).expect("Failed to parse PDU");

    assert_eq!(parsed.opcode, pdu.opcode);
    assert_eq!(parsed.immediate, pdu.immediate);
    assert_eq!(parsed.flags, pdu.flags);
    assert_eq!(parsed.itt, pdu.itt);
    assert_eq!(parsed.data, pdu.data);
}

#[test]
fn test_pdu_data_padding() {
    let mut pdu = IscsiPdu::new();
    pdu.opcode = 0x01;
    pdu.data = b"ABC".to_vec(); // 3 bytes, needs padding to 4

    let bytes = pdu.to_bytes();

    // Check padding: should have at least BHS_SIZE + 4 bytes
    assert!(bytes.len() >= iscsi_target::pdu::BHS_SIZE + 4);

    // Parse back
    let parsed = IscsiPdu::from_bytes(&bytes).expect("Failed to parse PDU");
    assert_eq!(parsed.data, b"ABC");
}
