//! PDU construction, parsing and text parameters.

use iscsi_target::pdu::{
    flags, logout_response, opcode, parse_text_parameters, scsi_status, serialize_text_parameters,
    IscsiPdu, BHS_SIZE,
};

#[test]
fn test_pdu_new() {
    let pdu = IscsiPdu::new();
    assert_eq!(pdu.opcode, 0);
    assert!(!pdu.immediate);
    assert_eq!(pdu.flags, 0);
    assert_eq!(pdu.data_length, 0);
    assert!(pdu.data.is_empty());
}

#[test]
fn test_pdu_roundtrip_simple() {
    let mut pdu = IscsiPdu::new();
    pdu.opcode = opcode::NOP_OUT;
    pdu.flags = flags::FINAL;
    pdu.itt = 0x12345678;
    pdu.lun = 0x0001020304050607;

    let bytes = pdu.to_bytes();
    assert_eq!(bytes.len(), BHS_SIZE); // No data, so just BHS

    let parsed = IscsiPdu::from_bytes(&bytes).unwrap();
    assert_eq!(parsed.opcode, opcode::NOP_OUT);
    assert_eq!(parsed.flags, flags::FINAL);
    assert_eq!(parsed.itt, 0x12345678);
    assert_eq!(parsed.lun, 0x0001020304050607);
}

#[test]
fn test_pdu_roundtrip_with_data() {
    let mut pdu = IscsiPdu::new();
    pdu.opcode = opcode::LOGIN_REQUEST;
    pdu.data = b"InitiatorName=iqn.test\0".to_vec();
    pdu.data_length = pdu.data.len() as u32;

    let bytes = pdu.to_bytes();
    // BHS + data + padding to 4-byte boundary
    assert!(bytes.len() >= BHS_SIZE + pdu.data.len());
    assert_eq!(bytes.len() % 4, 0);

    let parsed = IscsiPdu::from_bytes(&bytes).unwrap();
    assert_eq!(parsed.opcode, opcode::LOGIN_REQUEST);
    assert_eq!(parsed.data, pdu.data);
}

#[test]
fn test_pdu_too_short() {
    let bytes = vec![0u8; 20]; // Too short for BHS
    let result = IscsiPdu::from_bytes(&bytes);
    assert!(result.is_err());
}

#[test]
fn test_parse_text_parameters() {
    let data = b"Key1=Value1\0Key2=Value2\0";
    let params = parse_text_parameters(data).unwrap();
    assert_eq!(params.len(), 2);
    assert_eq!(params[0], ("Key1".to_string(), "Value1".to_string()));
    assert_eq!(params[1], ("Key2".to_string(), "Value2".to_string()));
}

#[test]
fn test_serialize_text_parameters() {
    let params = vec![
        ("Key1".to_string(), "Value1".to_string()),
        ("Key2".to_string(), "Value2".to_string()),
    ];
    let data = serialize_text_parameters(&params);
    assert_eq!(data, b"Key1=Value1\0Key2=Value2\0");
}

#[test]
fn test_login_response_creation() {
    let isid = [0x00, 0x02, 0x3D, 0x00, 0x00, 0x00];
    let pdu = IscsiPdu::login_response(
        isid,
        1,      // tsih
        1,      // stat_sn
        1,      // exp_cmd_sn
        1,      // max_cmd_sn
        0,      // status class (success)
        0,      // status detail
        0,      // csg
        3,      // nsg (full feature)
        true,   // transit
        0x1234, // itt
        vec![], // no data
    );

    assert_eq!(pdu.opcode, opcode::LOGIN_RESPONSE);
    assert_eq!(pdu.flags & flags::TRANSIT, flags::TRANSIT);
    assert_eq!(pdu.itt, 0x1234);
}

#[test]
fn test_scsi_response_creation() {
    let pdu = IscsiPdu::scsi_response(
        0x1234,            // itt
        1,                 // stat_sn
        1,                 // exp_cmd_sn
        1,                 // max_cmd_sn
        scsi_status::GOOD, // status
        0,                 // response (completed)
        0,                 // residual count
        None,              // no sense data
    );

    assert_eq!(pdu.opcode, opcode::SCSI_RESPONSE);
    assert_eq!(pdu.flags, flags::FINAL);
    assert_eq!(pdu.itt, 0x1234);
    assert_eq!(pdu.specific[1], scsi_status::GOOD);
}

#[test]
fn test_scsi_data_in_creation() {
    let data = vec![0xAB; 512];
    let pdu = IscsiPdu::scsi_data_in(
        0x1234,      // itt
        0xFFFF_FFFF, // ttt
        1,           // stat_sn
        1,           // exp_cmd_sn
        1,           // max_cmd_sn
        0,           // data_sn
        0,           // buffer_offset
        data.clone(),
        true, // final
        Some(scsi_status::GOOD),
    );

    assert_eq!(pdu.opcode, opcode::SCSI_DATA_IN);
    assert_eq!(pdu.flags & flags::FINAL, flags::FINAL);
    assert_eq!(pdu.data, data);
}

#[test]
fn test_nop_in_creation() {
    let pdu = IscsiPdu::nop_in(
        0x1234,      // itt
        0xFFFF_FFFF, // ttt
        1,           // stat_sn
        1,           // exp_cmd_sn
        1,           // max_cmd_sn
        0,           // lun
    );

    assert_eq!(pdu.opcode, opcode::NOP_IN);
    assert_eq!(pdu.flags, flags::FINAL);
    assert_eq!(pdu.itt, 0x1234);
}

#[test]
fn test_logout_response_creation() {
    let pdu = IscsiPdu::logout_response(
        0x1234, // itt
        1,      // stat_sn
        1,      // exp_cmd_sn
        1,      // max_cmd_sn
        logout_response::SUCCESS,
        2,  // time2wait
        20, // time2retain
    );

    assert_eq!(pdu.opcode, opcode::LOGOUT_RESPONSE);
    assert_eq!(pdu.specific[0], logout_response::SUCCESS);
}

#[test]
fn test_opcode_names() {
    let mut pdu = IscsiPdu::new();

    pdu.opcode = opcode::LOGIN_REQUEST;
    assert_eq!(pdu.opcode_name(), "Login Request");

    pdu.opcode = opcode::SCSI_COMMAND;
    assert_eq!(pdu.opcode_name(), "SCSI Command");

    pdu.opcode = opcode::SCSI_RESPONSE;
    assert_eq!(pdu.opcode_name(), "SCSI Response");

    pdu.opcode = 0xFF;
    assert_eq!(pdu.opcode_name(), "Unknown");
}

#[test]
fn test_immediate_flag() {
    let mut pdu = IscsiPdu::new();
    pdu.opcode = opcode::LOGIN_REQUEST;
    pdu.immediate = true;

    let bytes = pdu.to_bytes();
    assert_eq!(bytes[0] & 0x40, 0x40); // Immediate bit set

    let parsed = IscsiPdu::from_bytes(&bytes).unwrap();
    assert!(parsed.immediate);
}

#[test]
fn test_data_padding() {
    let mut pdu = IscsiPdu::new();
    pdu.opcode = opcode::TEXT_REQUEST;
    pdu.data = vec![1, 2, 3]; // 3 bytes, should pad to 4

    let bytes = pdu.to_bytes();
    assert_eq!(bytes.len() % 4, 0);
    assert_eq!(bytes.len(), BHS_SIZE + 4); // BHS + 4 bytes (padded data)
}

// ----------------------------------------------------------------------------
// Further cases
// ----------------------------------------------------------------------------

#[test]
fn pdu_incomplete_frame_is_reported() {
    let mut pdu = IscsiPdu::new();
    pdu.opcode = opcode::TEXT_REQUEST;
    pdu.data = vec![9; 10];
    let bytes = pdu.to_bytes();
    assert_eq!(bytes.len(), 60);
    let err = IscsiPdu::from_bytes(&bytes[..50]).unwrap_err();
    assert_eq!(
        err.to_string(),
        "Invalid PDU: PDU incomplete: 50 bytes, need 60 (BHS=48, AHS=0, data=12)"
    );
    let err = IscsiPdu::from_bytes(&bytes[..20]).unwrap_err();
    assert_eq!(err.to_string(), "Invalid PDU: PDU too short: 20 bytes, need at least 48");
}

#[test]
fn pdu_header_fields_are_big_endian() {
    let mut pdu = IscsiPdu::new();
    pdu.opcode = opcode::SCSI_COMMAND;
    pdu.flags = 0x81;
    pdu.version_or_reserved = 0x0201;
    pdu.lun = 0x0102030405060708;
    pdu.itt = 0xA1B2C3D4;
    pdu.data = vec![0x55; 5];
    let bytes = pdu.to_bytes();
    assert_eq!(&bytes[0..4], &[0x01, 0x81, 0x02, 0x01]);
    assert_eq!(&bytes[4..8], &[0, 0, 0, 5]);
    assert_eq!(&bytes[8..16], &[1, 2, 3, 4, 5, 6, 7, 8]);
    assert_eq!(&bytes[16..20], &[0xA1, 0xB2, 0xC3, 0xD4]);
    assert_eq!(&bytes[48..53], &[0x55; 5]);
    assert_eq!(&bytes[53..56], &[0, 0, 0]);
    assert_eq!(pdu.total_length(), 56);
}

#[test]
fn pdu_ahs_is_skipped_when_parsing() {
    let mut bytes = vec![0u8; 48 + 4 + 4];
    bytes[0] = opcode::TEXT_REQUEST;
    bytes[4] = 1; // one word of AHS
    bytes[7] = 2; // two data bytes
    bytes[48..52].copy_from_slice(&[0xEE; 4]);
    bytes[52] = 7;
    bytes[53] = 8;
    let parsed = IscsiPdu::from_bytes(&bytes).unwrap();
    assert_eq!(parsed.ahs_length, 1);
    assert_eq!(parsed.data, vec![7, 8]);
}

#[test]
fn login_request_roundtrip_through_parser() {
    let data = serialize_text_parameters(&[("InitiatorName".to_string(), "iqn.x".to_string())]);
    let pdu = IscsiPdu::login_request([1, 2, 3, 4, 5, 6], 0x0708, 9, 10, 11, 1, 3, true, data);
    let login = pdu.parse_login_request().unwrap();
    assert_eq!(login.isid, [1, 2, 3, 4, 5, 6]);
    assert_eq!(login.tsih, 0x0708);
    assert_eq!(login.cid, 9);
    assert_eq!(login.cmd_sn, 10);
    assert_eq!(login.exp_stat_sn, 11);
    assert!(login.transit);
    assert_eq!((login.csg, login.nsg), (1, 3));
    assert_eq!(login.parameters, vec![("InitiatorName".to_string(), "iqn.x".to_string())]);
}

#[test]
fn parsers_reject_other_opcodes() {
    let pdu = IscsiPdu::new(); // NOP-Out
    let err = pdu.parse_login_request().unwrap_err();
    assert_eq!(err.to_string(), "Invalid PDU: Expected Login Request opcode 0x03, got 0x00");
    assert!(pdu.parse_scsi_command().is_err());
    assert!(pdu.parse_text_request().is_err());
    assert!(pdu.parse_nop_out().is_ok());
}

#[test]
fn text_parameters_without_equals_are_skipped() {
    let params = parse_text_parameters(b"Bare\0A=B=C\0\0").unwrap();
    assert_eq!(params, vec![("A".to_string(), "B=C".to_string())]);
}

#[test]
fn text_parameters_replace_invalid_utf8() {
    let params = parse_text_parameters(b"K=\xffA\0").unwrap();
    assert_eq!(params, vec![("K".to_string(), "\u{FFFD}A".to_string())]);
}
