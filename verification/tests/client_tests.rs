//! The initiator side: requests it builds and answers it reads.

use iscsi_target::client::{parse_send_targets, ClientState};
use iscsi_target::pdu::{flags, opcode, parse_text_parameters, IscsiPdu};

#[test]
fn test_client_creation() {
    // Connecting needs a running target; the client's state starts out fresh.
    let state = ClientState::new();
    assert_eq!(state.cmd_sn, 0);
    assert!(!state.initialized);
}

#[test]
fn login_request_carries_padded_keys() {
    let state = ClientState::new();
    let pdu = state.login_request("iqn.i", "iqn.t", flags::CSG_SECURITY_NEG, flags::NSG_LOGIN_OP_NEG, false);
    assert_eq!(pdu.opcode, opcode::LOGIN_REQUEST);
    assert!(pdu.immediate);
    assert_eq!(pdu.flags, 0x01);
    assert_eq!(pdu.data.len() % 4, 0);
    let params = parse_text_parameters(&pdu.data).unwrap();
    assert_eq!(
        params,
        vec![
            ("InitiatorName".to_string(), "iqn.i".to_string()),
            ("TargetName".to_string(), "iqn.t".to_string()),
            ("AuthMethod".to_string(), "None".to_string()),
        ]
    );
    let op = state.login_request("iqn.i", "iqn.t", flags::CSG_LOGIN_OP_NEG, flags::NSG_FULL_FEATURE, true);
    assert_eq!(op.flags, 0x80 | 0x03);
    assert_eq!(parse_text_parameters(&op.data).unwrap().len(), 16);
    let disc = state.discovery_login_request("iqn.i", flags::CSG_SECURITY_NEG, flags::NSG_LOGIN_OP_NEG, false);
    assert_eq!(
        parse_text_parameters(&disc.data).unwrap()[2],
        ("SessionType".to_string(), "Discovery".to_string())
    );
}

#[test]
fn login_response_status_is_read_from_byte_36() {
    let mut state = ClientState::new();
    let ok = IscsiPdu::login_response([0; 6], 1, 5, 6, 9, 0, 0, 0, 1, true, 0, vec![]);
    state.accept_login_response(&ok, false).unwrap();
    assert_eq!(state.cmd_sn, 1);
    assert_eq!(state.exp_stat_sn, 5);
    assert_eq!(state.max_cmd_sn, 6);
    let rejected = IscsiPdu::login_response([0; 6], 0, 5, 6, 9, 0x02, 0x03, 0, 1, false, 0, vec![]);
    let err = state.accept_login_response(&rejected, false).unwrap_err();
    assert_eq!(err.to_string(), "Protocol error: Login failed: class=0x02, detail=0x03");
    let err = state.accept_login_response(&rejected, true).unwrap_err();
    assert_eq!(err.to_string(), "Protocol error: Discovery login failed: class=0x02, detail=0x03");
    assert_eq!(state.cmd_sn, 1);
    let err = state.accept_login_response(&IscsiPdu::new(), false).unwrap_err();
    assert_eq!(err.to_string(), "Invalid PDU: Expected LOGIN_RESPONSE (0x23), got opcode 0x00");
}

#[test]
fn send_targets_answer_is_paired_up() {
    let state = ClientState::new();
    let req = state.send_targets_request();
    assert_eq!(req.opcode, opcode::TEXT_REQUEST);
    assert_eq!(req.data, b"SendTargets=All\0".to_vec());
    assert_eq!(&req.specific[0..4], &[0xFF; 4]);

    let mut resp = IscsiPdu::new();
    resp.opcode = opcode::TEXT_RESPONSE;
    resp.data = b"TargetAddress=orphan,1\0TargetName=iqn.a\0TargetAddress=10.0.0.1:3260,1\0TargetName=iqn.b\0TargetAddress=host:3261\0TargetAddress=again:1\0".to_vec();
    let targets = parse_send_targets(&resp).unwrap();
    assert_eq!(
        targets,
        vec![
            ("iqn.a".to_string(), "10.0.0.1:3260".to_string()),
            ("iqn.b".to_string(), "host:3261".to_string()),
        ]
    );
    let err = parse_send_targets(&IscsiPdu::new()).unwrap_err();
    assert_eq!(err.to_string(), "Invalid PDU: Expected TEXT_RESPONSE (0x24), got opcode 0x00");
}

#[test]
fn scsi_command_needs_a_login_and_a_short_cdb() {
    let mut state = ClientState::new();
    let err = state.scsi_command_request(&[0x00; 6], None).unwrap_err();
    assert_eq!(err.to_string(), "Session error: Not logged in. Call login() first.");
    state.logged_in();
    let pdu = state.scsi_command_request(&[0x12, 0, 0, 0, 96, 0], None).unwrap();
    assert_eq!(pdu.opcode, opcode::SCSI_COMMAND);
    assert_eq!(pdu.flags, 0xA0);
    assert_eq!(pdu.specific[0], 6);
    assert_eq!(pdu.specific[4], 6);
    assert_eq!(&pdu.specific[16..20], &[0x12, 0, 0, 0]);
    let err = state.scsi_command_request(&[0u8; 17], None).unwrap_err();
    assert_eq!(err.to_string(), "Invalid PDU: CDB too long: 17 bytes (max 16)");
    let with_data = state.scsi_command_request(&[0x2A; 10], Some(&[1, 2, 3])).unwrap();
    assert_eq!(with_data.data, vec![1, 2, 3]);
    state.command_sent();
    assert_eq!(state.cmd_sn, 1);
    let logout = state.logout_request();
    assert_eq!(logout.opcode, opcode::LOGOUT_REQUEST);
    assert_eq!(&logout.specific[20..24], &1u32.to_be_bytes());
    state.logged_out();
    assert!(!state.initialized);
}
