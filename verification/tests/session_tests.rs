//! Session state, negotiation and sequence numbers.

use iscsi_target::session::{
    ConnectionState, DigestType, IscsiConnection, IscsiSession, SessionParams, SessionState, SessionType,
};

#[test]
fn test_session_new() {
    let session = IscsiSession::new();
    assert_eq!(session.state, SessionState::Free);
    assert_eq!(session.tsih, 0);
    assert_eq!(session.exp_cmd_sn, 1);
}

#[test]
fn test_session_params_default() {
    let params = SessionParams::default();
    assert_eq!(params.max_recv_data_segment_length, 8192);
    assert_eq!(params.max_burst_length, 262144);
    assert_eq!(params.first_burst_length, 65536);
    assert_eq!(params.error_recovery_level, 0);
    assert!(params.data_pdu_in_order);
    assert!(params.data_sequence_in_order);
}

#[test]
fn test_session_type() {
    let mut session = IscsiSession::new();
    assert_eq!(session.session_type, SessionType::Normal);

    session.apply_initiator_param("SessionType", "Discovery");
    assert_eq!(session.session_type, SessionType::Discovery);

    session.apply_initiator_param("SessionType", "Normal");
    assert_eq!(session.session_type, SessionType::Normal);
}

#[test]
fn test_parameter_negotiation() {
    let mut session = IscsiSession::new();

    // Test MaxBurstLength - should take minimum
    session.params.max_burst_length = 262144;
    session.apply_initiator_param("MaxBurstLength", "131072");
    assert_eq!(session.params.max_burst_length, 131072);

    // Test InitiatorName
    session.apply_initiator_param("InitiatorName", "iqn.2025-12.test:initiator");
    assert_eq!(session.params.initiator_name, "iqn.2025-12.test:initiator");

    // Test ErrorRecoveryLevel - should take minimum
    session.params.error_recovery_level = 2;
    session.apply_initiator_param("ErrorRecoveryLevel", "1");
    assert_eq!(session.params.error_recovery_level, 1);
}

#[test]
fn test_immediate_data_negotiation() {
    let mut session = IscsiSession::new();

    // Both want it - should be true
    session.params.immediate_data = true;
    session.apply_initiator_param("ImmediateData", "Yes");
    assert!(session.params.immediate_data);

    // Target wants it, initiator doesn't - should be false
    session.params.immediate_data = true;
    session.apply_initiator_param("ImmediateData", "No");
    assert!(!session.params.immediate_data);
}

#[test]
fn test_initial_r2t_negotiation() {
    let mut session = IscsiSession::new();

    // Both don't want it - should be false
    session.params.initial_r2t = false;
    session.apply_initiator_param("InitialR2T", "No");
    assert!(!session.params.initial_r2t);

    // One wants it - should be true (OR operation)
    session.params.initial_r2t = false;
    session.apply_initiator_param("InitialR2T", "Yes");
    assert!(session.params.initial_r2t);
}

#[test]
fn test_sequence_number_validation() {
    let mut session = IscsiSession::new();
    session.exp_cmd_sn = 100;
    session.max_cmd_sn = 110;

    // In window - valid
    assert!(session.validate_cmd_sn(100));
    assert_eq!(session.exp_cmd_sn, 101); // Should advance

    // Also in window
    assert!(session.validate_cmd_sn(105));

    // Out of window - invalid
    assert!(!session.validate_cmd_sn(50));
    assert!(!session.validate_cmd_sn(200));
}

#[test]
fn test_stat_sn_increment() {
    let mut session = IscsiSession::new();
    session.stat_sn = 0;

    assert_eq!(session.next_stat_sn(), 0);
    assert_eq!(session.stat_sn, 1);

    assert_eq!(session.next_stat_sn(), 1);
    assert_eq!(session.stat_sn, 2);
}

#[test]
fn test_generate_response_params() {
    let mut session = IscsiSession::new();
    session.params.target_name = "iqn.2025-12.local:storage".to_string();
    session.params.max_recv_data_segment_length = 8192;

    let params = session.generate_response_params();

    // SessionType should NOT be in response (it's initiator-only per RFC 3720)
    assert!(params.iter().any(|(k, _)| k == "MaxRecvDataSegmentLength"));
    assert!(params.iter().any(|(k, _)| k == "MaxBurstLength"));
}

#[test]
fn test_session_states() {
    let mut session = IscsiSession::new();

    assert!(!session.is_full_feature());
    assert!(!session.is_discovery());

    session.state = SessionState::FullFeaturePhase;
    assert!(session.is_full_feature());

    session.session_type = SessionType::Discovery;
    assert!(session.is_discovery());
}

#[test]
fn test_connection_new() {
    let conn = IscsiConnection::new(1);
    assert_eq!(conn.cid, 1);
    assert_eq!(conn.state, ConnectionState::Free);
    assert!(conn.session_id.is_none());
}

#[test]
fn test_digest_type_default() {
    assert_eq!(DigestType::default(), DigestType::NoDigest);
}

#[test]
fn test_send_targets() {
    let session = IscsiSession::new();
    let targets = session.handle_send_targets("iqn.2025-12.local:storage", "192.168.1.100:3260");

    assert_eq!(targets.len(), 2);
    assert!(targets.iter().any(|(k, v)| k == "TargetName" && v == "iqn.2025-12.local:storage"));
    assert!(targets.iter().any(|(k, v)| k == "TargetAddress" && v == "192.168.1.100:3260,1"));
}

#[test]
fn test_header_digest_negotiation() {
    let mut session = IscsiSession::new();

    session.apply_initiator_param("HeaderDigest", "None");
    assert_eq!(session.params.header_digest, DigestType::NoDigest);

    session.apply_initiator_param("HeaderDigest", "CRC32C");
    assert_eq!(session.params.header_digest, DigestType::CRC32C);

    session.apply_initiator_param("HeaderDigest", "None,CRC32C");
    assert_eq!(session.params.header_digest, DigestType::CRC32C);
}

// ----------------------------------------------------------------------------
// Further cases
// ----------------------------------------------------------------------------

#[test]
fn negotiation_only_narrows() {
    let mut session = IscsiSession::new();
    session.apply_initiator_param("MaxBurstLength", "999999999");
    assert_eq!(session.params.max_burst_length, 262144);
    session.apply_initiator_param("DefaultTime2Wait", "1");
    assert_eq!(session.params.default_time2wait, 2);
    session.apply_initiator_param("DefaultTime2Wait", "7");
    assert_eq!(session.params.default_time2wait, 7);
    session.apply_initiator_param("DefaultTime2Retain", "5");
    assert_eq!(session.params.default_time2retain, 5);
    session.apply_initiator_param("MaxOutstandingR2T", "4");
    assert_eq!(session.params.max_outstanding_r2t, 1);
    session.apply_initiator_param("ImmediateData", "No");
    session.apply_initiator_param("ImmediateData", "Yes");
    assert!(!session.params.immediate_data);
    // Applying the same pair twice changes nothing more
    session.apply_initiator_param("FirstBurstLength", "1000");
    session.apply_initiator_param("FirstBurstLength", "1000");
    assert_eq!(session.params.first_burst_length, 1000);
}

#[test]
fn negotiation_ignores_bad_numbers_and_unknown_keys() {
    let mut session = IscsiSession::new();
    session.apply_initiator_param("MaxRecvDataSegmentLength", "+65536");
    assert_eq!(session.params.max_xmit_data_segment_length, 65536);
    session.apply_initiator_param("MaxRecvDataSegmentLength", "12ab");
    assert_eq!(session.params.max_xmit_data_segment_length, 65536);
    session.apply_initiator_param("MaxRecvDataSegmentLength", "4294967296");
    assert_eq!(session.params.max_xmit_data_segment_length, 65536);
    session.apply_initiator_param("ErrorRecoveryLevel", "256");
    assert_eq!(session.params.error_recovery_level, 0);
    session.apply_initiator_param("SessionType", "Bogus");
    assert_eq!(session.params.invalid_session_type.as_deref(), Some("Bogus"));
    session.apply_initiator_param("X-Unknown", "1");
    session.apply_initiator_param("DataDigest", "CRC32C,None");
    assert_eq!(session.params.data_digest, DigestType::CRC32C);
}

#[test]
fn response_params_list_every_value() {
    let mut session = IscsiSession::new();
    session.params.target_alias = "Disk".to_string();
    let params = session.generate_response_params();
    assert_eq!(params.len(), 14);
    assert_eq!(params[0], ("TargetAlias".to_string(), "Disk".to_string()));
    assert_eq!(params[1], ("MaxRecvDataSegmentLength".to_string(), "8192".to_string()));
    assert_eq!(params[7], ("DataPDUInOrder".to_string(), "Yes".to_string()));
    assert_eq!(params[11], ("InitialR2T".to_string(), "No".to_string()));
    assert_eq!(params[12], ("HeaderDigest".to_string(), "None".to_string()));
    session.session_type = SessionType::Discovery;
    assert_eq!(session.generate_response_params().len(), 13);
}

#[test]
fn command_window_wraps_around() {
    let mut session = IscsiSession::new();
    session.exp_cmd_sn = 0xFFFF_FFFF;
    session.max_cmd_sn = 5;
    assert!(session.validate_cmd_sn(0xFFFF_FFFF));
    assert_eq!(session.exp_cmd_sn, 0);
    assert_eq!(session.max_cmd_sn, 6);
    assert!(session.validate_cmd_sn(3));
    assert_eq!(session.exp_cmd_sn, 0);
    assert!(!session.validate_cmd_sn(0x8000_0010));
}

#[test]
fn transfer_tags_skip_the_reserved_value() {
    let mut session = IscsiSession::new();
    assert_eq!(session.next_target_transfer_tag(), 1);
    assert_eq!(session.next_target_transfer_tag(), 2);
    session.next_ttt = 0xFFFF_FFFE;
    assert_eq!(session.next_target_transfer_tag(), 0xFFFF_FFFE);
    assert_eq!(session.next_ttt, 1);
    assert_eq!(session.next_target_transfer_tag(), 1);
}

#[test]
fn stat_sn_wraps() {
    let mut session = IscsiSession::new();
    session.stat_sn = u32::MAX;
    assert_eq!(session.next_stat_sn(), u32::MAX);
    assert_eq!(session.stat_sn, 0);
}
