//! The login phase: required keys, status codes, CHAP and transitions.

use iscsi_target::auth::{AuthConfig, ChapAuthState, ChapCredentials};
use iscsi_target::pdu::{opcode, parse_text_parameters, serialize_text_parameters, IscsiPdu};
use iscsi_target::session::{IscsiSession, SessionState, SessionType};
use iscsi_target::target::handle_login_phase;

const TARGET: &str = "iqn.2025-12.test:disk";

fn login_pdu(isid: [u8; 6], csg: u8, nsg: u8, transit: bool, params: &[(&str, &str)]) -> IscsiPdu {
    let pairs: Vec<(String, String)> =
        params.iter().map(|(k, v)| (k.to_string(), v.to_string())).collect();
    let mut pdu = IscsiPdu::login_request(isid, 0, 1, 7, 0, csg, nsg, transit, serialize_text_parameters(&pairs));
    pdu.itt = 0x1000;
    pdu
}

fn status(pdu: &IscsiPdu) -> (u8, u8) {
    (pdu.specific[16], pdu.specific[17])
}

fn fixed_challenge() -> ChapAuthState {
    ChapAuthState { identifier: 42, challenge: vec![0xAB; 16], is_target_auth: false }
}

const ISID: [u8; 6] = [0x40, 0, 0, 1, 0, 0];

#[test]
fn normal_login_reaches_full_feature_phase() {
    let mut session = IscsiSession::new();
    let pdu = login_pdu(
        ISID,
        0,
        3,
        true,
        &[("InitiatorName", "iqn.init"), ("TargetName", TARGET), ("MaxBurstLength", "4096")],
    );
    let resp = session.process_login_with(&pdu, TARGET, fixed_challenge(), 0x1234).unwrap();
    assert_eq!(resp.opcode, opcode::LOGIN_RESPONSE);
    assert_eq!(status(&resp), (0, 0));
    assert_eq!(resp.flags, 0x80 | 3); // transit, CSG 0, NSG 3
    assert_eq!(resp.itt, 0x1000);
    assert_eq!(session.state, SessionState::FullFeaturePhase);
    assert_eq!(session.tsih, 0x1234);
    assert_eq!(resp.lun & 0xFFFF, 0x1234);
    assert_eq!(session.exp_cmd_sn, 7);
    assert_eq!(session.max_cmd_sn, 8);
    assert_eq!(session.stat_sn, 1);
    let params = parse_text_parameters(&resp.data).unwrap();
    assert!(params.contains(&("MaxBurstLength".to_string(), "4096".to_string())));
    assert!(!params.iter().any(|(k, _)| k == "TargetName" || k == "SessionType"));
}

#[test]
fn process_login_assigns_a_nonzero_tsih() {
    let mut session = IscsiSession::new();
    let pdu = login_pdu(ISID, 0, 3, true, &[("InitiatorName", "iqn.init"), ("TargetName", TARGET)]);
    let resp = session.process_login(&pdu, TARGET).unwrap();
    assert_eq!(status(&resp), (0, 0));
    assert!(session.tsih >= 1);
}

#[test]
fn intermediate_login_has_no_transit() {
    let mut session = IscsiSession::new();
    let pdu = login_pdu(ISID, 0, 1, false, &[("InitiatorName", "iqn.init"), ("TargetName", TARGET), ("AuthMethod", "None")]);
    let resp = session.process_login_with(&pdu, TARGET, fixed_challenge(), 9).unwrap();
    assert_eq!(resp.flags & 0x80, 0);
    assert_eq!(parse_text_parameters(&resp.data).unwrap(), vec![("AuthMethod".to_string(), "None".to_string())]);
    assert_eq!(session.state, SessionState::Free);
    let pdu = login_pdu(ISID, 0, 1, true, &[]);
    let resp = session.process_login_with(&pdu, TARGET, fixed_challenge(), 9).unwrap();
    assert_eq!(status(&resp), (0, 0));
    assert_eq!(session.state, SessionState::LoginOperationalNegotiation);
    let pdu = login_pdu(ISID, 1, 3, true, &[("HeaderDigest", "None")]);
    let resp = session.process_login_with(&pdu, TARGET, fixed_challenge(), 9).unwrap();
    assert_eq!(session.state, SessionState::FullFeaturePhase);
    assert_eq!(session.tsih, 9);
    assert!(!resp.data.is_empty());
}

#[test]
fn missing_initiator_name_is_rejected() {
    let mut session = IscsiSession::new();
    let pdu = login_pdu(ISID, 0, 1, false, &[("TargetName", TARGET)]);
    let resp = session.process_login_with(&pdu, TARGET, fixed_challenge(), 1).unwrap();
    assert_eq!(status(&resp), (0x02, 0x07));
    assert_eq!(resp.flags & 0x80, 0);
    assert_eq!(resp.lun & 0xFFFF, 0);
    assert_eq!(session.stat_sn, 0);
}

#[test]
fn missing_target_name_is_rejected() {
    let mut session = IscsiSession::new();
    let pdu = login_pdu([0; 6], 0, 1, false, &[("InitiatorName", "iqn.init")]);
    let resp = session.process_login_with(&pdu, TARGET, fixed_challenge(), 1).unwrap();
    assert_eq!(status(&resp), (0x02, 0x07));
}

#[test]
fn unknown_target_is_rejected() {
    let mut session = IscsiSession::new();
    let pdu = login_pdu(ISID, 0, 1, false, &[("InitiatorName", "iqn.init"), ("TargetName", "iqn.other")]);
    let resp = session.process_login_with(&pdu, TARGET, fixed_challenge(), 1).unwrap();
    assert_eq!(status(&resp), (0x02, 0x03));
}

#[test]
fn unsupported_session_type_is_rejected() {
    let mut session = IscsiSession::new();
    let pdu = login_pdu(
        ISID,
        0,
        1,
        false,
        &[("InitiatorName", "iqn.init"), ("TargetName", TARGET), ("SessionType", "Weird")],
    );
    let resp = session.process_login_with(&pdu, TARGET, fixed_challenge(), 1).unwrap();
    assert_eq!(status(&resp), (0x02, 0x09));
}

#[test]
fn unsupported_version_is_rejected() {
    let mut session = IscsiSession::new();
    let mut pdu = login_pdu(ISID, 0, 1, false, &[("InitiatorName", "iqn.init"), ("TargetName", TARGET)]);
    pdu.version_or_reserved = 0x0201; // version-max 2, version-min 1
    let resp = session.process_login_with(&pdu, TARGET, fixed_challenge(), 1).unwrap();
    assert_eq!(status(&resp), (0x02, 0x05));
    assert_eq!(session.state, SessionState::Free);
    assert!(session.params.initiator_name.is_empty());
}

#[test]
fn wrong_pdu_kind_is_an_error() {
    let mut session = IscsiSession::new();
    let pdu = IscsiPdu::new();
    let err = session.process_login_with(&pdu, TARGET, fixed_challenge(), 1).unwrap_err();
    assert_eq!(err.to_string(), "Invalid PDU: Expected Login Request opcode 0x03, got 0x00");
}

#[test]
fn access_list_denies_unknown_initiator() {
    let mut session = IscsiSession::new();
    session.set_allowed_initiators(Some(vec!["iqn.allowed".to_string()]));
    let pdu = login_pdu(ISID, 0, 3, true, &[("InitiatorName", "iqn.init"), ("TargetName", TARGET)]);
    let resp = session.process_login_with(&pdu, TARGET, fixed_challenge(), 1).unwrap();
    assert_eq!(status(&resp), (0x02, 0x02));
    assert_eq!(session.state, SessionState::Free);

    let mut session = IscsiSession::new();
    session.set_allowed_initiators(Some(vec!["iqn.init".to_string()]));
    let resp = session.process_login_with(&pdu, TARGET, fixed_challenge(), 1).unwrap();
    assert_eq!(status(&resp), (0, 0));
}

#[test]
fn discovery_login_echoes_operational_keys_only() {
    let mut session = IscsiSession::new();
    let pdu = login_pdu(
        ISID,
        0,
        3,
        true,
        &[("InitiatorName", "iqn.init"), ("SessionType", "Discovery"), ("HeaderDigest", "CRC32C"), ("MaxRecvDataSegmentLength", "1024")],
    );
    let resp = session.process_login_with(&pdu, TARGET, fixed_challenge(), 77).unwrap();
    assert_eq!(status(&resp), (0, 0));
    assert_eq!(session.session_type, SessionType::Discovery);
    assert_eq!(session.tsih, 0); // no TSIH for discovery
    assert_eq!(
        parse_text_parameters(&resp.data).unwrap(),
        vec![
            ("HeaderDigest".to_string(), "None".to_string()),
            ("MaxRecvDataSegmentLength".to_string(), "8192".to_string()),
        ]
    );
}

#[test]
fn shutdown_and_other_rejects() {
    let session = IscsiSession::new();
    assert_eq!(status(&session.create_shutdown_reject(1).unwrap()), (0x03, 0x01));
    assert_eq!(status(&session.create_too_many_connections_reject(1).unwrap()), (0x02, 0x06));
    assert_eq!(status(&session.create_invalid_request_during_login_reject(1).unwrap()), (0x02, 0x0B));
    assert_eq!(status(&session.create_unsupported_version_reject(1, 2, 1).unwrap()), (0x02, 0x05));
    assert_eq!(status(&session.create_authorization_failure_reject(1).unwrap()), (0x02, 0x02));
    assert_eq!(status(&session.create_out_of_resources_reject(1).unwrap()), (0x03, 0x02));
}

fn chap_session() -> IscsiSession {
    let mut session = IscsiSession::new();
    session.set_auth_config(AuthConfig::Chap { credentials: ChapCredentials::new("alice", "sesame") });
    session
}

#[test]
fn chap_login_succeeds_with_the_right_secret() {
    let mut session = chap_session();
    // Step 1: the initiator offers CHAP
    let pdu = login_pdu(ISID, 0, 1, false, &[("InitiatorName", "iqn.init"), ("TargetName", TARGET), ("AuthMethod", "CHAP,None")]);
    let resp = session.process_login_with(&pdu, TARGET, fixed_challenge(), 1).unwrap();
    assert_eq!(status(&resp), (0, 0));
    assert_eq!(
        parse_text_parameters(&resp.data).unwrap(),
        vec![("TargetPortalGroupTag".to_string(), "1".to_string()), ("AuthMethod".to_string(), "CHAP".to_string())]
    );
    // Step 2: it picks MD5; the target sends its challenge
    let pdu = login_pdu(ISID, 0, 1, false, &[("CHAP_A", "5")]);
    let resp = session.process_login_with(&pdu, TARGET, fixed_challenge(), 1).unwrap();
    let params = parse_text_parameters(&resp.data).unwrap();
    assert_eq!(params[0], ("CHAP_A".to_string(), "5".to_string()));
    assert_eq!(params[1], ("CHAP_I".to_string(), "42".to_string()));
    assert_eq!(params[2], ("CHAP_C".to_string(), "ab".repeat(16)));
    // Step 3: it answers
    let answer = hex::encode(fixed_challenge().calculate_response("sesame"));
    let pdu = login_pdu(ISID, 0, 1, true, &[("CHAP_N", "alice"), ("CHAP_R", &answer)]);
    let resp = session.process_login_with(&pdu, TARGET, fixed_challenge(), 1).unwrap();
    assert_eq!(status(&resp), (0, 0));
    assert_eq!(resp.flags & 0x80, 0x80);
    assert_eq!(session.state, SessionState::LoginOperationalNegotiation);
    assert!(session.chap_completed);
    assert!(session.chap_state.is_none());
}

#[test]
fn chap_login_fails_with_a_wrong_secret_or_user() {
    let mut session = chap_session();
    let pdu = login_pdu(ISID, 0, 1, false, &[("InitiatorName", "iqn.init"), ("TargetName", TARGET), ("CHAP_A", "5")]);
    session.process_login_with(&pdu, TARGET, fixed_challenge(), 1).unwrap();
    let wrong = hex::encode(fixed_challenge().calculate_response("guess"));
    let pdu = login_pdu(ISID, 0, 1, true, &[("CHAP_N", "alice"), ("CHAP_R", &wrong)]);
    let resp = session.process_login_with(&pdu, TARGET, fixed_challenge(), 1).unwrap();
    assert_eq!(status(&resp), (0x02, 0x01));
    assert_ne!(session.state, SessionState::FullFeaturePhase);
    let right = hex::encode(fixed_challenge().calculate_response("sesame"));
    let pdu = login_pdu(ISID, 0, 1, true, &[("CHAP_N", "mallory"), ("CHAP_R", &right)]);
    let resp = session.process_login_with(&pdu, TARGET, fixed_challenge(), 1).unwrap();
    assert_eq!(status(&resp), (0x02, 0x01));
}

#[test]
fn chap_required_but_not_offered() {
    let mut session = chap_session();
    let pdu = login_pdu(ISID, 0, 3, true, &[("InitiatorName", "iqn.init"), ("TargetName", TARGET), ("AuthMethod", "None")]);
    let resp = session.process_login_with(&pdu, TARGET, fixed_challenge(), 1).unwrap();
    assert_eq!(status(&resp), (0x02, 0x01));
    assert_eq!(session.state, SessionState::Free);
}

#[test]
fn mutual_chap_target_answers_the_initiator() {
    let mut session = IscsiSession::new();
    session.set_auth_config(AuthConfig::MutualChap {
        target_credentials: ChapCredentials::new("alice", "sesame"),
        initiator_credentials: ChapCredentials::new("target-user", "target-secret"),
    });
    let pdu = login_pdu(ISID, 0, 1, false, &[("InitiatorName", "iqn.init"), ("TargetName", TARGET), ("CHAP_A", "5")]);
    session.process_login_with(&pdu, TARGET, fixed_challenge(), 1).unwrap();
    let answer = hex::encode(fixed_challenge().calculate_response("sesame"));
    let pdu = login_pdu(
        ISID,
        0,
        1,
        true,
        &[("CHAP_N", "alice"), ("CHAP_R", &answer), ("CHAP_I", "9"), ("CHAP_C", "0x01020304")],
    );
    let resp = session.process_login_with(&pdu, TARGET, fixed_challenge(), 1).unwrap();
    assert_eq!(status(&resp), (0, 0));
    assert_eq!(resp.flags & 0x80, 0); // no transit with the target's answer
    let mut input = vec![9u8];
    input.extend_from_slice(b"target-secret");
    input.extend_from_slice(&[1, 2, 3, 4]);
    let expected = format!("0x{}", hex::encode(md5::compute(&input).0));
    assert_eq!(
        parse_text_parameters(&resp.data).unwrap(),
        vec![("CHAP_N".to_string(), "target-user".to_string()), ("CHAP_R".to_string(), expected)]
    );
    // The empty request afterwards makes the transition
    let pdu = login_pdu(ISID, 0, 1, true, &[]);
    let resp = session.process_login_with(&pdu, TARGET, fixed_challenge(), 1).unwrap();
    assert_eq!(status(&resp), (0, 0));
    assert_eq!(session.state, SessionState::LoginOperationalNegotiation);
}

#[test]
fn login_phase_handler_wraps_the_response() {
    let mut session = IscsiSession::new();
    let pdu = login_pdu(ISID, 0, 3, true, &[("InitiatorName", "iqn.init"), ("TargetName", TARGET)]);
    let out = handle_login_phase(&mut session, &pdu, TARGET, "127.0.0.1:3260").unwrap();
    assert_eq!(out.len(), 1);
    assert_eq!(out[0].opcode, opcode::LOGIN_RESPONSE);
    let mut other = IscsiPdu::new();
    other.opcode = opcode::SCSI_COMMAND;
    assert!(handle_login_phase(&mut session, &other, TARGET, "x").unwrap().is_empty());
}

#[test]
fn session_from_login_request() {
    let data = serialize_text_parameters(&[("SessionType".to_string(), "Discovery".to_string())]);
    let pdu = IscsiPdu::login_request([1, 2, 3, 4, 5, 6], 0, 3, 100, 0, 1, 3, true, data);
    let login = pdu.parse_login_request().unwrap();
    let session = IscsiSession::from_login_request(&login, TARGET);
    assert_eq!(session.isid, [1, 2, 3, 4, 5, 6]);
    assert_eq!(session.cid, 3);
    assert_eq!(session.exp_cmd_sn, 100);
    assert_eq!(session.max_cmd_sn, 101);
    assert_eq!(session.state, SessionState::LoginOperationalNegotiation);
    assert_eq!(session.session_type, SessionType::Discovery);
    assert_eq!(session.params.target_name, TARGET);
}

#[test]
fn each_accepted_login_response_carries_the_next_stat_sn() {
    let mut session = IscsiSession::new();
    let pdu = login_pdu(ISID, 0, 1, true, &[("InitiatorName", "iqn.init"), ("TargetName", TARGET)]);
    let resp = session.process_login_with(&pdu, TARGET, fixed_challenge(), 5).unwrap();
    assert_eq!(status(&resp), (0, 0));
    assert_eq!(resp.flags, 0x80 | 1);
    assert_eq!(session.state, SessionState::LoginOperationalNegotiation);
    assert_eq!(session.tsih, 0);
    assert_eq!(session.stat_sn, 1);
    assert_eq!(u32::from_be_bytes([resp.specific[4], resp.specific[5], resp.specific[6], resp.specific[7]]), 1);
    // Operational stage straight back to the security stage is no transition
    let pdu = login_pdu(ISID, 1, 0, true, &[]);
    let resp = session.process_login_with(&pdu, TARGET, fixed_challenge(), 5).unwrap();
    assert_eq!(status(&resp), (0, 0));
    assert_eq!(resp.flags & 0x80, 0);
    assert_eq!(session.state, SessionState::LoginOperationalNegotiation);
    assert_eq!(session.stat_sn, 2);
    let pdu = login_pdu(ISID, 1, 3, true, &[]);
    let resp = session.process_login_with(&pdu, TARGET, fixed_challenge(), 5).unwrap();
    assert_eq!(resp.flags, 0x80 | 0x04 | 3);
    assert_eq!(session.state, SessionState::FullFeaturePhase);
    assert_eq!(session.tsih, 5);
    assert_eq!(session.stat_sn, 3);
    assert_eq!(u32::from_be_bytes([resp.specific[4], resp.specific[5], resp.specific[6], resp.specific[7]]), 3);
}
