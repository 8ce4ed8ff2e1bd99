//! Login status codes and their messages (RFC 3720).

use iscsi_target::error::decode_login_status;

#[test]
fn test_decode_success() {
    let msg = decode_login_status(0x00, 0x00);
    assert!(msg.contains("success"), "Success message should mention success");
}

#[test]
fn test_decode_target_moved_temporarily() {
    let msg = decode_login_status(0x01, 0x01);
    assert!(msg.contains("moved temporarily"), "Should mention temporary move");
    assert!(msg.contains("portal"), "Should mention portal");
}

#[test]
fn test_decode_target_moved_permanently() {
    let msg = decode_login_status(0x01, 0x02);
    assert!(msg.contains("moved permanently"), "Should mention permanent move");
    assert!(msg.contains("configuration"), "Should suggest config update");
}

#[test]
fn test_decode_auth_failure() {
    let msg = decode_login_status(0x02, 0x01);
    assert!(msg.contains("Authentication failed"), "Should indicate auth failure");
    assert!(msg.contains("username") || msg.contains("password"), "Should mention credentials");
}

#[test]
fn test_decode_authorization_failure() {
    let msg = decode_login_status(0x02, 0x02);
    assert!(msg.contains("Authorization failure"), "Should indicate authz failure");
    assert!(msg.contains("ACL"), "Should mention ACL");
    assert!(msg.contains("tgtadm"), "Should provide TGTD example");
}

#[test]
fn test_decode_target_not_found() {
    let msg = decode_login_status(0x02, 0x03);
    assert!(msg.contains("Target not found") || msg.contains("doesn't exist"), "Should indicate target not found");
    assert!(msg.contains("discovery") || msg.contains("discover"), "Should suggest running discovery");
}

#[test]
fn test_decode_target_removed() {
    let msg = decode_login_status(0x02, 0x04);
    assert!(msg.contains("removed"), "Should mention removal");
}

#[test]
fn test_decode_unsupported_version() {
    let msg = decode_login_status(0x02, 0x05);
    assert!(msg.contains("version") || msg.contains("Unsupported"), "Should mention version");
}

#[test]
fn test_decode_too_many_connections() {
    let msg = decode_login_status(0x02, 0x06);
    assert!(msg.contains("Too many connections") || msg.contains("maximum"), "Should indicate connection limit");
    assert!(msg.contains("MaxConnections"), "Should mention MaxConnections parameter");
}

#[test]
fn test_decode_missing_parameter() {
    let msg = decode_login_status(0x02, 0x07);
    assert!(msg.contains("Missing") || msg.contains("required"), "Should indicate missing parameter");
    assert!(msg.contains("InitiatorName"), "Should list InitiatorName");
    assert!(msg.contains("TargetName"), "Should list TargetName");
}

#[test]
fn test_decode_cannot_include_in_session() {
    let msg = decode_login_status(0x02, 0x08);
    assert!(msg.contains("session") || msg.contains("include"), "Should mention session");
}

#[test]
fn test_decode_session_type_not_supported() {
    let msg = decode_login_status(0x02, 0x09);
    assert!(msg.contains("Session type") || msg.contains("not supported"), "Should indicate unsupported type");
    // Message mentions "discovery" or "SendTargets" as troubleshooting
    assert!(
        msg.contains("discovery") || msg.contains("SendTargets") || msg.contains("TargetName"),
        "Should provide troubleshooting hints, got: {}",
        msg
    );
}

#[test]
fn test_decode_session_does_not_exist() {
    let msg = decode_login_status(0x02, 0x0A);
    assert!(msg.contains("does not exist") || msg.contains("Session"), "Should indicate session missing");
}

#[test]
fn test_decode_invalid_request_during_login() {
    let msg = decode_login_status(0x02, 0x0B);
    assert!(msg.contains("Invalid") || msg.contains("login"), "Should indicate invalid request");
}

#[test]
fn test_decode_target_error() {
    let msg = decode_login_status(0x03, 0x00);
    assert!(msg.contains("Target error"), "Should indicate target error");
}

#[test]
fn test_decode_service_unavailable() {
    let msg = decode_login_status(0x03, 0x01);
    assert!(msg.contains("unavailable") || msg.contains("service"), "Should indicate unavailable");
    assert!(msg.contains("retry") || msg.contains("Wait"), "Should suggest retry");
}

#[test]
fn test_decode_out_of_resources() {
    let msg = decode_login_status(0x03, 0x02);
    assert!(msg.contains("resources") || msg.contains("out of"), "Should indicate resource exhaustion");
}

#[test]
fn test_decode_unknown_status() {
    let msg = decode_login_status(0xFF, 0xFF);
    assert!(msg.contains("Unknown") || msg.contains("unrecognized"), "Should indicate unknown code");
    assert!(msg.contains("0xff") || msg.contains("0xFF"), "Should show the code");
    assert!(msg.contains("RFC 3720"), "Should reference RFC");
}

#[test]
fn test_all_rfc_3720_status_codes_have_messages() {
    // This test documents all RFC 3720 status codes and verifies the decoder handles them
    let test_cases = vec![
        (0x00, 0x00, "Success"),
        (0x01, 0x01, "Target moved temporarily"),
        (0x01, 0x02, "Target moved permanently"),
        (0x02, 0x00, "Authentication failure"),
        (0x02, 0x01, "Authentication failed"),
        (0x02, 0x02, "Authorization failure"),
        (0x02, 0x03, "Target not found"),
        (0x02, 0x04, "Target removed"),
        (0x02, 0x05, "Unsupported version"),
        (0x02, 0x06, "Too many connections"),
        (0x02, 0x07, "Missing parameter"),
        (0x02, 0x08, "Cannot include in session"),
        (0x02, 0x09, "Session type not supported"),
        (0x02, 0x0A, "Session does not exist"),
        (0x02, 0x0B, "Invalid request during login"),
        (0x03, 0x00, "Target error"),
        (0x03, 0x01, "Service unavailable"),
        (0x03, 0x02, "Out of resources"),
    ];

    for (class, detail, description) in test_cases {
        let msg = decode_login_status(class, detail);
        assert!(
            !msg.is_empty(),
            "Status code 0x{:02x}{:02x} ({}) should have a non-empty message",
            class,
            detail,
            description
        );

        // Should not return "Unknown" for documented codes
        assert!(
            !msg.contains("Unknown"),
            "Status code 0x{:02x}{:02x} ({}) should not return 'Unknown' message, got: {}",
            class,
            detail,
            description,
            msg
        );
    }
}

#[test]
fn unknown_status_names_both_bytes() {
    let msg = decode_login_status(0x04, 0x0c);
    assert!(msg.starts_with("Unknown login status: class=0x04, detail=0x0c"));
}
