//! CHAP state, credentials and authentication configuration.

use iscsi_target::auth::{parse_chap_response, AuthConfig, ChapAlgorithm, ChapAuthState, ChapCredentials};

#[test]
fn test_chap_response_validation() {
    let state = ChapAuthState::new(false);
    let secret = "mysecret";

    // Calculate response
    let response = state.calculate_response(secret);

    // Validate correct response
    assert!(state.validate_response(&response, secret));

    // Validate incorrect response
    let mut bad_response = response.clone();
    bad_response[0] ^= 1;
    assert!(!state.validate_response(&bad_response, secret));

    // Validate incorrect secret
    assert!(!state.validate_response(&response, "wrongsecret"));
}

#[test]
fn test_chap_challenge_generation() {
    let state1 = ChapAuthState::new(false);
    let state2 = ChapAuthState::new(false);

    // Challenges should be different
    assert_ne!(state1.identifier, state2.identifier);
    assert_ne!(state1.challenge, state2.challenge);
}

#[test]
fn test_auth_config() {
    let none = AuthConfig::NoAuth;
    assert!(!none.requires_auth());
    assert_eq!(none.auth_method(), "None");

    let chap = AuthConfig::Chap { credentials: ChapCredentials::new("user", "secret") };
    assert!(chap.requires_auth());
    assert_eq!(chap.auth_method(), "CHAP");
    assert!(!chap.is_mutual());

    let mutual = AuthConfig::MutualChap {
        target_credentials: ChapCredentials::new("target", "secret1"),
        initiator_credentials: ChapCredentials::new("initiator", "secret2"),
    };
    assert!(mutual.requires_auth());
    assert_eq!(mutual.auth_method(), "CHAP");
    assert!(mutual.is_mutual());
}

// ----------------------------------------------------------------------------
// Further cases
// ----------------------------------------------------------------------------

#[test]
fn chap_response_is_md5_of_identifier_secret_challenge() {
    let state = ChapAuthState { identifier: 7, challenge: vec![1, 2, 3, 4], is_target_auth: false };
    let mut input = vec![7u8];
    input.extend_from_slice(b"s3cret");
    input.extend_from_slice(&[1, 2, 3, 4]);
    let expected = md5::compute(&input).0.to_vec();
    assert_eq!(state.calculate_response("s3cret"), expected);
    assert_eq!(expected.len(), 16);
    assert!(state.validate_response(&expected, "s3cret"));
    assert!(!state.validate_response(&expected[..15], "s3cret"));
}

#[test]
fn challenge_is_sixteen_random_bytes_in_lowercase_hex() {
    let state = ChapAuthState::new(true);
    assert_eq!(state.challenge.len(), 16);
    assert!(state.is_target_auth);
    let fixed = ChapAuthState { identifier: 200, challenge: vec![0x0A, 0xFF, 0x10], is_target_auth: false };
    assert_eq!(fixed.challenge_hex(), "0aff10");
    assert_eq!(fixed.identifier_str(), "200");
}

#[test]
fn chap_response_hex_parsing() {
    assert_eq!(parse_chap_response("0aFF10").unwrap(), vec![0x0A, 0xFF, 0x10]);
    let err = parse_chap_response("abc").unwrap_err();
    assert!(err.to_string().starts_with("Authentication error: Invalid CHAP response hex: "));
    assert!(parse_chap_response("zz").is_err());
    assert_eq!(parse_chap_response("").unwrap(), Vec::<u8>::new());
}

#[test]
fn chap_algorithm_and_default_config() {
    assert_eq!(ChapAlgorithm::from_str("5"), Some(ChapAlgorithm::Md5));
    assert_eq!(ChapAlgorithm::from_str("7"), None);
    let d = AuthConfig::default();
    assert!(!d.requires_auth());
    assert!(!d.is_mutual());
}
