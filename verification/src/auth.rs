//! CHAP (Challenge-Handshake Authentication Protocol) implementation
//!
//! RFC 3720 Section 8.2 - CHAP Algorithm

use vstd::prelude::*;
use crate::error::{IscsiError, ScsiResult};
use crate::text::{dec_chars, decimal_string, hex_chars, str_eq};
use rand::Rng;
use vstd::utf8::encode_utf8;

verus! {

// ============================================================================
// Outside functions: random numbers, MD5, hexadecimal
// ============================================================================

#[verifier::external_type_specification]
#[verifier::external_body]
pub struct ExThreadRng(rand::rngs::ThreadRng);

#[verifier::external_type_specification]
#[verifier::external_body]
pub struct ExFromHexError(hex::FromHexError);

/// `rand::thread_rng`: the thread-local generator, seeded by the system.
/// Nothing is claimed of it.
#[verifier::external_body]
fn thread_rng() -> rand::rngs::ThreadRng {
    rand::thread_rng()
}

/// `Rng::gen::<u8>` on the thread-local generator: a random byte, of which
/// nothing is claimed.
#[verifier::external_body]
fn random_u8(rng: &mut rand::rngs::ThreadRng) -> u8 {
    rng.gen::<u8>()
}

/// `Rng::fill` on the thread-local generator: overwrites the array with
/// random bytes, of which nothing is claimed.
#[verifier::external_body]
fn fill_random(rng: &mut rand::rngs::ThreadRng, buf: &mut [u8; 16]) {
    rng.fill(buf);
}

/// The MD5 digest of a byte sequence.
pub uninterp spec fn md5_digest(data: Seq<u8>) -> Seq<u8>;

/// `md5::compute`: the 16-byte MD5 digest of the data.  The contract names
/// the digest; its length is that of the array the crate returns.
#[verifier::external_body]
pub(crate) fn md5_compute(data: &[u8]) -> (r: [u8; 16])
    ensures
        r@ == md5_digest(data@),
{
    md5::compute(data).0
}

/// `hex::encode`: two lowercase hexadecimal digits per byte, as the crate
/// documents.
#[verifier::external_body]
pub(crate) fn hex_encode(data: &[u8]) -> (r: String)
    ensures
        r@ == hex_chars(data@),
{
    hex::encode(data)
}

/// The value of one hexadecimal digit, either case.
pub open spec fn hex_value(b: u8) -> Option<u8> {
    if 48 <= b <= 57 {
        Some((b - 48) as u8)
    } else if 65 <= b <= 70 {
        Some((b - 55) as u8)
    } else if 97 <= b <= 102 {
        Some((b - 87) as u8)
    } else {
        None
    }
}

/// The bytes that hexadecimal text denotes: `None` for an odd number of
/// digits or a character that is not a hexadecimal digit.
pub open spec fn hex_decode_spec(s: Seq<u8>) -> Option<Seq<u8>> {
    if s.len() % 2 != 0 {
        None
    } else if exists|i: int| 0 <= i < s.len() && (#[trigger] hex_value(s[i])) is None {
        None
    } else {
        Some(
            Seq::new(
                s.len() / 2,
                |i: int| (hex_value(s[2 * i])->0 * 16 + hex_value(s[2 * i + 1])->0) as u8,
            ),
        )
    }
}

/// `hex::decode`: the bytes that the text's hexadecimal digits denote, two
/// digits per byte, either case; an error for an odd length or a
/// character that is not a digit.  Which error comes back is not claimed.
#[verifier::external_body]
pub(crate) fn hex_decode(s: &str) -> (r: Result<Vec<u8>, hex::FromHexError>)
    ensures
        match hex_decode_spec(encode_utf8(s@)) {
            Some(b) => r matches Ok(v) && v@ == b,
            None => r is Err,
        },
{
    hex::decode(s)
}

// ============================================================================
// Configuration
// ============================================================================

/// CHAP algorithm identifier (RFC 1994)
#[derive(Debug, Clone, Copy, PartialEq, Eq, Structural)]
pub enum ChapAlgorithm {
    /// MD5 algorithm (algorithm identifier 5)
    Md5,
}

impl ChapAlgorithm {
    pub fn from_str(s: &str) -> (r: Option<Self>)
        ensures
            r == (if s@ == "5"@ {
                Some(ChapAlgorithm::Md5)
            } else {
                None
            }),
    {
        if str_eq(s, "5") {
            Some(ChapAlgorithm::Md5)
        } else {
            None
        }
    }
}

/// CHAP credentials for authentication
#[derive(Debug, Clone)]
pub struct ChapCredentials {
    /// Username for CHAP authentication
    pub username: String,
    /// Secret/password for CHAP authentication
    pub secret: String,
}

/// Credentials as mathematical values.
pub struct CredentialsView {
    pub username: Seq<char>,
    pub secret: Seq<char>,
}

impl View for ChapCredentials {
    type V = CredentialsView;

    open spec fn view(&self) -> CredentialsView {
        CredentialsView { username: self.username@, secret: self.secret@ }
    }
}

impl ChapCredentials {
    pub fn new(username: &str, secret: &str) -> (r: Self)
        ensures
            r.username@ == username@,
            r.secret@ == secret@,
    {
        Self { username: username.to_string(), secret: secret.to_string() }
    }
}

/// Authentication configuration
#[derive(Debug, Clone)]
pub enum AuthConfig {
    /// No authentication required
    NoAuth,
    /// CHAP authentication (one-way: initiator authenticates to target)
    Chap {
        /// Target credentials (for validating initiator)
        credentials: ChapCredentials,
    },
    /// Mutual CHAP (two-way: both initiator and target authenticate)
    MutualChap {
        /// Target credentials (for validating initiator)
        target_credentials: ChapCredentials,
        /// Initiator credentials (for target to prove identity)
        initiator_credentials: ChapCredentials,
    },
}

/// An authentication configuration as mathematical values.
pub enum AuthView {
    NoAuth,
    Chap { credentials: CredentialsView },
    MutualChap { target_credentials: CredentialsView, initiator_credentials: CredentialsView },
}

impl View for AuthConfig {
    type V = AuthView;

    open spec fn view(&self) -> AuthView {
        match self {
            AuthConfig::NoAuth => AuthView::NoAuth,
            AuthConfig::Chap { credentials } => AuthView::Chap { credentials: credentials@ },
            AuthConfig::MutualChap { target_credentials, initiator_credentials } => AuthView::MutualChap {
                target_credentials: target_credentials@,
                initiator_credentials: initiator_credentials@,
            },
        }
    }
}

impl Default for AuthConfig {
    fn default() -> (r: Self)
        ensures
            r is NoAuth,
    {
        AuthConfig::NoAuth
    }
}

impl AuthConfig {
    /// Check if authentication is required
    pub fn requires_auth(&self) -> (r: bool)
        ensures
            r == !(self is NoAuth),
    {
        !matches!(self, AuthConfig::NoAuth)
    }

    /// Get the authentication method string
    pub fn auth_method(&self) -> (r: &'static str)
        ensures
            r@ == (if self is NoAuth {
                "None"@
            } else {
                "CHAP"@
            }),
    {
        match self {
            AuthConfig::NoAuth => "None",
            AuthConfig::Chap { .. } | AuthConfig::MutualChap { .. } => "CHAP",
        }
    }

    /// Check if mutual CHAP is required
    pub fn is_mutual(&self) -> (r: bool)
        ensures
            r == (self is MutualChap),
    {
        matches!(self, AuthConfig::MutualChap { .. })
    }
}

// ============================================================================
// CHAP exchange
// ============================================================================

/// The input that CHAP hashes: the identifier, the secret, the challenge.
pub open spec fn chap_input(identifier: u8, secret: Seq<u8>, challenge: Seq<u8>) -> Seq<u8> {
    seq![identifier] + secret + challenge
}

/// The CHAP response: MD5(identifier + secret + challenge).
pub open spec fn chap_response(identifier: u8, secret: Seq<u8>, challenge: Seq<u8>) -> Seq<u8> {
    md5_digest(chap_input(identifier, secret, challenge))
}

/// CHAP authentication state
#[derive(Debug, Clone)]
pub struct ChapAuthState {
    /// CHAP identifier (random byte)
    pub identifier: u8,
    /// CHAP challenge (random bytes)
    pub challenge: Vec<u8>,
    /// Whether this is for mutual CHAP (target authenticating to initiator)
    pub is_target_auth: bool,
}

/// A CHAP exchange state as mathematical values.
pub struct ChapView {
    pub identifier: u8,
    pub challenge: Seq<u8>,
    pub is_target_auth: bool,
}

impl View for ChapAuthState {
    type V = ChapView;

    open spec fn view(&self) -> ChapView {
        ChapView {
            identifier: self.identifier,
            challenge: self.challenge@,
            is_target_auth: self.is_target_auth,
        }
    }
}

/// The CHAP response for an identifier, secret and challenge.
pub(crate) fn compute_chap_response(identifier: u8, secret: &[u8], challenge: &[u8]) -> (r: Vec<u8>)
    ensures
        r@ == chap_response(identifier, secret@, challenge@),
{
    let mut data: Vec<u8> = Vec::new();
    data.push(identifier);
    crate::bytes::extend_bytes(&mut data, secret);
    crate::bytes::extend_bytes(&mut data, challenge);
    assert(data@ =~= chap_input(identifier, secret@, challenge@));
    let digest = md5_compute(data.as_slice());
    vstd::slice::slice_to_vec(digest.as_slice())
}

impl ChapAuthState {
    /// Generate a new CHAP challenge: a random identifier and 16 random
    /// challenge bytes.
    pub fn new(is_target_auth: bool) -> (r: Self)
        ensures
            r.challenge@.len() == 16,
            r.is_target_auth == is_target_auth,
    {
        let mut rng = thread_rng();
        let identifier = random_u8(&mut rng);
        let mut challenge = [0u8; 16];
        fill_random(&mut rng, &mut challenge);
        Self {
            identifier,
            challenge: vstd::slice::slice_to_vec(challenge.as_slice()),
            is_target_auth,
        }
    }

    /// Calculate the expected CHAP response
    /// Response = MD5(identifier + secret + challenge)
    pub fn calculate_response(&self, secret: &str) -> (r: Vec<u8>)
        ensures
            r@ == chap_response(self.identifier, encode_utf8(secret@), self.challenge@),
    {
        compute_chap_response(self.identifier, secret.as_bytes(), self.challenge.as_slice())
    }

    /// Validate a CHAP response
    ///
    /// The comparison looks at every byte, whatever the earlier ones were.
    pub fn validate_response(&self, response: &[u8], secret: &str) -> (r: bool)
        ensures
            r == (response@ == chap_response(self.identifier, encode_utf8(secret@), self.challenge@)),
    {
        let expected = self.calculate_response(secret);
        if response.len() != expected.len() {
            return false;
        }
        let n = response.len();
        let mut diff = 0u8;
        let mut i: usize = 0;
        while i < n
            invariant
                n == response@.len(),
                n == expected@.len(),
                i <= n,
                (diff == 0) == (forall|j: int| 0 <= j < i ==> response@[j] == expected@[j]),
            decreases n - i,
        {
            let a = response[i];
            let b = expected[i];
            let d = diff | (a ^ b);
            assert((d == 0) == (diff == 0 && a == b)) by (bit_vector)
                requires
                    d == diff | (a ^ b),
            ;
            diff = d;
            i = i + 1;
        }
        assert(diff == 0 ==> response@ =~= expected@);
        diff == 0
    }

    /// Convert challenge to hex string for text parameter
    pub fn challenge_hex(&self) -> (r: String)
        ensures
            r@ == hex_chars(self.challenge@),
    {
        hex_encode(self.challenge.as_slice())
    }

    /// Convert identifier to string
    pub fn identifier_str(&self) -> (r: String)
        ensures
            r@ == dec_chars(self.identifier as nat),
    {
        decimal_string(self.identifier as u64)
    }
}

/// Parse CHAP response from hex string
pub fn parse_chap_response(hex_str: &str) -> (r: ScsiResult<Vec<u8>>)
    ensures
        match hex_decode_spec(encode_utf8(hex_str@)) {
            Some(b) => r matches Ok(v) && v@ == b,
            None => r matches Err(IscsiError::Auth(m)) && m@.take(27) == "Invalid CHAP response hex: "@,
        },
{
    match hex_decode(hex_str) {
        Ok(v) => Ok(v),
        Err(e) => {
            let mut m = "Invalid CHAP response hex: ".to_string();
            let detail = e.to_string();
            m.append(detail.as_str());
            proof {
                reveal_strlit("Invalid CHAP response hex: ");
            }
            assert(m@.take(27) =~= "Invalid CHAP response hex: "@);
            Err(IscsiError::Auth(m))
        },
    }
}

} // verus!
