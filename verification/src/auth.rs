//! The digest authenticator: the single-use token that every call to the gateway
//! carries in place of the shared secret.

use crate::clock::{seed_from_timestamp, seed_of_instant, UtcInstant};
use crate::domain::ConnectorAuthType;
use crate::errors::{fails_with, outcome_view, ConnectorError, ConnectorErrorView};
use vstd::prelude::*;
use vstd::std_specs::convert::TryFromSpecImpl;
use vstd::string::*;
use vstd::utf8::encode_utf8;

verus! {

/// The number of random bytes in a nonce.
pub const NONCE_LEN: usize = 16;

/// The length in bytes from which on a message is too long to be hashed.
pub const DIGEST_INPUT_LIMIT: u64 = 0x2000_0000_0000_0000;

/// The SHA-256 digest of a message.
pub uninterp spec fn sha256_digest(data: Seq<u8>) -> Seq<u8>;

/// The base64 text of some bytes, in the standard alphabet and with padding.
pub uninterp spec fn base64_text(data: Seq<u8>) -> Seq<char>;

/// Hashes a message with SHA-256.
///
/// Calls `ring::digest::digest` with `ring::digest::SHA256` and copies the digest
/// out. The digest depends on the message alone and is 32 bytes long. The call
/// panics on a message of 2^61 bytes or more, whose length in bits no longer fits
/// 64 bits; such a message is left out.
#[verifier::external_body]
fn sha256(data: &[u8]) -> (digest: Vec<u8>)
    requires
        data@.len() < DIGEST_INPUT_LIMIT,
    ensures
        digest@ == sha256_digest(data@),
        digest@.len() == 32,
{
    ring::digest::digest(&ring::digest::SHA256, data).as_ref().to_vec()
}

/// Encodes bytes as base64 text.
///
/// Calls `base64::Engine::encode` on `base64::engine::general_purpose::STANDARD`.
/// The text depends on the bytes alone. The call panics where the length of the
/// text would not fit `usize`, which happens only in the top quarter of its range;
/// inputs above half the range are left out.
#[verifier::external_body]
fn base64_encode(data: &[u8]) -> (text: String)
    requires
        data@.len() <= usize::MAX / 2,
    ensures
        text@ == base64_text(data@),
{
    base64::Engine::encode(&base64::engine::general_purpose::STANDARD, data)
}

/// Draws a fresh nonce.
///
/// Fills sixteen bytes from `rand::thread_rng` through `rand::RngCore::fill_bytes`.
/// Nothing is claimed of the bytes: every call may return any value.
#[verifier::external_body]
fn random_nonce() -> (nonce: [u8; 16]) {
    let mut nonce = [0u8; 16];
    rand::RngCore::fill_bytes(&mut rand::thread_rng(), &mut nonce);
    nonce
}

/// The message that is hashed: the nonce, the seed and the shared secret, the texts
/// in UTF-8, in that order and with nothing between them.
pub open spec fn digest_input(nonce: Seq<u8>, seed: Seq<char>, tran_key: Seq<char>) -> Seq<u8> {
    nonce + encode_utf8(seed) + encode_utf8(tran_key)
}

/// Whether the message of a nonce, a seed and a secret can be held and hashed.
pub open spec fn digest_input_fits(nonce: Seq<u8>, seed: Seq<char>, tran_key: Seq<char>) -> bool {
    &&& digest_input(nonce, seed, tran_key).len() <= usize::MAX
    &&& digest_input(nonce, seed, tran_key).len() < DIGEST_INPUT_LIMIT
}

/// The digest that the gateway recomputes: the base64 text of the SHA-256 digest of
/// the message.
pub open spec fn digest_text(nonce: Seq<u8>, seed: Seq<char>, tran_key: Seq<char>) -> Seq<char> {
    base64_text(sha256_digest(digest_input(nonce, seed, tran_key)))
}

/// What computing the digest ends in: the digest, or a request-encoding error for
/// a message too long to be held or hashed.
pub open spec fn digest_outcome(nonce: Seq<u8>, seed: Seq<char>, tran_key: Seq<char>) -> Result<
    Seq<char>,
    ConnectorErrorView,
> {
    if digest_input_fits(nonce, seed, tran_key) {
        Ok(digest_text(nonce, seed, tran_key))
    } else {
        Err(ConnectorErrorView::RequestEncodingFailed)
    }
}

/// Computes the digest of a nonce, a seed and the shared secret.
///
/// The outcome is a function of the three inputs: the same nonce, seed and secret
/// give the same digest on every call.
pub fn compute_digest(nonce: &[u8; 16], seed: &str, tran_key: &str) -> (r: Result<
    String,
    ConnectorError,
>)
    ensures
        outcome_view(r) == digest_outcome(nonce@, seed@, tran_key@),
{
    let seed_bytes = seed.as_bytes();
    let key_bytes = tran_key.as_bytes();
    let total: usize = match NONCE_LEN.checked_add(seed_bytes.len()) {
        Some(partial) => match partial.checked_add(key_bytes.len()) {
            Some(total) => total,
            None => { return Err(ConnectorError::RequestEncodingFailed); },
        },
        None => { return Err(ConnectorError::RequestEncodingFailed); },
    };
    if total as u64 >= DIGEST_INPUT_LIMIT {
        return Err(ConnectorError::RequestEncodingFailed);
    }
    let mut message: Vec<u8> = Vec::new();
    message.extend_from_slice(nonce.as_slice());
    message.extend_from_slice(seed_bytes);
    message.extend_from_slice(key_bytes);
    assert(message@ =~= digest_input(nonce@, seed@, tran_key@));
    let digest = sha256(message.as_slice());
    Ok(base64_encode(digest.as_slice()))
}

/// The credential pair that the gateway issues: a public login and a shared secret.
#[derive(Clone, PartialEq, Eq)]
pub struct PlacetopayAuthType {
    pub login: String,
    pub tran_key: String,
}

/// The mathematical content of a [`PlacetopayAuthType`].
pub struct PlacetopayAuthTypeView {
    pub login: Seq<char>,
    pub tran_key: Seq<char>,
}

impl View for PlacetopayAuthType {
    type V = PlacetopayAuthTypeView;

    open spec fn view(&self) -> PlacetopayAuthTypeView {
        PlacetopayAuthTypeView { login: self.login@, tran_key: self.tran_key@ }
    }
}

/// The credential pair that a connector's configuration holds, if it has the shape
/// of one: a body key, whose API key is the login and whose first key is the secret.
pub open spec fn credentials_of(auth_type: ConnectorAuthType) -> Result<
    PlacetopayAuthTypeView,
    ConnectorErrorView,
> {
    match auth_type {
        ConnectorAuthType::BodyKey { api_key, key1 } => Ok(
            PlacetopayAuthTypeView { login: api_key@, tran_key: key1@ },
        ),
        _ => Err(ConnectorErrorView::FailedToObtainAuthType),
    }
}

/// The conversion is specified on `try_from` itself: no spec function gives its
/// result.
impl TryFromSpecImpl<&ConnectorAuthType> for PlacetopayAuthType {
    open spec fn obeys_try_from_spec() -> bool {
        false
    }

    open spec fn try_from_spec(auth_type: &ConnectorAuthType) -> Result<Self, ConnectorError> {
        arbitrary()
    }
}

impl TryFrom<&ConnectorAuthType> for PlacetopayAuthType {
    type Error = ConnectorError;

    /// Reads the credential pair out of a connector's configuration. Any shape but a
    /// body key fails.
    fn try_from(auth_type: &ConnectorAuthType) -> (r: Result<Self, ConnectorError>)
        ensures
            outcome_view(r) == credentials_of(*auth_type),
    {
        if let ConnectorAuthType::BodyKey { api_key, key1 } = auth_type {
            Ok(Self { login: api_key.clone(), tran_key: key1.clone() })
        } else {
            Err(ConnectorError::FailedToObtainAuthType)
        }
    }
}

/// The authentication block of a payload. `tran_key` is the digest, never the
/// shared secret itself.
#[derive(Clone, PartialEq, Eq)]
pub struct PlacetopayAuth {
    pub login: String,
    pub tran_key: String,
    pub nonce: String,
    pub seed: String,
}

/// The mathematical content of a [`PlacetopayAuth`].
pub struct PlacetopayAuthView {
    pub login: Seq<char>,
    pub tran_key: Seq<char>,
    pub nonce: Seq<char>,
    pub seed: Seq<char>,
}

impl View for PlacetopayAuth {
    type V = PlacetopayAuthView;

    open spec fn view(&self) -> PlacetopayAuthView {
        PlacetopayAuthView {
            login: self.login@,
            tran_key: self.tran_key@,
            nonce: self.nonce@,
            seed: self.seed@,
        }
    }
}

/// The outcome of issuing a token, as contracts speak of it.
pub type TokenOutcome = Result<PlacetopayAuthView, ConnectorErrorView>;

/// The token that a credential pair, a nonce and a seed determine.
pub open spec fn token_of(
    credentials: PlacetopayAuthTypeView,
    nonce: Seq<u8>,
    seed: Seq<char>,
) -> TokenOutcome {
    match digest_outcome(nonce, seed, credentials.tran_key) {
        Ok(digest) => Ok(
            PlacetopayAuthView {
                login: credentials.login,
                tran_key: digest,
                nonce: base64_text(nonce),
                seed,
            },
        ),
        Err(e) => Err(e),
    }
}

/// The token that a credential pair, a nonce and a moment determine: the seed is
/// the one that belongs to the moment's timestamp.
pub open spec fn token_at(
    credentials: PlacetopayAuthTypeView,
    nonce: Seq<u8>,
    now: UtcInstant,
) -> TokenOutcome {
    match seed_of_instant(now) {
        Some(seed) => token_of(credentials, nonce, seed),
        None => Err(ConnectorErrorView::RequestEncodingFailed),
    }
}

/// Whether `outcome` is one of the ways in which issuing a token for `auth_type` can
/// end: the failure of credentials of the wrong shape, or what some nonce of
/// sixteen bytes and some moment determine.
pub open spec fn may_be_issued(auth_type: ConnectorAuthType, outcome: TokenOutcome) -> bool {
    match credentials_of(auth_type) {
        Ok(credentials) => exists|nonce: Seq<u8>, now: UtcInstant|
            nonce.len() == NONCE_LEN && outcome == #[trigger] token_at(credentials, nonce, now),
        Err(e) => fails_with(outcome, e),
    }
}

/// Issuing a token has at least one way to end, whatever the credentials.
pub proof fn lemma_some_outcome_may_be_issued(auth_type: ConnectorAuthType)
    ensures
        exists|outcome: TokenOutcome| #[trigger] may_be_issued(auth_type, outcome),
{
    match credentials_of(auth_type) {
        Ok(credentials) => {
            let nonce = Seq::new(NONCE_LEN as nat, |i: int| 0u8);
            let now = UtcInstant {
                year: 10000i32,
                month: 1,
                day: 1,
                hour: 0,
                minute: 0,
                second: 0,
                millisecond: 0,
            };
            assert(may_be_issued(auth_type, token_at(credentials, nonce, now)));
        },
        Err(e) => {
            let outcome: TokenOutcome = Err(e);
            assert(may_be_issued(auth_type, outcome));
        },
    }
}

impl PlacetopayAuth {
    /// Puts a token together from its four texts: the login, the digest, the encoded
    /// nonce and the seed.
    pub fn new(login: String, digest: String, nonce: String, seed: String) -> (r: Self)
        ensures
            r@ == (PlacetopayAuthView {
                login: login@,
                tran_key: digest@,
                nonce: nonce@,
                seed: seed@,
            }),
    {
        Self { login, tran_key: digest, nonce, seed }
    }

    /// Builds the token for a credential pair from a given nonce and seed.
    pub fn from_parts(credentials: &PlacetopayAuthType, nonce: &[u8; 16], seed: String) -> (r:
        Result<Self, ConnectorError>)
        ensures
            outcome_view(r) == token_of(credentials@, nonce@, seed@),
    {
        match compute_digest(nonce, seed.as_str(), credentials.tran_key.as_str()) {
            Ok(digest) => Ok(
                Self::new(
                    credentials.login.clone(),
                    digest,
                    base64_encode(nonce.as_slice()),
                    seed,
                ),
            ),
            Err(e) => Err(e),
        }
    }

    /// Builds the token for a credential pair from a given nonce, at a given moment.
    pub fn at(credentials: &PlacetopayAuthType, nonce: &[u8; 16], now: &UtcInstant) -> (r: Result<
        Self,
        ConnectorError,
    >)
        ensures
            outcome_view(r) == token_at(credentials@, nonce@, *now),
    {
        let timestamp = match now.format_timestamp() {
            Ok(timestamp) => timestamp,
            Err(e) => { return Err(e); },
        };
        match seed_from_timestamp(timestamp.as_str()) {
            Ok(seed) => Self::from_parts(credentials, nonce, seed),
            Err(e) => Err(e),
        }
    }
}

/// The conversion is specified on `try_from` itself: no spec function gives its
/// result.
impl TryFromSpecImpl<&ConnectorAuthType> for PlacetopayAuth {
    open spec fn obeys_try_from_spec() -> bool {
        false
    }

    open spec fn try_from_spec(auth_type: &ConnectorAuthType) -> Result<Self, ConnectorError> {
        arbitrary()
    }
}

impl TryFrom<&ConnectorAuthType> for PlacetopayAuth {
    type Error = ConnectorError;

    /// Issues a fresh token for a connector's credentials: draws a nonce, reads the
    /// clock, and builds the token that the two determine.
    fn try_from(auth_type: &ConnectorAuthType) -> (r: Result<Self, ConnectorError>)
        ensures
            may_be_issued(*auth_type, outcome_view(r)),
            credentials_of(*auth_type) is Err ==> fails_with(
                outcome_view(r),
                ConnectorErrorView::FailedToObtainAuthType,
            ),
    {
        let credentials = match PlacetopayAuthType::try_from(auth_type) {
            Ok(credentials) => credentials,
            Err(e) => { return Err(e); },
        };
        let nonce = random_nonce();
        let now = UtcInstant::now();
        let r = Self::at(&credentials, &nonce, &now);
        assert(outcome_view(r) == token_at(credentials@, nonce@, now));
        r
    }
}

} // verus!
