use vstd::prelude::*;
use crate::error::ConfigError;

verus! {

/// The bytes that a text encodes in standard padded base64, or none where
/// it is not such an encoding.
pub uninterp spec fn base64_decoded(s: Seq<char>) -> Option<Seq<u8>>;

/// The standard padded base64 text of some bytes.
pub uninterp spec fn base64_encoded(b: Seq<u8>) -> Seq<char>;

/// The HMAC-SHA256 of a message under a key.
pub uninterp spec fn hmac_sha256_of(message: Seq<u8>, key: Seq<u8>) -> Seq<u8>;

#[verifier::external_type_specification]
#[verifier::external_body]
pub struct ExDecodeError(base64::DecodeError);

/// Relies on base64::decode (standard alphabet): the
/// bytes that the text encodes, or an error where it is no such encoding.
#[verifier::external_body]
fn decode_base64(s: &str) -> (r: Result<Vec<u8>, base64::DecodeError>)
    ensures
        r is Ok <==> base64_decoded(s@) is Some,
        r is Ok ==> base64_decoded(s@) == Some(r->Ok_0@),
{
    base64::decode(s)
}

/// Relies on base64::encode: the standard padded base64 text of the bytes.
#[verifier::external_body]
fn encode_base64(b: &[u8]) -> (r: String)
    ensures
        r@ == base64_encoded(b@),
{
    base64::encode(b)
}

/// Relies on hmac_sha256::HMAC::mac: the 32-byte HMAC-SHA256 of `message`
/// under `key`.
#[verifier::external_body]
fn hmac_sha256_mac(message: &[u8], key: &[u8]) -> (r: Vec<u8>)
    ensures
        r@ == hmac_sha256_of(message@, key@),
        r@.len() == 32,
{
    hmac_sha256::HMAC::mac(message, key).to_vec()
}

/// The signed hash that goes into a token: the base64 text of the HMAC of
/// the signing payload under the decoded key, or none where the key is not
/// valid base64.
pub open spec fn signed_hash(payload: Seq<u8>, key_text: Seq<char>) -> Option<Seq<char>> {
    match base64_decoded(key_text) {
        Some(key) => Some(base64_encoded(hmac_sha256_of(payload, key))),
        None => None,
    }
}

/// A time-bounded authentication token, valid up to `issued_for_epoch`
/// (Unix seconds). It is replaced whole on renewal, never patched.
#[derive(Clone, Debug)]
pub struct Credential {
    pub token: String,
    pub issued_for_epoch: u64,
}

impl Credential {
    pub fn new(token: String, issued_for_epoch: u64) -> (r: Credential)
        ensures
            r.token@ == token@,
            r.issued_for_epoch == issued_for_epoch,
    {
        Credential { token, issued_for_epoch }
    }

    /// Whether the credential is still valid at `now` (Unix seconds).
    pub fn is_valid_at(&self, now: u64) -> (r: bool)
        ensures
            r == (now < self.issued_for_epoch),
    {
        now < self.issued_for_epoch
    }
}

/// Computes credentials from a pre-shared key and a time-to-live.
///
/// Issuing runs in three steps around the hub's own token helpers: `expiry`
/// gives the instant that the hub binds into a signing payload, `sign`
/// turns that payload into the signed hash, and `issue` wraps the token that
/// the hub assembles from the two.
pub struct CredentialIssuer {
    shared_access_key: String,
    ttl_seconds: u64,
}

impl CredentialIssuer {
    pub closed spec fn key(&self) -> Seq<char> {
        self.shared_access_key@
    }

    pub closed spec fn ttl(&self) -> u64 {
        self.ttl_seconds
    }

    pub fn new(shared_access_key: &str, ttl_seconds: u64) -> (r: CredentialIssuer)
        ensures
            r.key() == shared_access_key@,
            r.ttl() == ttl_seconds,
    {
        CredentialIssuer { shared_access_key: shared_access_key.to_owned(), ttl_seconds }
    }

    pub fn ttl_seconds(&self) -> (r: u64)
        ensures
            r == self.ttl(),
    {
        self.ttl_seconds
    }

    /// The expiry instant of a credential issued at `now`: `now + ttl`.
    pub fn expiry(&self, now: u64) -> (r: Result<u64, ConfigError>)
        ensures
            now + self.ttl() <= u64::MAX ==> r == Ok::<u64, ConfigError>((now + self.ttl()) as u64),
            now + self.ttl() > u64::MAX ==> r == Err::<u64, ConfigError>(
                ConfigError::ExpiryOutOfRange,
            ),
    {
        if now <= u64::MAX - self.ttl_seconds {
            Ok(now + self.ttl_seconds)
        } else {
            Err(ConfigError::ExpiryOutOfRange)
        }
    }

    /// The signed hash of the signing payload that the hub derived from the
    /// expiry: the key is decoded from base64, the payload is hashed with
    /// HMAC-SHA256 under it, and the hash is encoded back into base64.
    pub fn sign(&self, signing_payload: &[u8]) -> (r: Result<String, ConfigError>)
        ensures
            match signed_hash(signing_payload@, self.key()) {
                Some(text) => r is Ok && r->Ok_0@ == text,
                None => r == Err::<String, ConfigError>(ConfigError::MalformedKey),
            },
    {
        match decode_base64(self.shared_access_key.as_str()) {
            Ok(key) => {
                let mac = hmac_sha256_mac(signing_payload, key.as_slice());
                Ok(encode_base64(mac.as_slice()))
            },
            Err(_) => Err(ConfigError::MalformedKey),
        }
    }

    /// The credential issued at `now`, holding the token that the hub
    /// assembled for the expiry `now + ttl`.
    pub fn issue(&self, now: u64, token: String) -> (r: Result<Credential, ConfigError>)
        ensures
            now + self.ttl() <= u64::MAX ==> r is Ok && r->Ok_0.token@ == token@
                && r->Ok_0.issued_for_epoch == now + self.ttl(),
            now + self.ttl() > u64::MAX ==> r is Err && r->Err_0 == ConfigError::ExpiryOutOfRange,
    {
        match self.expiry(now) {
            Ok(expiry) => Ok(Credential::new(token, expiry)),
            Err(e) => Err(e),
        }
    }
}

} // verus!
