//! Types that registration and authentication share, and the hashing and randomness
//! that both use.
use vstd::prelude::*;

use crate::Requirement;
use sha2::Digest;

verus! {

/// `serde_json::Error`, the error of a rejected `clientDataJSON`.
#[verifier::external_type_specification]
#[verifier::external_body]
pub struct ExJsonError(serde_json::Error);

/// A hint to the client about the authenticator to use (none are issued yet).
#[derive(Debug)]
pub struct Hint {}

/// The type of a public key credential.
#[derive(Debug, PartialEq, Eq, Structural, Clone, Copy)]
pub enum KeyType {
    PublicKey,
}

/// A way in which the client may reach an authenticator.
#[derive(Debug, PartialEq, Eq, Structural, Clone, Copy)]
pub enum Transport {
    Internal,
    Usb,
    Nfc,
    Ble,
    Hybrid,
    Cable,
}

/// The relying party's requirements on the authenticator of a registration.
#[derive(Debug)]
pub struct AuthenticatorSelection {
    pub authenticator_attachment: Option<AuthenticatorAttachment>,
    pub resident_key: Requirement,
    pub user_verification: Requirement,
}

impl AuthenticatorSelection {
    /// The `requireResidentKey` member that goes with `residentKey`: whether a
    /// resident key is required.
    pub fn require_resident_key(&self) -> (res: bool)
        ensures
            res == (self.resident_key == Requirement::Required),
    {
        self.resident_key == Requirement::Required
    }
}

/// A client's answer to a request: the credential's id and the authenticator's
/// response `R`.
#[derive(Debug)]
pub struct Response<R> {
    pub id: Vec<u8>,
    pub raw_id: Vec<u8>,
    pub response: R,
    pub key_type: KeyType,
    pub client_extension_results: ExtensionResults,
    pub authenticator_attachment: Option<AuthenticatorAttachment>,
}

impl<R> Response<R> {
    pub fn credential_id(&self) -> (res: &[u8])
        ensures
            res@ == self.id@,
    {
        self.id.as_slice()
    }
}

/// How an authenticator is attached to the client.
#[derive(Debug, PartialEq, Eq, Structural, Clone, Copy)]
pub enum AuthenticatorAttachment {
    Platform,
    CrossPlatform,
}

/// The client extension outputs (none are read yet).
#[derive(Debug)]
pub struct ExtensionResults {}

impl Default for ExtensionResults {
    fn default() -> (res: Self)
        ensures
            res == (ExtensionResults {}),
    {
        ExtensionResults {}
    }
}

/// The client data (`clientDataJSON`) of a response, as decoded from JSON.
#[derive(Debug)]
pub struct ClientData {
    /// The ceremony type: `webauthn.create` or `webauthn.get`.
    pub ty: String,
    pub challenge: Vec<u8>,
    pub origin: String,
}

/// A credential that a request allows or excludes.
#[derive(Debug)]
pub struct CredentialInfo {
    pub id: Vec<u8>,
    pub key_type: KeyType,
    pub transport: Vec<Transport>,
}

/// The SHA-256 digest of `bytes`, as `sha2` computes it.
pub uninterp spec fn sha256_digest(bytes: Seq<u8>) -> Seq<u8>;

/// Calls `sha2::Sha256::digest`. Claimed: the 32-byte digest is a function of the
/// input alone (named `sha256_digest`).
#[verifier::external_body]
pub fn sha256(bytes: &[u8]) -> (res: [u8; 32])
    ensures
        res@ == sha256_digest(bytes@),
{
    sha2::Sha256::digest(bytes).into()
}

/// Fills 32 bytes with `rand::RngCore::fill_bytes` from the thread-local generator
/// `rand::rng()`. Nothing is claimed of them: they are random.
#[verifier::external_body]
pub fn generate_challenge() -> [u8; 32] {
    let mut challenge = [0u8; 32];
    rand::RngCore::fill_bytes(&mut rand::rng(), &mut challenge);
    challenge
}

/// Whether two byte strings are equal.
pub fn bytes_eq(a: &[u8], b: &[u8]) -> (res: bool)
    ensures
        res == (a@ == b@),
{
    if a.len() != b.len() {
        return false;
    }
    let mut i: usize = 0;
    while i < a.len()
        invariant
            i <= a@.len() == b@.len(),
            forall|j: int| 0 <= j < i ==> a@[j] == b@[j],
        decreases a@.len() - i,
    {
        if a[i] != b[i] {
            return false;
        }
        i += 1;
    }
    assert(a@ =~= b@);
    true
}

} // verus!
