//! The authentication ceremony: issuing an assertion request and checking the
//! authenticator's signed answer against a registered credential.
use vstd::prelude::*;

use crate::auth_data::{
    decode_auth_data, flag_user_present, flag_user_verified, spec_decode_auth_data,
    AuthDataError, AuthDataModel, DecodeFailure,
};
use crate::cbor::{cose_key_header, cose_key_sec1, cose_key_sec1_octets, decode_cose_key, CoseLabel};
use crate::shared::{
    bytes_eq, generate_challenge, sha256, sha256_digest, ClientData, CredentialInfo, Hint, Response,
};
use crate::{Authentication, AuthenticationModel, Credential, Requirement};
use vstd::utf8::encode_utf8;

verus! {

/// The options of an authentication (`PublicKeyCredentialRequestOptions`).
#[derive(Debug)]
pub struct AuthenticationRequest {
    pub challenge: [u8; 32],
    pub timeout: i32,
    pub rp_id: String,
    pub allow_credentials: Vec<CredentialInfo>,
    pub user_verification: Requirement,
    pub hints: Vec<Hint>,
}

/// What the relying party keeps between issuing an authentication request and
/// checking the answer.
#[derive(Debug)]
pub struct AuthenticationState {
    challenge: [u8; 32],
    rp_id: String,
    origin: String,
    user_verification: Requirement,
}

/// The model of an `AuthenticationState`.
pub struct AuthenticationStateModel {
    pub challenge: Seq<u8>,
    pub rp_id: Seq<char>,
    pub origin: Seq<char>,
    pub user_verification: Requirement,
}

impl View for AuthenticationState {
    type V = AuthenticationStateModel;

    closed spec fn view(&self) -> AuthenticationStateModel {
        AuthenticationStateModel {
            challenge: self.challenge@,
            rp_id: self.rp_id@,
            origin: self.origin@,
            user_verification: self.user_verification,
        }
    }
}

/// Why an authentication was refused.
#[derive(Debug)]
pub enum AuthenticationError {
    InvalidClientDataJson(serde_json::Error),
    InvalidClientDataJsonType(String),
    /// The challenge that was issued and the one that came back.
    ChallengeMismatch([u8; 32], Vec<u8>),
    /// The origin that was expected and the one that came back.
    OriginMismatch(String, String),
    /// The expected hash of the relying party id and the one that came back.
    RpIdHashMismatch([u8; 32], [u8; 32]),
    UserNotPresent,
    UserVerificationRequired,
    InvalidSignature,
    NoKeyFound,
    AuthData(AuthDataError),
}

/// The model of an `AuthenticationError`.
pub enum AuthenticationFailure {
    InvalidClientDataJson(serde_json::Error),
    InvalidClientDataJsonType(Seq<char>),
    ChallengeMismatch(Seq<u8>, Seq<u8>),
    OriginMismatch(Seq<char>, Seq<char>),
    RpIdHashMismatch(Seq<u8>, Seq<u8>),
    UserNotPresent,
    UserVerificationRequired,
    InvalidSignature,
    NoKeyFound,
    AuthData(DecodeFailure),
}

impl View for AuthenticationError {
    type V = AuthenticationFailure;

    open spec fn view(&self) -> AuthenticationFailure {
        match self {
            AuthenticationError::InvalidClientDataJson(e) => AuthenticationFailure::InvalidClientDataJson(*e),
            AuthenticationError::InvalidClientDataJsonType(t) => AuthenticationFailure::InvalidClientDataJsonType(t@),
            AuthenticationError::ChallengeMismatch(a, b) => AuthenticationFailure::ChallengeMismatch(a@, b@),
            AuthenticationError::OriginMismatch(a, b) => AuthenticationFailure::OriginMismatch(a@, b@),
            AuthenticationError::RpIdHashMismatch(a, b) => AuthenticationFailure::RpIdHashMismatch(a@, b@),
            AuthenticationError::UserNotPresent => AuthenticationFailure::UserNotPresent,
            AuthenticationError::UserVerificationRequired => AuthenticationFailure::UserVerificationRequired,
            AuthenticationError::InvalidSignature => AuthenticationFailure::InvalidSignature,
            AuthenticationError::NoKeyFound => AuthenticationFailure::NoKeyFound,
            AuthenticationError::AuthData(e) => AuthenticationFailure::AuthData(e.failure()),
        }
    }
}

impl From<AuthDataError> for AuthenticationError {
    fn from(e: AuthDataError) -> (res: Self) {
        AuthenticationError::AuthData(e)
    }
}

impl vstd::std_specs::convert::FromSpecImpl<AuthDataError> for AuthenticationError {
    open spec fn obeys_from_spec() -> bool {
        true
    }

    open spec fn from_spec(e: AuthDataError) -> Self {
        AuthenticationError::AuthData(e)
    }
}

/// A client's answer to an authentication request.
pub type AuthenticationResponse = Response<AuthenticationResponseInner>;

/// The authenticator's response to an authentication (`AuthenticatorAssertionResponse`).
#[derive(Debug)]
pub struct AuthenticationResponseInner {
    pub signature: Vec<u8>,
    pub client_data_json: Vec<u8>,
    pub authenticator_data: Vec<u8>,
}

/// Whether `request` and `state` are what an authentication issues for `rp_id`,
/// `origin` and `user_verification` with the challenge `challenge`.
pub open spec fn authentication_issued(
    rp_id: String,
    origin: String,
    user_verification: Requirement,
    challenge: Seq<u8>,
    request: AuthenticationRequest,
    state: AuthenticationStateModel,
) -> bool {
    &&& request.challenge@ == challenge
    &&& request.timeout == 60000
    &&& request.rp_id == rp_id
    &&& request.allow_credentials@.len() == 0
    &&& request.user_verification == Requirement::Required
    &&& request.hints@.len() == 0
    &&& state == AuthenticationStateModel {
        challenge,
        rp_id: rp_id@,
        origin: origin@,
        user_verification,
    }
}

/// Issues an authentication request with the challenge `challenge`, and the state
/// that checking its answer needs.
pub fn start_authentication_with_challenge(
    rp_id: String,
    origin: String,
    user_verification: Requirement,
    challenge: [u8; 32],
) -> (res: (AuthenticationRequest, AuthenticationState))
    ensures
        authentication_issued(rp_id, origin, user_verification, challenge@, res.0, res.1@),
{
    let state = AuthenticationState { challenge, rp_id: rp_id.clone(), origin, user_verification };
    let request = AuthenticationRequest {
        challenge,
        timeout: 60000,
        rp_id,
        allow_credentials: Vec::new(),
        user_verification: Requirement::Required,
        hints: Vec::new(),
    };
    (request, state)
}

/// Issues an authentication request with a fresh random challenge, and the state
/// that checking its answer needs.
pub fn start_authentication(rp_id: String, origin: String, user_verification: Requirement) -> (res: (
    AuthenticationRequest,
    AuthenticationState,
))
    ensures
        authentication_issued(rp_id, origin, user_verification, res.0.challenge@, res.0, res.1@),
{
    let challenge = generate_challenge();
    start_authentication_with_challenge(rp_id, origin, user_verification, challenge)
}

/// A registered credential as authentication needs it: its id and its public key.
#[derive(Debug, Clone, PartialEq)]
pub struct SimpleCredential {
    key: Vec<u8>,
    id: Vec<u8>,
}

/// The model of a `SimpleCredential`.
pub struct SimpleCredentialModel {
    pub key: Seq<u8>,
    pub id: Seq<u8>,
}

impl View for SimpleCredential {
    type V = SimpleCredentialModel;

    closed spec fn view(&self) -> SimpleCredentialModel {
        SimpleCredentialModel { key: self.key@, id: self.id@ }
    }
}

impl From<Credential> for SimpleCredential {
    fn from(cred: Credential) -> (res: Self) {
        SimpleCredential { key: cred.public_key, id: cred.id }
    }
}

impl vstd::std_specs::convert::FromSpecImpl<Credential> for SimpleCredential {
    open spec fn obeys_from_spec() -> bool {
        true
    }

    closed spec fn from_spec(cred: Credential) -> Self {
        SimpleCredential { key: cred.public_key, id: cred.id }
    }
}


/// Converting a registered credential keeps its id and its public key.
pub proof fn lemma_simple_credential_from(cred: Credential)
    ensures
        <SimpleCredential as vstd::std_specs::convert::FromSpec<Credential>>::from_spec(cred)@
            == (SimpleCredentialModel { key: cred.public_key@, id: cred.id@ }),
{
}

/// Whether `ring` accepts `signature` (ASN.1 DER) as an ECDSA P-256 / SHA-256
/// signature of `message` under the SEC1-encoded public key `public_key`.
pub uninterp spec fn ecdsa_p256_sha256_accepts(
    public_key: Seq<u8>,
    message: Seq<u8>,
    signature: Seq<u8>,
) -> bool;

/// Calls `ring::signature::UnparsedPublicKey::verify` with
/// `ECDSA_P256_SHA256_ASN1`. Claimed: the answer is a function of the three byte
/// strings alone (named `ecdsa_p256_sha256_accepts`).
#[verifier::external_body]
fn ecdsa_p256_sha256_verify(public_key: &[u8], message: &[u8], signature: &[u8]) -> (res: bool)
    ensures
        res == ecdsa_p256_sha256_accepts(public_key@, message@, signature@),
{
    ring::signature::UnparsedPublicKey::new(&ring::signature::ECDSA_P256_SHA256_ASN1, public_key)
        .verify(message, signature)
        .is_ok()
}

/// COSE key type EC2.
pub const COSE_KTY_EC2: i64 = 2;

/// COSE algorithm ES256.
pub const COSE_ALG_ES256: i64 = -7;

/// Whether the COSE_Key encoded by `key` decodes, is an EC2 key and is restricted
/// to ES256.
pub open spec fn cose_key_is_es256(key: Seq<u8>) -> bool {
    &&& cose_key_header(key) matches Some(h)
    &&& h.kty == CoseLabel::Assigned(COSE_KTY_EC2)
    &&& h.alg == Some(CoseLabel::Assigned(COSE_ALG_ES256))
}

/// Whether `signature` is a valid signature of `message` under the COSE_Key encoded
/// by `key`: the key is an EC2 key for ES256, `coset` gives its SEC1 octet string, and
/// `ring` accepts the signature under that string.
pub open spec fn cose_signature_valid(key: Seq<u8>, signature: Seq<u8>, message: Seq<u8>) -> bool {
    &&& cose_key_is_es256(key)
    &&& cose_key_sec1_octets(key) matches Some(public_key)
    &&& ecdsa_p256_sha256_accepts(public_key, message, signature)
}

/// Checks `signature` over `message` under the COSE_Key encoded by `key`: only
/// EC2 keys for ES256 are accepted.
fn verify_cose_signature(key: &[u8], signature: &[u8], message: &[u8]) -> (res: bool)
    ensures
        res == cose_signature_valid(key@, signature@, message@),
{
    let decoded = match decode_cose_key(key) {
        Ok(d) => d,
        Err(_) => return false,
    };
    match decoded.header().kty {
        CoseLabel::Assigned(kty) => {
            if kty != COSE_KTY_EC2 {
                return false;
            }
        },
        _ => return false,
    }
    match decoded.header().alg {
        Some(CoseLabel::Assigned(alg)) => {
            if alg != COSE_ALG_ES256 {
                return false;
            }
        },
        _ => return false,
    }
    let public_key = match cose_key_sec1(&decoded) {
        Some(pk) => pk,
        None => return false,
    };
    ecdsa_p256_sha256_verify(public_key.as_slice(), message, signature)
}

/// The index of the first credential from `from` on whose id is `id`.
pub open spec fn first_credential_from(credentials: Seq<SimpleCredentialModel>, id: Seq<u8>, from: int) -> Option<int>
    decreases credentials.len() - from,
{
    if from < 0 || from >= credentials.len() {
        None
    } else if credentials[from].id == id {
        Some(from)
    } else {
        first_credential_from(credentials, id, from + 1)
    }
}

/// The models of `credentials`.
pub open spec fn credential_models(credentials: Seq<SimpleCredential>) -> Seq<SimpleCredentialModel> {
    credentials.map_values(|c: SimpleCredential| c@)
}

/// Finds the first credential whose id is `id`.
fn find_credential(credentials: &[SimpleCredential], id: &[u8]) -> (res: Option<usize>)
    ensures
        res matches Some(i) ==> i < credentials@.len(),
        match res {
            Some(i) => first_credential_from(credential_models(credentials@), id@, 0) == Some(i as int),
            None => first_credential_from(credential_models(credentials@), id@, 0) is None,
        },
{
    let ghost models = credential_models(credentials@);
    let mut i: usize = 0;
    while i < credentials.len()
        invariant
            i <= credentials@.len(),
            models == credential_models(credentials@),
            first_credential_from(models, id@, 0) == first_credential_from(models, id@, i as int),
        decreases credentials@.len() - i,
    {
        if bytes_eq(credentials[i].id.as_slice(), id) {
            return Some(i);
        }
        i += 1;
    }
    None
}

/// The message that an assertion signs: the authenticator data followed by the
/// SHA-256 digest of the client data JSON.
pub open spec fn signed_message(response: AuthenticationResponse) -> Seq<u8> {
    response.response.authenticator_data@ + sha256_digest(response.response.client_data_json@)
}

/// The checks of an authentication that come before its signature: on success, the
/// index of the credential whose key must verify the signature, and what the
/// authentication establishes.
pub open spec fn spec_authentication_checks(
    response: AuthenticationResponse,
    state: AuthenticationStateModel,
    credentials: Seq<SimpleCredentialModel>,
    client_data: Result<ClientData, serde_json::Error>,
) -> Result<(int, AuthenticationModel), AuthenticationFailure> {
    match client_data {
        Err(e) => Err(AuthenticationFailure::InvalidClientDataJson(e)),
        Ok(cd) => {
            if cd.ty@ != "webauthn.get"@ {
                Err(AuthenticationFailure::InvalidClientDataJsonType(cd.ty@))
            } else if cd.challenge@ != state.challenge {
                Err(AuthenticationFailure::ChallengeMismatch(state.challenge, cd.challenge@))
            } else if cd.origin@ != state.origin {
                Err(AuthenticationFailure::OriginMismatch(state.origin, cd.origin@))
            } else {
                match spec_decode_auth_data(response.response.authenticator_data@) {
                    Err(f) => Err(AuthenticationFailure::AuthData(f)),
                    Ok(auth_data) => {
                        let expected = sha256_digest(encode_utf8(state.rp_id));
                        if auth_data.rp_id_hash != expected {
                            Err(AuthenticationFailure::RpIdHashMismatch(expected, auth_data.rp_id_hash))
                        } else if !flag_user_present(auth_data.flags) {
                            Err(AuthenticationFailure::UserNotPresent)
                        } else if state.user_verification == Requirement::Required
                            && !flag_user_verified(auth_data.flags) {
                            Err(AuthenticationFailure::UserVerificationRequired)
                        } else {
                            match first_credential_from(credentials, response.id@, 0) {
                                None => Err(AuthenticationFailure::NoKeyFound),
                                Some(i) => Ok(
                                    (
                                        i,
                                        AuthenticationModel {
                                            credential_id: response.id@,
                                            sign_count: auth_data.sign_count,
                                            user_verified: flag_user_verified(auth_data.flags),
                                        },
                                    ),
                                ),
                            }
                        }
                    },
                }
            }
        },
    }
}

/// Checks the answer to an authentication request against the registered
/// `credentials`; `client_data` is what its `clientDataJSON` decoded to. Every check
/// but the signature's is decided here; the signature is checked with the key of
/// the first credential whose id is the response's.
pub fn verify_authentication(
    response: AuthenticationResponse,
    state: AuthenticationState,
    credentials: &[SimpleCredential],
    client_data: Result<ClientData, serde_json::Error>,
) -> (res: Result<Authentication, AuthenticationError>)
    ensures
        match spec_authentication_checks(response, state@, credential_models(credentials@), client_data) {
            Err(f) => res matches Err(e) && e@ == f,
            Ok((i, a)) => if cose_signature_valid(
                credentials@[i]@.key,
                response.response.signature@,
                signed_message(response),
            ) {
                res matches Ok(auth) && auth@ == a
            } else {
                res matches Err(e) && e@ == AuthenticationFailure::InvalidSignature
            },
        },
{
    let client_data = match client_data {
        Ok(cd) => cd,
        Err(e) => return Err(AuthenticationError::InvalidClientDataJson(e)),
    };
    if !(client_data.ty == "webauthn.get".to_owned()) {
        return Err(AuthenticationError::InvalidClientDataJsonType(client_data.ty));
    }
    if !bytes_eq(client_data.challenge.as_slice(), state.challenge.as_slice()) {
        return Err(AuthenticationError::ChallengeMismatch(state.challenge, client_data.challenge));
    }
    if !(client_data.origin == state.origin) {
        return Err(AuthenticationError::OriginMismatch(state.origin, client_data.origin));
    }
    let auth_data = match decode_auth_data(response.response.authenticator_data.as_slice()) {
        Ok(a) => a,
        Err(e) => return Err(AuthenticationError::AuthData(e)),
    };
    let expected_rp_id_hash = sha256(state.rp_id.as_str().as_bytes());
    if !bytes_eq(auth_data.rp_id_hash.as_slice(), expected_rp_id_hash.as_slice()) {
        return Err(AuthenticationError::RpIdHashMismatch(expected_rp_id_hash, auth_data.rp_id_hash));
    }
    if !auth_data.flags.user_present() {
        return Err(AuthenticationError::UserNotPresent);
    }
    if state.user_verification == Requirement::Required && !auth_data.flags.user_verified() {
        return Err(AuthenticationError::UserVerificationRequired);
    }
    let mut verification_data = vstd::slice::slice_to_vec(response.response.authenticator_data.as_slice());
    let client_data_hash = sha256(response.response.client_data_json.as_slice());
    let mut hash_bytes = vstd::slice::slice_to_vec(client_data_hash.as_slice());
    verification_data.append(&mut hash_bytes);
    let index = match find_credential(credentials, response.id.as_slice()) {
        Some(i) => i,
        None => return Err(AuthenticationError::NoKeyFound),
    };
    let credential = &credentials[index];
    if !verify_cose_signature(
        credential.key.as_slice(),
        response.response.signature.as_slice(),
        verification_data.as_slice(),
    ) {
        return Err(AuthenticationError::InvalidSignature);
    }
    Ok(Authentication {
        credential_id: response.id,
        user_verified: auth_data.flags.user_verified(),
        sign_count: auth_data.sign_count,
    })
}


/// The credential that authentication picks is the first one whose id is the one
/// asked for; when none is picked, no credential has that id.
pub proof fn lemma_first_credential(credentials: Seq<SimpleCredentialModel>, id: Seq<u8>, from: int)
    requires
        0 <= from,
    ensures
        match first_credential_from(credentials, id, from) {
            Some(i) => {
                &&& from <= i < credentials.len()
                &&& credentials[i].id == id
                &&& forall|j: int| from <= j < i ==> credentials[j].id != id
            },
            None => forall|j: int| from <= j < credentials.len() ==> credentials[j].id != id,
        },
    decreases credentials.len() - from,
{
    if from < credentials.len() && credentials[from].id != id {
        lemma_first_credential(credentials, id, from + 1);
    }
}

/// An answer to an issued authentication request whose client data has the type
/// `webauthn.get`, the issued challenge and the expected origin passes the client
/// data checks.
pub proof fn lemma_answer_to_issued_authentication(
    rp_id: String,
    origin: String,
    user_verification: Requirement,
    request: AuthenticationRequest,
    state: AuthenticationState,
    response: AuthenticationResponse,
    credentials: Seq<SimpleCredentialModel>,
    client_data: ClientData,
)
    requires
        authentication_issued(rp_id, origin, user_verification, request.challenge@, request, state@),
        client_data.ty@ == "webauthn.get"@,
        client_data.challenge@ == request.challenge@,
        client_data.origin@ == origin@,
    ensures
        match spec_authentication_checks(response, state@, credentials, Ok(client_data)) {
            Err(f) => !(f is InvalidClientDataJson) && !(f is InvalidClientDataJsonType)
                && !(f is ChallengeMismatch) && !(f is OriginMismatch),
            Ok(_) => true,
        },
{
}

/// What passing the checks before the signature guarantees: the client data answered
/// the state's challenge and origin for an assertion, the authenticator data is for
/// the relying party, the user was present (and verified when that is required), and
/// the key to check the signature with is that of the first credential whose id is
/// the response's.
pub proof fn lemma_authentication_checks_passed(
    response: AuthenticationResponse,
    state: AuthenticationStateModel,
    credentials: Seq<SimpleCredentialModel>,
    client_data: Result<ClientData, serde_json::Error>,
    index: int,
    auth: AuthenticationModel,
)
    requires
        spec_authentication_checks(response, state, credentials, client_data) == Ok::<
            (int, AuthenticationModel),
            AuthenticationFailure,
        >((index, auth)),
    ensures
        ({
            &&& client_data matches Ok(cd)
            &&& cd.ty@ == "webauthn.get"@
            &&& cd.challenge@ == state.challenge
            &&& cd.origin@ == state.origin
        }),
        ({
            &&& spec_decode_auth_data(response.response.authenticator_data@) matches Ok(ad)
            &&& ad.rp_id_hash == sha256_digest(encode_utf8(state.rp_id))
            &&& flag_user_present(ad.flags)
            &&& ad.sign_count == auth.sign_count
            &&& flag_user_verified(ad.flags) == auth.user_verified
        }),
        state.user_verification == Requirement::Required ==> auth.user_verified,
        0 <= index < credentials.len(),
        credentials[index].id == response.id@,
        auth.credential_id == response.id@,
        forall|j: int| 0 <= j < index ==> credentials[j].id != response.id@,
{
    lemma_first_credential(credentials, response.id@, 0);
}

/// A credential that registration established is what authentication checks an
/// answer with that credential's id against, when its conversion comes first among
/// the credentials: the key is the public key that registration recorded.
pub proof fn lemma_registered_credential_found(cred: Credential, others: Seq<SimpleCredentialModel>)
    ensures
        ({
            let simple = <SimpleCredential as vstd::std_specs::convert::FromSpec<Credential>>::from_spec(cred)@;
            let credentials = seq![simple] + others;
            &&& first_credential_from(credentials, cred.id@, 0) == Some(0int)
            &&& credentials[0].key == cred.public_key@
        }),
{
    let simple = <SimpleCredential as vstd::std_specs::convert::FromSpec<Credential>>::from_spec(cred)@;
    let credentials = seq![simple] + others;
    assert(credentials[0] == simple);
}


/// The checks before the signature pass whenever the answer is right: the client data
/// is an assertion for the state's challenge and origin, the authenticator data
/// decodes, is for the relying party, has the user-present bit (bit 0) set and the
/// user-verified bit (bit 2) set when the state requires verification, and some
/// credential has the response's id, whatever the other flag bits. The key used is
/// that of the first such credential, and the authentication reports the response's
/// id, the signature counter and bit 2. Together with `verify_authentication`'s
/// contract: a valid signature under that key then gives `Ok`.
pub proof fn lemma_authentication_complete(
    response: AuthenticationResponse,
    state: AuthenticationStateModel,
    credentials: Seq<SimpleCredentialModel>,
    client_data: ClientData,
    auth_data: AuthDataModel,
    index: int,
)
    requires
        client_data.ty@ == "webauthn.get"@,
        client_data.challenge@ == state.challenge,
        client_data.origin@ == state.origin,
        spec_decode_auth_data(response.response.authenticator_data@) == Ok::<
            AuthDataModel,
            DecodeFailure,
        >(auth_data),
        auth_data.rp_id_hash == sha256_digest(encode_utf8(state.rp_id)),
        auth_data.flags % 2 == 1,
        state.user_verification == Requirement::Required ==> (auth_data.flags / 4) % 2 == 1,
        0 <= index < credentials.len(),
        credentials[index].id == response.id@,
        forall|j: int| 0 <= j < index ==> credentials[j].id != response.id@,
    ensures
        spec_authentication_checks(response, state, credentials, Ok(client_data)) == Ok::<
            (int, AuthenticationModel),
            AuthenticationFailure,
        >(
            (
                index,
                AuthenticationModel {
                    credential_id: response.id@,
                    sign_count: auth_data.sign_count,
                    user_verified: (auth_data.flags / 4) % 2 == 1,
                },
            ),
        ),
{
    lemma_first_credential(credentials, response.id@, 0);
    let found = first_credential_from(credentials, response.id@, 0);
    if found != Some(index) {
        match found {
            Some(k) => {
                if k < index {
                    assert(credentials[k].id != response.id@);
                }
            },
            None => {
                assert(credentials[index].id == response.id@);
            },
        }
    }
}

/// User verification is refused only when the state requires it and the
/// user-verified bit (bit 2) of the authenticator data is clear.
pub proof fn lemma_user_verification_refused_only_when_required(
    response: AuthenticationResponse,
    state: AuthenticationStateModel,
    credentials: Seq<SimpleCredentialModel>,
    client_data: Result<ClientData, serde_json::Error>,
)
    requires
        spec_authentication_checks(response, state, credentials, client_data)
            == Err::<(int, AuthenticationModel), AuthenticationFailure>(
            AuthenticationFailure::UserVerificationRequired,
        ),
    ensures
        state.user_verification == Requirement::Required,
        response.response.authenticator_data@.len() >= 37,
        (response.response.authenticator_data@[32] / 4) % 2 == 0,
{
}

} // verus!
