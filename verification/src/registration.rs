//! The registration ceremony: issuing a creation request and checking the
//! authenticator's answer.
use vstd::prelude::*;

use crate::auth_data::{
    decode_auth_data, flag_attested_credential_data, flag_backup_eligible, flag_backup_state, flag_user_present,
    flag_user_verified, spec_attested_credential, spec_decode_auth_data, AttestedCredentialModel, AuthDataError, AuthDataModel, DecodeFailure,
};
use crate::cbor::cose_key_header;
use crate::shared::{
    bytes_eq, generate_challenge, sha256, sha256_digest, AuthenticatorSelection, ClientData,
    CredentialInfo, Hint, KeyType, Response, Transport,
};
use crate::{Credential, CredentialModel, Requirement, User};
use vstd::utf8::encode_utf8;

verus! {

/// The options of a registration (`PublicKeyCredentialCreationOptions`).
#[derive(Debug)]
pub struct RegistrationRequest {
    pub challenge: [u8; 32],
    pub rp: Rp,
    pub user: User,
    pub timeout: i32,
    pub attestation: Attestation,
    pub hints: Vec<Hint>,
    pub pub_key_cred_params: Vec<PubKeyCredParam>,
    pub exclude_credentials: Vec<CredentialInfo>,
    pub authenticator_selection: AuthenticatorSelection,
    pub extensions: Vec<Extension>,
}

/// The relying party.
#[derive(Debug)]
pub struct Rp {
    pub name: String,
    pub id: String,
}

/// The attestation conveyance that a registration asks for.
#[derive(Debug, PartialEq, Eq, Structural, Clone, Copy)]
pub enum Attestation {
    NoAttestation,
}

/// A key type and algorithm that the relying party accepts.
#[derive(Debug, PartialEq, Eq, Structural, Clone, Copy)]
pub struct PubKeyCredParam {
    pub key_type: KeyType,
    pub alg: Algorithm,
}

/// A COSE algorithm that the relying party supports.
#[derive(Debug, PartialEq, Eq, Structural, Clone, Copy)]
pub enum Algorithm {
    /// ECDSA with P-256 and SHA-256, COSE algorithm -7.
    ES256,
}

/// The COSE algorithm identifier of `alg`.
pub open spec fn algorithm_cose_value(alg: Algorithm) -> i16 {
    match alg {
        Algorithm::ES256 => -7i16,
    }
}

/// The supported algorithm with the COSE identifier `value`, if any.
pub open spec fn algorithm_of_cose_value(value: i16) -> Option<Algorithm> {
    if value == -7 {
        Some(Algorithm::ES256)
    } else {
        None
    }
}

impl Algorithm {
    /// The COSE algorithm identifier.
    pub fn cose_value(self) -> (res: i16)
        ensures
            res == algorithm_cose_value(self),
    {
        match self {
            Algorithm::ES256 => -7,
        }
    }

    /// The algorithm with a COSE identifier, if it is supported.
    pub fn from_cose_value(value: i16) -> (res: Option<Algorithm>)
        ensures
            res == algorithm_of_cose_value(value),
    {
        if value == -7 {
            Some(Algorithm::ES256)
        } else {
            None
        }
    }
}

/// An algorithm's identifier reads back as that algorithm, and an identifier that
/// reads as an algorithm is that algorithm's identifier.
pub proof fn lemma_algorithm_cose_value_roundtrip(alg: Algorithm, value: i16)
    ensures
        algorithm_of_cose_value(algorithm_cose_value(alg)) == Some(alg),
        algorithm_of_cose_value(value) matches Some(a) ==> algorithm_cose_value(a) == value,
{
}

/// A registration extension (none are requested yet).
#[derive(Debug)]
pub struct Extension {}

/// A client's answer to a registration request.
pub type RegistrationResponse = Response<RegistrationResponseInner>;

/// The authenticator's response to a registration (`AuthenticatorAttestationResponse`).
#[derive(Debug)]
pub struct RegistrationResponseInner {
    pub attestation_object: Vec<u8>,
    pub client_data_json: Vec<u8>,
    pub transports: Vec<Transport>,
    pub public_key_algorithm: Algorithm,
    pub public_key: Vec<u8>,
    pub authenticator_data: Vec<u8>,
}

/// The attestation object of a registration, as decoded from CBOR.
#[derive(Debug)]
pub struct AttestationObject {
    pub fmt: String,
    pub auth_data: Vec<u8>,
    /// The number of entries of `attStmt` when it is a CBOR map; `None` when it is
    /// any other CBOR item.
    pub att_stmt_map_len: Option<usize>,
}

/// What the relying party keeps between issuing a registration request and checking
/// the answer.
#[derive(Debug, Clone)]
pub struct RegistrationState {
    challenge: [u8; 32],
    rp_id: String,
    origin: String,
    user_verification: Requirement,
    resident_key: Requirement,
}

/// The model of a `RegistrationState`.
pub struct RegistrationStateModel {
    pub challenge: Seq<u8>,
    pub rp_id: Seq<char>,
    pub origin: Seq<char>,
    pub user_verification: Requirement,
    pub resident_key: Requirement,
}

impl View for RegistrationState {
    type V = RegistrationStateModel;

    closed spec fn view(&self) -> RegistrationStateModel {
        RegistrationStateModel {
            challenge: self.challenge@,
            rp_id: self.rp_id@,
            origin: self.origin@,
            user_verification: self.user_verification,
            resident_key: self.resident_key,
        }
    }
}

/// Why a registration was refused.
#[derive(Debug)]
pub enum RegistrationError {
    InvalidClientDataJson(serde_json::Error),
    InvalidClientDataJsonType(String),
    /// The challenge that was issued and the one that came back.
    ChallengeMismatch([u8; 32], Vec<u8>),
    /// The origin that was expected and the one that came back.
    OriginMismatch(String, String),
    InvalidAttestationObject(String),
    /// The expected hash of the relying party id and the one that came back.
    RpIdHashMismatch([u8; 32], [u8; 32]),
    UserNotPresent,
    UserVerificationRequired,
    UnexpectedAttestation,
    InvalidCredentialId,
    UnsupportedAttestationFmt(String),
    AuthData(AuthDataError),
    CredentialDataMissing,
}

/// The model of a `RegistrationError`.
pub enum RegistrationFailure {
    InvalidClientDataJson(serde_json::Error),
    InvalidClientDataJsonType(Seq<char>),
    ChallengeMismatch(Seq<u8>, Seq<u8>),
    OriginMismatch(Seq<char>, Seq<char>),
    InvalidAttestationObject(Seq<char>),
    RpIdHashMismatch(Seq<u8>, Seq<u8>),
    UserNotPresent,
    UserVerificationRequired,
    UnexpectedAttestation,
    InvalidCredentialId,
    UnsupportedAttestationFmt(Seq<char>),
    AuthData(DecodeFailure),
    CredentialDataMissing,
}

impl View for RegistrationError {
    type V = RegistrationFailure;

    open spec fn view(&self) -> RegistrationFailure {
        match self {
            RegistrationError::InvalidClientDataJson(e) => RegistrationFailure::InvalidClientDataJson(*e),
            RegistrationError::InvalidClientDataJsonType(t) => RegistrationFailure::InvalidClientDataJsonType(t@),
            RegistrationError::ChallengeMismatch(a, b) => RegistrationFailure::ChallengeMismatch(a@, b@),
            RegistrationError::OriginMismatch(a, b) => RegistrationFailure::OriginMismatch(a@, b@),
            RegistrationError::InvalidAttestationObject(s) => RegistrationFailure::InvalidAttestationObject(s@),
            RegistrationError::RpIdHashMismatch(a, b) => RegistrationFailure::RpIdHashMismatch(a@, b@),
            RegistrationError::UserNotPresent => RegistrationFailure::UserNotPresent,
            RegistrationError::UserVerificationRequired => RegistrationFailure::UserVerificationRequired,
            RegistrationError::UnexpectedAttestation => RegistrationFailure::UnexpectedAttestation,
            RegistrationError::InvalidCredentialId => RegistrationFailure::InvalidCredentialId,
            RegistrationError::UnsupportedAttestationFmt(f) => RegistrationFailure::UnsupportedAttestationFmt(f@),
            RegistrationError::AuthData(e) => RegistrationFailure::AuthData(e.failure()),
            RegistrationError::CredentialDataMissing => RegistrationFailure::CredentialDataMissing,
        }
    }
}

impl From<AuthDataError> for RegistrationError {
    fn from(e: AuthDataError) -> (res: Self) {
        RegistrationError::AuthData(e)
    }
}

impl vstd::std_specs::convert::FromSpecImpl<AuthDataError> for RegistrationError {
    open spec fn obeys_from_spec() -> bool {
        true
    }

    open spec fn from_spec(e: AuthDataError) -> Self {
        RegistrationError::AuthData(e)
    }
}

/// Whether `request` and `state` are what a registration issues for `rp`, `origin`
/// and `user` with the challenge `challenge`.
pub open spec fn registration_issued(
    rp: Rp,
    origin: String,
    user: User,
    challenge: Seq<u8>,
    request: RegistrationRequest,
    state: RegistrationStateModel,
) -> bool {
    &&& request.challenge@ == challenge
    &&& request.rp == rp
    &&& request.user == user
    &&& request.timeout == 60000
    &&& request.attestation == Attestation::NoAttestation
    &&& request.hints@.len() == 0
    &&& request.pub_key_cred_params@ == seq![
        PubKeyCredParam { key_type: KeyType::PublicKey, alg: Algorithm::ES256 },
    ]
    &&& request.exclude_credentials@.len() == 0
    &&& request.authenticator_selection.authenticator_attachment is None
    &&& request.authenticator_selection.resident_key == Requirement::Required
    &&& request.authenticator_selection.user_verification == Requirement::Required
    &&& request.extensions@.len() == 0
    &&& state == RegistrationStateModel {
        challenge,
        rp_id: rp.id@,
        origin: origin@,
        user_verification: Requirement::Required,
        resident_key: Requirement::Required,
    }
}

/// Issues a registration request with the challenge `challenge`, and the state that
/// checking its answer needs.
pub fn start_registration_with_challenge(rp: Rp, origin: String, user: User, challenge: [u8; 32]) -> (res: (
    RegistrationRequest,
    RegistrationState,
))
    ensures
        registration_issued(rp, origin, user, challenge@, res.0, res.1@),
{
    let state = RegistrationState {
        challenge,
        rp_id: rp.id.clone(),
        origin,
        user_verification: Requirement::Required,
        resident_key: Requirement::Required,
    };
    let mut pub_key_cred_params = Vec::new();
    pub_key_cred_params.push(PubKeyCredParam { key_type: KeyType::PublicKey, alg: Algorithm::ES256 });
    let request = RegistrationRequest {
        challenge,
        rp,
        user,
        timeout: 60000,
        attestation: Attestation::NoAttestation,
        hints: Vec::new(),
        pub_key_cred_params,
        exclude_credentials: Vec::new(),
        authenticator_selection: AuthenticatorSelection {
            authenticator_attachment: None,
            resident_key: Requirement::Required,
            user_verification: Requirement::Required,
        },
        extensions: Vec::new(),
    };
    assert(request.pub_key_cred_params@ =~= seq![
        PubKeyCredParam { key_type: KeyType::PublicKey, alg: Algorithm::ES256 },
    ]);
    (request, state)
}

/// Issues a registration request with a fresh random challenge, and the state that
/// checking its answer needs.
pub fn start_registration(rp: Rp, origin: String, user: User) -> (res: (RegistrationRequest, RegistrationState))
    ensures
        registration_issued(rp, origin, user, res.0.challenge@, res.0, res.1@),
{
    let challenge = generate_challenge();
    start_registration_with_challenge(rp, origin, user, challenge)
}

/// The checks on the authenticator data and the attestation statement, once the
/// client data passed.
pub open spec fn spec_registration_attestation(
    state: RegistrationStateModel,
    fmt: Seq<char>,
    att_stmt_map_len: Option<usize>,
    auth_data: AuthDataModel,
) -> Result<CredentialModel, RegistrationFailure> {
    let expected = sha256_digest(encode_utf8(state.rp_id));
    if auth_data.rp_id_hash != expected {
        Err(RegistrationFailure::RpIdHashMismatch(expected, auth_data.rp_id_hash))
    } else if !flag_user_present(auth_data.flags) {
        Err(RegistrationFailure::UserNotPresent)
    } else if state.user_verification == Requirement::Required && !flag_user_verified(auth_data.flags) {
        Err(RegistrationFailure::UserVerificationRequired)
    } else {
        match auth_data.attested_credential {
            None => Err(RegistrationFailure::CredentialDataMissing),
            Some(c) => {
                if c.credential_id.len() == 0 {
                    Err(RegistrationFailure::InvalidCredentialId)
                } else if fmt != "none"@ {
                    Err(RegistrationFailure::UnsupportedAttestationFmt(fmt))
                } else if att_stmt_map_len != Some(0usize) {
                    Err(RegistrationFailure::UnexpectedAttestation)
                } else {
                    Ok(
                        CredentialModel {
                            id: c.credential_id,
                            public_key: c.credential_public_key,
                            sign_count: auth_data.sign_count,
                            user_present: flag_user_present(auth_data.flags),
                            user_verified: flag_user_verified(auth_data.flags),
                            backup_state: flag_backup_state(auth_data.flags),
                            backup_eligible: flag_backup_eligible(auth_data.flags),
                        },
                    )
                }
            },
        }
    }
}

/// The outcome of a registration once its client data checked out: decided by the
/// attestation object alone.
pub open spec fn spec_registration_after_client_data(
    state: RegistrationStateModel,
    attestation: Result<AttestationObject, String>,
) -> Result<CredentialModel, RegistrationFailure> {
    match attestation {
        Err(s) => Err(RegistrationFailure::InvalidAttestationObject(s@)),
        Ok(att) => match spec_decode_auth_data(att.auth_data@) {
            Err(f) => Err(RegistrationFailure::AuthData(f)),
            Ok(auth_data) => spec_registration_attestation(state, att.fmt@, att.att_stmt_map_len, auth_data),
        },
    }
}

/// The outcome of a registration whose client data decoded to `client_data` and whose
/// attestation object decoded to `attestation`.
pub open spec fn spec_verify_registration(
    state: RegistrationStateModel,
    client_data: Result<ClientData, serde_json::Error>,
    attestation: Result<AttestationObject, String>,
) -> Result<CredentialModel, RegistrationFailure> {
    match client_data {
        Err(e) => Err(RegistrationFailure::InvalidClientDataJson(e)),
        Ok(cd) => {
            if cd.ty@ != "webauthn.create"@ {
                Err(RegistrationFailure::InvalidClientDataJsonType(cd.ty@))
            } else if cd.challenge@ != state.challenge {
                Err(RegistrationFailure::ChallengeMismatch(state.challenge, cd.challenge@))
            } else if cd.origin@ != state.origin {
                Err(RegistrationFailure::OriginMismatch(state.origin, cd.origin@))
            } else {
                spec_registration_after_client_data(state, attestation)
            }
        },
    }
}

/// Checks the answer to a registration request: `client_data` is what its
/// `clientDataJSON` decoded to, `attestation` what its attestation object decoded to.
pub fn verify_registration(
    state: RegistrationState,
    client_data: Result<ClientData, serde_json::Error>,
    attestation: Result<AttestationObject, String>,
) -> (res: Result<Credential, RegistrationError>)
    ensures
        match res {
            Ok(c) => spec_verify_registration(state@, client_data, attestation) == Ok::<
                CredentialModel,
                RegistrationFailure,
            >(c@),
            Err(e) => spec_verify_registration(state@, client_data, attestation) == Err::<
                CredentialModel,
                RegistrationFailure,
            >(e@),
        },
{
    let client_data = match client_data {
        Ok(cd) => cd,
        Err(e) => return Err(RegistrationError::InvalidClientDataJson(e)),
    };
    if !(client_data.ty == "webauthn.create".to_owned()) {
        return Err(RegistrationError::InvalidClientDataJsonType(client_data.ty));
    }
    if !bytes_eq(client_data.challenge.as_slice(), state.challenge.as_slice()) {
        return Err(RegistrationError::ChallengeMismatch(state.challenge, client_data.challenge));
    }
    if !(client_data.origin == state.origin) {
        return Err(RegistrationError::OriginMismatch(state.origin, client_data.origin));
    }
    let attestation = match attestation {
        Ok(a) => a,
        Err(s) => return Err(RegistrationError::InvalidAttestationObject(s)),
    };
    let auth_data = match decode_auth_data(attestation.auth_data.as_slice()) {
        Ok(a) => a,
        Err(e) => return Err(RegistrationError::AuthData(e)),
    };
    let expected_rp_id_hash = sha256(state.rp_id.as_str().as_bytes());
    if !bytes_eq(auth_data.rp_id_hash.as_slice(), expected_rp_id_hash.as_slice()) {
        return Err(RegistrationError::RpIdHashMismatch(expected_rp_id_hash, auth_data.rp_id_hash));
    }
    if !auth_data.flags.user_present() {
        return Err(RegistrationError::UserNotPresent);
    }
    if state.user_verification == Requirement::Required && !auth_data.flags.user_verified() {
        return Err(RegistrationError::UserVerificationRequired);
    }
    let credential = match auth_data.attested_credential {
        Some(c) => c,
        None => return Err(RegistrationError::CredentialDataMissing),
    };
    if credential.credential_id.len() == 0 {
        return Err(RegistrationError::InvalidCredentialId);
    }
    if !(attestation.fmt == "none".to_owned()) {
        return Err(RegistrationError::UnsupportedAttestationFmt(attestation.fmt));
    }
    match attestation.att_stmt_map_len {
        Some(0) => {},
        _ => return Err(RegistrationError::UnexpectedAttestation),
    }
    Ok(Credential {
        id: credential.credential_id,
        public_key: credential.credential_public_key,
        sign_count: auth_data.sign_count,
        user_present: auth_data.flags.user_present(),
        user_verified: auth_data.flags.user_verified(),
        backup_state: auth_data.flags.backup_state(),
        backup_eligible: auth_data.flags.backup_eligible(),
    })
}


/// An answer to an issued registration request whose client data has the type
/// `webauthn.create`, the issued challenge and the expected origin passes the client
/// data checks: its outcome is decided by the attestation object alone.
pub proof fn lemma_answer_to_issued_registration(
    rp: Rp,
    origin: String,
    user: User,
    request: RegistrationRequest,
    state: RegistrationState,
    client_data: ClientData,
    attestation: Result<AttestationObject, String>,
)
    requires
        registration_issued(rp, origin, user, request.challenge@, request, state@),
        client_data.ty@ == "webauthn.create"@,
        client_data.challenge@ == request.challenge@,
        client_data.origin@ == origin@,
    ensures
        spec_verify_registration(state@, Ok(client_data), attestation)
            == spec_registration_after_client_data(state@, attestation),
{
}

/// What a successful registration guarantees: the client data answered the state's
/// challenge and origin for a creation, the authenticator data is for the relying
/// party and attests the credential, the user was present (and verified when that is
/// required), the credential id is not empty and the public key is a COSE_Key.
pub proof fn lemma_registered_credential(
    state: RegistrationStateModel,
    client_data: Result<ClientData, serde_json::Error>,
    attestation: Result<AttestationObject, String>,
    cred: CredentialModel,
)
    requires
        spec_verify_registration(state, client_data, attestation) == Ok::<
            CredentialModel,
            RegistrationFailure,
        >(cred),
    ensures
        ({
            &&& client_data matches Ok(cd)
            &&& cd.ty@ == "webauthn.create"@
            &&& cd.challenge@ == state.challenge
            &&& cd.origin@ == state.origin
        }),
        ({
            &&& attestation matches Ok(att)
            &&& att.fmt@ == "none"@
            &&& att.att_stmt_map_len == Some(0usize)
            &&& spec_decode_auth_data(att.auth_data@) matches Ok(ad)
            &&& ad.rp_id_hash == sha256_digest(encode_utf8(state.rp_id))
            &&& ad.sign_count == cred.sign_count
            &&& ad.attested_credential matches Some(c)
            &&& c.credential_id == cred.id
            &&& c.credential_public_key == cred.public_key
            &&& ad.flags == att.auth_data@[32]
            &&& cred.user_verified == ((att.auth_data@[32] / 4) % 2 == 1)
            &&& cred.backup_state == ((att.auth_data@[32] / 8) % 2 == 1)
            &&& cred.backup_eligible == ((att.auth_data@[32] / 16) % 2 == 1)
        }),
        cred.user_present,
        state.user_verification == Requirement::Required ==> cred.user_verified,
        cred.id.len() > 0,
        cose_key_header(cred.public_key) is Some,
{
    let att = attestation->Ok_0;
    let buf = att.auth_data@;
    if flag_attested_credential_data(buf[32]) {
        assert(spec_attested_credential(buf, 37) is Ok);
    }
}


/// A registration succeeds whenever its answer is right: the client data is a creation
/// for the state's challenge and origin, the attestation format is `none` with an
/// empty statement, and the authenticator data decodes, is for the relying party, has
/// the user-present bit (bit 0) set, has the user-verified bit (bit 2) set when
/// verification is required, and attests a credential with a non-empty id, whatever
/// its AAGUID and whatever the other flag bits. The credential then carries the
/// attested id and key, the signature counter, and flag bits 0, 2, 3 and 4.
pub proof fn lemma_registration_complete(
    state: RegistrationStateModel,
    client_data: ClientData,
    attestation: AttestationObject,
    auth_data: AuthDataModel,
    credential: AttestedCredentialModel,
)
    requires
        client_data.ty@ == "webauthn.create"@,
        client_data.challenge@ == state.challenge,
        client_data.origin@ == state.origin,
        attestation.fmt@ == "none"@,
        attestation.att_stmt_map_len == Some(0usize),
        spec_decode_auth_data(attestation.auth_data@) == Ok::<AuthDataModel, DecodeFailure>(auth_data),
        auth_data.rp_id_hash == sha256_digest(encode_utf8(state.rp_id)),
        auth_data.flags % 2 == 1,
        state.user_verification == Requirement::Required ==> (auth_data.flags / 4) % 2 == 1,
        auth_data.attested_credential == Some(credential),
        credential.credential_id.len() > 0,
    ensures
        spec_verify_registration(state, Ok(client_data), Ok(attestation)) == Ok::<
            CredentialModel,
            RegistrationFailure,
        >(
            CredentialModel {
                id: credential.credential_id,
                public_key: credential.credential_public_key,
                sign_count: auth_data.sign_count,
                user_present: true,
                user_verified: (auth_data.flags / 4) % 2 == 1,
                backup_state: (auth_data.flags / 8) % 2 == 1,
                backup_eligible: (auth_data.flags / 16) % 2 == 1,
            },
        ),
{
}

} // verus!
