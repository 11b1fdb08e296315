use passkeys::auth_data::AuthDataError;
use passkeys::authentication::{
    start_authentication, start_authentication_with_challenge, verify_authentication,
    AuthenticationError, AuthenticationResponse, AuthenticationResponseInner, AuthenticationState,
    SimpleCredential,
};
use passkeys::shared::{sha256, ClientData, ExtensionResults, KeyType, Response};
use passkeys::{Authentication, Credential, Requirement};
use ring::rand::SystemRandom;
use ring::signature::{EcdsaKeyPair, KeyPair, ECDSA_P256_SHA256_ASN1_SIGNING};

const CHALLENGE: [u8; 32] = [0x3c; 32];

fn key_pair() -> EcdsaKeyPair {
    let rng = SystemRandom::new();
    let pkcs8 = EcdsaKeyPair::generate_pkcs8(&ECDSA_P256_SHA256_ASN1_SIGNING, &rng).unwrap();
    EcdsaKeyPair::from_pkcs8(&ECDSA_P256_SHA256_ASN1_SIGNING, pkcs8.as_ref(), &rng).unwrap()
}

/// The COSE_Key of an ES256 public key, with `alg` as its algorithm.
fn cose_key(pair: &EcdsaKeyPair, alg: u8) -> Vec<u8> {
    let public = pair.public_key().as_ref();
    assert_eq!(public.len(), 65);
    let mut key = vec![0xa5, 0x01, 0x02, 0x03, alg, 0x20, 0x01, 0x21, 0x58, 0x20];
    key.extend_from_slice(&public[1..33]);
    key.extend_from_slice(&[0x22, 0x58, 0x20]);
    key.extend_from_slice(&public[33..65]);
    key
}

fn credential(id: &[u8], public_key: Vec<u8>) -> SimpleCredential {
    SimpleCredential::from(Credential {
        id: id.to_vec(),
        public_key,
        sign_count: 0,
        user_present: true,
        user_verified: true,
        backup_state: false,
        backup_eligible: false,
    })
}

fn state(user_verification: Requirement) -> AuthenticationState {
    start_authentication_with_challenge(
        "example.com".to_owned(),
        "https://example.com".to_owned(),
        user_verification,
        CHALLENGE,
    )
    .1
}

fn auth_data(rp_id: &str, flags: u8, sign_count: u32) -> Vec<u8> {
    let mut buf = sha256(rp_id.as_bytes()).to_vec();
    buf.push(flags);
    buf.extend_from_slice(&sign_count.to_be_bytes());
    buf
}

fn client_data(ty: &str, challenge: &[u8], origin: &str) -> ClientData {
    ClientData { ty: ty.to_owned(), challenge: challenge.to_vec(), origin: origin.to_owned() }
}

fn good_client_data() -> ClientData {
    client_data("webauthn.get", &CHALLENGE, "https://example.com")
}

/// A response for credential `id`, signed by `pair` over the authenticator data and
/// the digest of the client data JSON.
fn response(id: &[u8], pair: &EcdsaKeyPair, authenticator_data: Vec<u8>) -> AuthenticationResponse {
    let client_data_json = b"{\"type\":\"webauthn.get\"}".to_vec();
    let mut message = authenticator_data.clone();
    message.extend_from_slice(&sha256(&client_data_json));
    let signature = pair.sign(&SystemRandom::new(), &message).unwrap().as_ref().to_vec();
    Response {
        id: id.to_vec(),
        raw_id: id.to_vec(),
        response: AuthenticationResponseInner { signature, client_data_json, authenticator_data },
        key_type: KeyType::PublicKey,
        client_extension_results: ExtensionResults::default(),
        authenticator_attachment: None,
    }
}

#[test]
fn authentication_request_is_fixed() {
    let (request, _state) = start_authentication_with_challenge(
        "example.com".to_owned(),
        "https://example.com".to_owned(),
        Requirement::Discouraged,
        CHALLENGE,
    );
    assert_eq!(request.challenge, CHALLENGE);
    assert_eq!(request.timeout, 60000);
    assert_eq!(request.rp_id, "example.com");
    assert!(request.allow_credentials.is_empty());
    assert_eq!(request.user_verification, Requirement::Required);
    assert!(request.hints.is_empty());
}

#[test]
fn authentication_succeeds() {
    let pair = key_pair();
    let creds = [credential(&[1, 2], cose_key(&pair, 0x26))];
    let resp = response(&[1, 2], &pair, auth_data("example.com", 0x05, 9));
    let res = verify_authentication(resp, state(Requirement::Required), &creds, Ok(good_client_data()));
    assert_eq!(
        res.unwrap(),
        Authentication { credential_id: vec![1, 2], sign_count: 9, user_verified: true }
    );
}

#[test]
fn authentication_state_remembers_the_issued_challenge() {
    let pair = key_pair();
    let creds = [credential(&[1], cose_key(&pair, 0x26))];
    let (request, state) = start_authentication(
        "example.com".to_owned(),
        "https://example.com".to_owned(),
        Requirement::Preferred,
    );
    let cd = client_data("webauthn.get", &request.challenge, "https://example.com");
    let resp = response(&[1], &pair, auth_data("example.com", 0x01, 3));
    let auth = verify_authentication(resp, state, &creds, Ok(cd)).unwrap();
    assert!(!auth.user_verified);
    assert_eq!(auth.sign_count, 3);
}

#[test]
fn authentication_wrong_signature() {
    let pair = key_pair();
    let other = key_pair();
    let creds = [credential(&[1], cose_key(&pair, 0x26))];
    let resp = response(&[1], &other, auth_data("example.com", 0x05, 1));
    let res = verify_authentication(resp, state(Requirement::Required), &creds, Ok(good_client_data()));
    assert!(matches!(res, Err(AuthenticationError::InvalidSignature)));
}

#[test]
fn authentication_tampered_authenticator_data() {
    let pair = key_pair();
    let creds = [credential(&[1], cose_key(&pair, 0x26))];
    let mut resp = response(&[1], &pair, auth_data("example.com", 0x05, 1));
    resp.response.authenticator_data = auth_data("example.com", 0x05, 2);
    let res = verify_authentication(resp, state(Requirement::Required), &creds, Ok(good_client_data()));
    assert!(matches!(res, Err(AuthenticationError::InvalidSignature)));
}

#[test]
fn authentication_key_not_es256() {
    let pair = key_pair();
    // Algorithm -8 (EdDSA) in place of -7.
    let creds = [credential(&[1], cose_key(&pair, 0x27))];
    let resp = response(&[1], &pair, auth_data("example.com", 0x05, 1));
    let res = verify_authentication(resp, state(Requirement::Required), &creds, Ok(good_client_data()));
    assert!(matches!(res, Err(AuthenticationError::InvalidSignature)));
}

#[test]
fn authentication_first_matching_credential_is_used() {
    let pair = key_pair();
    let other = key_pair();
    let creds = [
        credential(&[9], cose_key(&pair, 0x26)),
        credential(&[1], cose_key(&other, 0x26)),
        credential(&[1], cose_key(&pair, 0x26)),
    ];
    let resp = response(&[1], &pair, auth_data("example.com", 0x05, 1));
    let res = verify_authentication(resp, state(Requirement::Required), &creds, Ok(good_client_data()));
    assert!(matches!(res, Err(AuthenticationError::InvalidSignature)));
    let creds = [credential(&[9], cose_key(&other, 0x26)), credential(&[1], cose_key(&pair, 0x26))];
    let resp = response(&[1], &pair, auth_data("example.com", 0x05, 1));
    let res = verify_authentication(resp, state(Requirement::Required), &creds, Ok(good_client_data()));
    assert!(res.is_ok());
}

#[test]
fn authentication_no_key_found() {
    let pair = key_pair();
    let creds = [credential(&[2], cose_key(&pair, 0x26))];
    let resp = response(&[1], &pair, auth_data("example.com", 0x05, 1));
    let res = verify_authentication(resp, state(Requirement::Required), &creds, Ok(good_client_data()));
    assert!(matches!(res, Err(AuthenticationError::NoKeyFound)));
    let resp = response(&[1], &pair, auth_data("example.com", 0x05, 1));
    let res = verify_authentication(resp, state(Requirement::Required), &[], Ok(good_client_data()));
    assert!(matches!(res, Err(AuthenticationError::NoKeyFound)));
}

#[test]
fn authentication_bad_client_data_json() {
    let pair = key_pair();
    let creds = [credential(&[1], cose_key(&pair, 0x26))];
    let resp = response(&[1], &pair, auth_data("example.com", 0x05, 1));
    let err = serde_json::from_slice::<serde_json::Value>(b"[").unwrap_err();
    let res = verify_authentication(resp, state(Requirement::Required), &creds, Err(err));
    assert!(matches!(res, Err(AuthenticationError::InvalidClientDataJson(_))));
}

#[test]
fn authentication_wrong_client_data_type() {
    let pair = key_pair();
    let creds = [credential(&[1], cose_key(&pair, 0x26))];
    let resp = response(&[1], &pair, auth_data("example.com", 0x05, 1));
    let cd = client_data("webauthn.create", &CHALLENGE, "https://example.com");
    match verify_authentication(resp, state(Requirement::Required), &creds, Ok(cd)) {
        Err(AuthenticationError::InvalidClientDataJsonType(ty)) => assert_eq!(ty, "webauthn.create"),
        other => panic!("unexpected {other:?}"),
    }
}

#[test]
fn authentication_challenge_mismatch() {
    let pair = key_pair();
    let creds = [credential(&[1], cose_key(&pair, 0x26))];
    let resp = response(&[1], &pair, auth_data("example.com", 0x05, 1));
    let cd = client_data("webauthn.get", &[0u8; 32], "https://example.com");
    match verify_authentication(resp, state(Requirement::Required), &creds, Ok(cd)) {
        Err(AuthenticationError::ChallengeMismatch(expected, got)) => {
            assert_eq!(expected, CHALLENGE);
            assert_eq!(got, vec![0u8; 32]);
        },
        other => panic!("unexpected {other:?}"),
    }
}

#[test]
fn authentication_origin_mismatch() {
    let pair = key_pair();
    let creds = [credential(&[1], cose_key(&pair, 0x26))];
    let resp = response(&[1], &pair, auth_data("example.com", 0x05, 1));
    let cd = client_data("webauthn.get", &CHALLENGE, "http://example.com");
    match verify_authentication(resp, state(Requirement::Required), &creds, Ok(cd)) {
        Err(AuthenticationError::OriginMismatch(expected, got)) => {
            assert_eq!(got, "http://example.com");
            assert_eq!(expected, "https://example.com");
        },
        other => panic!("unexpected {other:?}"),
    }
}

#[test]
fn authentication_bad_auth_data() {
    let pair = key_pair();
    let creds = [credential(&[1], cose_key(&pair, 0x26))];
    let mut data = auth_data("example.com", 0x05, 1);
    data.push(0);
    let resp = response(&[1], &pair, data);
    let res = verify_authentication(resp, state(Requirement::Required), &creds, Ok(good_client_data()));
    assert!(matches!(res, Err(AuthenticationError::AuthData(AuthDataError::TooLong))));
}

#[test]
fn authentication_rp_id_hash_mismatch() {
    let pair = key_pair();
    let creds = [credential(&[1], cose_key(&pair, 0x26))];
    let resp = response(&[1], &pair, auth_data("other.com", 0x05, 1));
    match verify_authentication(resp, state(Requirement::Required), &creds, Ok(good_client_data())) {
        Err(AuthenticationError::RpIdHashMismatch(expected, got)) => {
            assert_eq!(expected, sha256(b"example.com"));
            assert_eq!(got, sha256(b"other.com"));
        },
        other => panic!("unexpected {other:?}"),
    }
}

#[test]
fn authentication_user_not_present() {
    let pair = key_pair();
    let creds = [credential(&[1], cose_key(&pair, 0x26))];
    let resp = response(&[1], &pair, auth_data("example.com", 0x04, 1));
    let res = verify_authentication(resp, state(Requirement::Required), &creds, Ok(good_client_data()));
    assert!(matches!(res, Err(AuthenticationError::UserNotPresent)));
}

#[test]
fn authentication_user_verification_required() {
    let pair = key_pair();
    let creds = [credential(&[1], cose_key(&pair, 0x26))];
    let resp = response(&[1], &pair, auth_data("example.com", 0x01, 1));
    let res = verify_authentication(resp, state(Requirement::Required), &creds, Ok(good_client_data()));
    assert!(matches!(res, Err(AuthenticationError::UserVerificationRequired)));
    let resp = response(&[1], &pair, auth_data("example.com", 0x01, 1));
    let res = verify_authentication(resp, state(Requirement::Preferred), &creds, Ok(good_client_data()));
    assert!(res.is_ok());
}

#[test]
fn simple_credential_from_credential() {
    let a = credential(&[1, 2], vec![0xa0]);
    let b = credential(&[1, 2], vec![0xa0]);
    let c = credential(&[1, 3], vec![0xa0]);
    assert_eq!(a, b);
    assert_ne!(a, c);
}

#[test]
fn authentication_error_from_auth_data_error() {
    let e: AuthenticationError = AuthDataError::InvalidCbor.into();
    assert!(matches!(e, AuthenticationError::AuthData(AuthDataError::InvalidCbor)));
}
