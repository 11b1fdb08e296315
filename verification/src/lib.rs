//! Server-side WebAuthn passkey registration and authentication.
//!
//! The library issues registration and authentication requests, keeps the state that
//! a ceremony needs, decodes authenticator data and checks what an authenticator
//! answered against that state.
use vstd::prelude::*;

pub mod auth_data;
pub mod authentication;
pub mod cbor;
pub mod registration;
pub mod shared;

pub use authentication::{start_authentication, verify_authentication};
pub use registration::{start_registration, verify_registration};

verus! {

/// A credential that a registration established.
#[derive(Debug, Clone)]
pub struct Credential {
    pub id: Vec<u8>,
    /// The credential public key, as the bytes of its COSE_Key encoding.
    pub public_key: Vec<u8>,
    pub sign_count: u32,
    pub user_present: bool,
    pub user_verified: bool,
    pub backup_state: bool,
    pub backup_eligible: bool,
}

/// The model of a `Credential`.
pub struct CredentialModel {
    pub id: Seq<u8>,
    pub public_key: Seq<u8>,
    pub sign_count: u32,
    pub user_present: bool,
    pub user_verified: bool,
    pub backup_state: bool,
    pub backup_eligible: bool,
}

impl View for Credential {
    type V = CredentialModel;

    open spec fn view(&self) -> CredentialModel {
        CredentialModel {
            id: self.id@,
            public_key: self.public_key@,
            sign_count: self.sign_count,
            user_present: self.user_present,
            user_verified: self.user_verified,
            backup_state: self.backup_state,
            backup_eligible: self.backup_eligible,
        }
    }
}

impl Credential {
    pub fn id(&self) -> (res: &[u8])
        ensures
            res@ == self.id@,
    {
        self.id.as_slice()
    }
}

/// What a successful authentication established.
#[derive(Debug, Clone, PartialEq, Eq, PartialOrd, Ord, Hash)]
pub struct Authentication {
    pub credential_id: Vec<u8>,
    pub sign_count: u32,
    pub user_verified: bool,
}

/// The model of an `Authentication`.
pub struct AuthenticationModel {
    pub credential_id: Seq<u8>,
    pub sign_count: u32,
    pub user_verified: bool,
}

impl View for Authentication {
    type V = AuthenticationModel;

    open spec fn view(&self) -> AuthenticationModel {
        AuthenticationModel {
            credential_id: self.credential_id@,
            sign_count: self.sign_count,
            user_verified: self.user_verified,
        }
    }
}

/// The user account that a registration is for.
#[derive(Debug, Clone)]
pub struct User {
    pub id: Vec<u8>,
    pub name: String,
    pub display_name: String,
}

/// How strongly the relying party asks for a property of the authenticator.
#[derive(Debug, PartialEq, Eq, Structural, Clone, Copy)]
pub enum Requirement {
    Required,
    Preferred,
    Discouraged,
}

} // verus!
