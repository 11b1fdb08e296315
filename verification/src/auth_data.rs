//! Decoding of the authenticator data that an authenticator signs (WebAuthn §6.1):
//! `rpIdHash (32) || flags (1) || signCount (4, big-endian)`, then the attested
//! credential data when flag bit 6 is set, then a CBOR map of extensions when flag
//! bit 7 is set, and nothing after that.
use vstd::prelude::*;

use crate::cbor::{cbor_item_len, cose_key_header, decode_cose_key, read_cbor_item};

verus! {

/// The flags byte of the authenticator data.
#[derive(Debug, Clone, Copy)]
pub struct Flags(pub u8);

/// Bit 0 of the flags byte: the user was present (UP).
pub open spec fn flag_user_present(flags: u8) -> bool {
    flags % 2 == 1
}

/// Bit 2 of the flags byte: the user was verified (UV).
pub open spec fn flag_user_verified(flags: u8) -> bool {
    (flags / 4) % 2 == 1
}

/// Bit 3 of the flags byte: the credential is backed up (BS).
pub open spec fn flag_backup_state(flags: u8) -> bool {
    (flags / 8) % 2 == 1
}

/// Bit 4 of the flags byte: the credential may be backed up (BE).
pub open spec fn flag_backup_eligible(flags: u8) -> bool {
    (flags / 16) % 2 == 1
}

/// Bit 6 of the flags byte: attested credential data follows (AT).
pub open spec fn flag_attested_credential_data(flags: u8) -> bool {
    (flags / 64) % 2 == 1
}

/// Bit 7 of the flags byte: extension data follows (ED).
pub open spec fn flag_extension_data(flags: u8) -> bool {
    (flags / 128) % 2 == 1
}

impl Flags {
    pub fn user_present(self) -> (res: bool)
        ensures
            res == flag_user_present(self.0),
    {
        let b = self.0;
        assert((b & 0x01 != 0) == (b % 2 == 1)) by (bit_vector);
        b & 0x01 != 0
    }

    pub fn user_verified(self) -> (res: bool)
        ensures
            res == flag_user_verified(self.0),
    {
        let b = self.0;
        assert((b & 0x04 != 0) == ((b / 4) % 2 == 1)) by (bit_vector);
        b & 0x04 != 0
    }

    pub fn backup_state(self) -> (res: bool)
        ensures
            res == flag_backup_state(self.0),
    {
        let b = self.0;
        assert((b & 0x08 != 0) == ((b / 8) % 2 == 1)) by (bit_vector);
        b & 0x08 != 0
    }

    pub fn backup_eligible(self) -> (res: bool)
        ensures
            res == flag_backup_eligible(self.0),
    {
        let b = self.0;
        assert((b & 0x10 != 0) == ((b / 16) % 2 == 1)) by (bit_vector);
        b & 0x10 != 0
    }

    pub fn attested_credential_data(self) -> (res: bool)
        ensures
            res == flag_attested_credential_data(self.0),
    {
        let b = self.0;
        assert((b & 0x40 != 0) == ((b / 64) % 2 == 1)) by (bit_vector);
        b & 0x40 != 0
    }

    pub fn extension_data(self) -> (res: bool)
        ensures
            res == flag_extension_data(self.0),
    {
        let b = self.0;
        assert((b & 0x80 != 0) == ((b / 128) % 2 == 1)) by (bit_vector);
        b & 0x80 != 0
    }
}

/// Why authenticator data was rejected.
#[derive(Debug)]
pub enum AuthDataError {
    TooShort,
    InvalidCbor,
    InvalidCredentialPublicKey(coset::CoseError),
    TooLong,
}

/// The kind of an `AuthDataError`, without the payload that `coset` supplies.
#[derive(PartialEq, Eq, Structural)]
pub enum DecodeFailure {
    TooShort,
    InvalidCbor,
    InvalidCredentialPublicKey,
    TooLong,
}

impl AuthDataError {
    pub open spec fn failure(&self) -> DecodeFailure {
        match self {
            AuthDataError::TooShort => DecodeFailure::TooShort,
            AuthDataError::InvalidCbor => DecodeFailure::InvalidCbor,
            AuthDataError::InvalidCredentialPublicKey(_) => DecodeFailure::InvalidCredentialPublicKey,
            AuthDataError::TooLong => DecodeFailure::TooLong,
        }
    }
}

/// Decoded authenticator data.
#[derive(Debug)]
pub struct AuthData {
    pub rp_id_hash: [u8; 32],
    pub flags: Flags,
    pub sign_count: u32,
    pub attested_credential: Option<AttestedCredential>,
    /// The extensions map, as the bytes of its CBOR encoding.
    pub extensions: Option<Vec<u8>>,
}

/// The attested credential data of a registration.
#[derive(Debug)]
pub struct AttestedCredential {
    pub aaguid: [u8; 16],
    pub credential_id: Vec<u8>,
    /// The credential public key, as the bytes of its COSE_Key encoding.
    pub credential_public_key: Vec<u8>,
}

/// The model of `AttestedCredential`.
pub struct AttestedCredentialModel {
    pub aaguid: Seq<u8>,
    pub credential_id: Seq<u8>,
    pub credential_public_key: Seq<u8>,
}

/// The model of `AuthData`.
pub struct AuthDataModel {
    pub rp_id_hash: Seq<u8>,
    pub flags: u8,
    pub sign_count: u32,
    pub attested_credential: Option<AttestedCredentialModel>,
    pub extensions: Option<Seq<u8>>,
}

impl View for AttestedCredential {
    type V = AttestedCredentialModel;

    open spec fn view(&self) -> AttestedCredentialModel {
        AttestedCredentialModel {
            aaguid: self.aaguid@,
            credential_id: self.credential_id@,
            credential_public_key: self.credential_public_key@,
        }
    }
}

impl View for AuthData {
    type V = AuthDataModel;

    open spec fn view(&self) -> AuthDataModel {
        AuthDataModel {
            rp_id_hash: self.rp_id_hash@,
            flags: self.flags.0,
            sign_count: self.sign_count,
            attested_credential: match self.attested_credential {
                Some(c) => Some(c@),
                None => None,
            },
            extensions: match self.extensions {
                Some(e) => Some(e@),
                None => None,
            },
        }
    }
}

/// The big-endian 16-bit integer `hi lo`.
pub open spec fn be_u16(hi: u8, lo: u8) -> int {
    hi * 256 + lo
}

/// The big-endian 32-bit integer stored at `buf[at..at + 4]`.
pub open spec fn be_u32(buf: Seq<u8>, at: int) -> u32 {
    (buf[at] * 16777216 + buf[at + 1] * 65536 + buf[at + 2] * 256 + buf[at + 3]) as u32
}

/// The attested credential data that starts at `pos`: a 16-byte AAGUID, a big-endian
/// 16-bit length `L`, a credential id of `L` bytes and a COSE_Key, one CBOR item.
/// Gives the credential and the position after it. (A length that `ciborium` reports
/// always lies in the bounds checked here.)
pub open spec fn spec_attested_credential(buf: Seq<u8>, pos: int) -> Result<
    (AttestedCredentialModel, int),
    DecodeFailure,
> {
    if buf.len() - pos < 18 {
        Err(DecodeFailure::TooShort)
    } else {
        let id_start = pos + 18;
        let key_start = id_start + be_u16(buf[pos + 16], buf[pos + 17]);
        if buf.len() < key_start {
            Err(DecodeFailure::TooShort)
        } else if buf.len() == key_start {
            Err(DecodeFailure::TooShort)
        } else {
            match cbor_item_len(buf.subrange(key_start, buf.len() as int)) {
                Some(n) if 1 <= n <= buf.len() - key_start => {
                    let key = buf.subrange(key_start, key_start + n);
                    if cose_key_header(key) is None {
                        Err(DecodeFailure::InvalidCredentialPublicKey)
                    } else {
                        Ok(
                            (
                                AttestedCredentialModel {
                                    aaguid: buf.subrange(pos, pos + 16),
                                    credential_id: buf.subrange(id_start, key_start),
                                    credential_public_key: key,
                                },
                                key_start + n,
                            ),
                        )
                    }
                },
                _ => Err(DecodeFailure::InvalidCbor),
            }
        }
    }
}

/// The extensions that start at `pos`: one CBOR item, given as its bytes, and the
/// position after it. (A length that `ciborium` reports always lies in the bounds
/// checked here.)
pub open spec fn spec_extensions(buf: Seq<u8>, pos: int) -> Result<(Seq<u8>, int), DecodeFailure> {
    if buf.len() == pos {
        Err(DecodeFailure::TooShort)
    } else {
        match cbor_item_len(buf.subrange(pos, buf.len() as int)) {
            Some(n) if 1 <= n <= buf.len() - pos => Ok((buf.subrange(pos, pos + n), pos + n)),
            _ => Err(DecodeFailure::InvalidCbor),
        }
    }
}

/// What `buf` decodes to, as authenticator data.
pub open spec fn spec_decode_auth_data(buf: Seq<u8>) -> Result<AuthDataModel, DecodeFailure> {
    if buf.len() < 37 {
        Err(DecodeFailure::TooShort)
    } else {
        let flags = buf[32];
        let attested = if flag_attested_credential_data(flags) {
            match spec_attested_credential(buf, 37) {
                Ok((c, end)) => Ok((Some(c), end)),
                Err(e) => Err(e),
            }
        } else {
            Ok((None, 37int))
        };
        match attested {
            Err(e) => Err(e),
            Ok((attested_credential, after_credential)) => {
                let extensions = if flag_extension_data(flags) {
                    match spec_extensions(buf, after_credential) {
                        Ok((x, end)) => Ok((Some(x), end)),
                        Err(e) => Err(e),
                    }
                } else {
                    Ok((None, after_credential))
                };
                match extensions {
                    Err(e) => Err(e),
                    Ok((extensions, end)) => {
                        if end < buf.len() {
                            Err(DecodeFailure::TooLong)
                        } else {
                            Ok(
                                AuthDataModel {
                                    rp_id_hash: buf.subrange(0, 32),
                                    flags,
                                    sign_count: be_u32(buf, 33),
                                    attested_credential,
                                    extensions,
                                },
                            )
                        }
                    },
                }
            },
        }
    }
}


/// The two bytes of the big-endian 16-bit encoding of `v`.
pub open spec fn be_u16_bytes(v: int) -> Seq<u8> {
    seq![(v / 256) as u8, (v % 256) as u8]
}

/// The four bytes of the big-endian encoding of `v`.
pub open spec fn be_u32_bytes(v: u32) -> Seq<u8> {
    seq![(v / 16777216) as u8, ((v / 65536) % 256) as u8, ((v / 256) % 256) as u8, (v % 256) as u8]
}

/// The authenticator data that `a` describes, laid out as the format prescribes.
pub open spec fn encode_auth_data(a: AuthDataModel) -> Seq<u8> {
    a.rp_id_hash + seq![a.flags] + be_u32_bytes(a.sign_count) + match a.attested_credential {
        Some(c) => c.aaguid + be_u16_bytes(c.credential_id.len() as int) + c.credential_id
            + c.credential_public_key,
        None => Seq::empty(),
    } + match a.extensions {
        Some(x) => x,
        None => Seq::empty(),
    }
}

proof fn lemma_be_u16_bytes(hi: u8, lo: u8)
    ensures
        be_u16_bytes(be_u16(hi, lo)) == seq![hi, lo],
{
    let v = be_u16(hi, lo);
    assert(v / 256 == hi);
    assert(v % 256 == lo);
    assert(be_u16_bytes(v) =~= seq![hi, lo]);
}

proof fn lemma_be_u32_bytes(buf: Seq<u8>, at: int)
    requires
        0 <= at,
        at + 4 <= buf.len(),
    ensures
        be_u32_bytes(be_u32(buf, at)) == buf.subrange(at, at + 4),
{
    let (b0, b1, b2, b3) = (buf[at], buf[at + 1], buf[at + 2], buf[at + 3]);
    let v = be_u32(buf, at);
    assert(v == b0 * 16777216 + b1 * 65536 + b2 * 256 + b3);
    assert(v / 16777216 == b0);
    assert(v / 65536 == b0 * 256 + b1);
    assert((v / 65536) % 256 == b1);
    assert(v / 256 == b0 * 65536 + b1 * 256 + b2);
    assert((v / 256) % 256 == b2);
    assert(v % 256 == b3);
    assert(be_u32_bytes(v) =~= buf.subrange(at, at + 4));
}

/// Decoding loses nothing: authenticator data that decodes is exactly the layout of
/// what it decodes to. In particular the attested credential data is there exactly
/// when flag bit 6 is set, the extensions exactly when bit 7 is set, and nothing
/// follows them.
pub proof fn lemma_decode_auth_data_layout(buf: Seq<u8>)
    requires
        spec_decode_auth_data(buf) is Ok,
    ensures
        ({
            let a = spec_decode_auth_data(buf)->Ok_0;
            &&& encode_auth_data(a) == buf
            &&& a.attested_credential is Some == flag_attested_credential_data(a.flags)
            &&& a.extensions is Some == flag_extension_data(a.flags)
        }),
{
    let a = spec_decode_auth_data(buf)->Ok_0;
    lemma_be_u32_bytes(buf, 33);
    let head = buf.subrange(0, 32) + seq![buf[32]] + buf.subrange(33, 37);
    assert(head =~= buf.subrange(0, 37));
    let after_credential: int = if flag_attested_credential_data(buf[32]) {
        spec_attested_credential(buf, 37)->Ok_0.1
    } else {
        37
    };
    let credential_part = match a.attested_credential {
        Some(c) => c.aaguid + be_u16_bytes(c.credential_id.len() as int) + c.credential_id
            + c.credential_public_key,
        None => Seq::empty(),
    };
    if flag_attested_credential_data(buf[32]) {
        lemma_be_u16_bytes(buf[53], buf[54]);
        let c = a.attested_credential->Some_0;
        assert(c.credential_id.len() == be_u16(buf[53], buf[54]));
        assert(buf.subrange(53, 55) =~= seq![buf[53], buf[54]]);
        assert(credential_part =~= buf.subrange(37, after_credential));
    } else {
        assert(credential_part =~= buf.subrange(37, after_credential));
    }
    let extension_part = match a.extensions {
        Some(x) => x,
        None => Seq::empty(),
    };
    assert(extension_part =~= buf.subrange(after_credential, buf.len() as int));
    assert(encode_auth_data(a) =~= buf);
}


proof fn lemma_be_u32_of_bytes(v: u32)
    ensures
        be_u32_bytes(v).len() == 4,
        be_u32(be_u32_bytes(v), 0) == v,
{
    let b = be_u32_bytes(v);
    let (b0, b1, b2, b3) = (v / 16777216, (v / 65536) % 256, (v / 256) % 256, v % 256);
    assert(v == b0 * 16777216 + b1 * 65536 + b2 * 256 + b3);
    assert(b[0] == b0 && b[1] == b1 && b[2] == b2 && b[3] == b3);
}

proof fn lemma_be_u16_of_bytes(v: int)
    requires
        0 <= v < 65536,
    ensures
        be_u16_bytes(v).len() == 2,
        be_u16(be_u16_bytes(v)[0], be_u16_bytes(v)[1]) == v,
{
    let b = be_u16_bytes(v);
    assert(b[0] == v / 256 && b[1] == v % 256);
}

/// Decoding is complete: every authenticator data laid out as the format prescribes
/// decodes to what it was laid out from, whatever the signature counter, the AAGUID,
/// the credential id and the other flag bits. The layout must be consistent: a
/// 32-byte relying-party hash and 16-byte AAGUID, attested credential data exactly
/// when bit 6 is set and extensions exactly when bit 7 is set, a credential id shorter
/// than 65536 bytes, a public key that `coset` decodes and that `ciborium` reads as one
/// whole CBOR item ahead of the extensions, and extensions that `ciborium` reads as one
/// whole CBOR item.
pub proof fn lemma_decode_auth_data_complete(a: AuthDataModel)
    requires
        a.rp_id_hash.len() == 32,
        a.attested_credential is Some == flag_attested_credential_data(a.flags),
        a.extensions is Some == flag_extension_data(a.flags),
        a.attested_credential matches Some(c) ==> {
            &&& c.aaguid.len() == 16
            &&& c.credential_id.len() < 65536
            &&& c.credential_public_key.len() >= 1
            &&& cose_key_header(c.credential_public_key) is Some
            &&& cbor_item_len(c.credential_public_key + match a.extensions {
                Some(x) => x,
                None => Seq::empty(),
            }) matches Some(n)
            &&& n == c.credential_public_key.len()
        },
        a.extensions matches Some(x) ==> {
            &&& x.len() >= 1
            &&& cbor_item_len(x) matches Some(n)
            &&& n == x.len()
        },
    ensures
        spec_decode_auth_data(encode_auth_data(a)) == Ok::<AuthDataModel, DecodeFailure>(a),
{
    let buf = encode_auth_data(a);
    let tail = match a.extensions {
        Some(x) => x,
        None => Seq::<u8>::empty(),
    };
    let credential_part = match a.attested_credential {
        Some(c) => c.aaguid + be_u16_bytes(c.credential_id.len() as int) + c.credential_id
            + c.credential_public_key,
        None => Seq::empty(),
    };
    let head = a.rp_id_hash + seq![a.flags] + be_u32_bytes(a.sign_count);
    lemma_be_u32_of_bytes(a.sign_count);
    assert(buf =~= head + credential_part + tail);
    assert(head.len() == 37);
    assert(buf[32] == a.flags);
    assert(buf.subrange(33, 37) =~= be_u32_bytes(a.sign_count));
    assert(be_u32(buf, 33) == be_u32(be_u32_bytes(a.sign_count), 0));
    assert(buf.subrange(0, 32) =~= a.rp_id_hash);
    let after_credential: int = 37 + credential_part.len() as int;
    if let Some(c) = a.attested_credential {
        let id_len = c.credential_id.len() as int;
        lemma_be_u16_of_bytes(id_len);
        let key_start = 55 + id_len;
        let key_len = c.credential_public_key.len() as int;
        assert(buf[53] == be_u16_bytes(id_len)[0] && buf[54] == be_u16_bytes(id_len)[1]);
        assert(buf.subrange(key_start, buf.len() as int) =~= c.credential_public_key + tail);
        assert(buf.subrange(key_start, key_start + key_len) =~= c.credential_public_key);
        assert(buf.subrange(37, 53) =~= c.aaguid);
        assert(buf.subrange(55, key_start) =~= c.credential_id);
        let model = spec_attested_credential(buf, 37)->Ok_0.0;
        assert(model.aaguid == c.aaguid && model.credential_id == c.credential_id
            && model.credential_public_key == c.credential_public_key);
        assert(spec_attested_credential(buf, 37) == Ok::<(AttestedCredentialModel, int), DecodeFailure>(
            (c, after_credential),
        ));
    }
    if let Some(x) = a.extensions {
        assert(buf.subrange(after_credential, buf.len() as int) =~= x);
        assert(spec_extensions(buf, after_credential) == Ok::<(Seq<u8>, int), DecodeFailure>(
            (x, buf.len() as int),
        ));
    }
}

/// Reads the big-endian 32-bit integer at `buf[at..at + 4]`.
fn read_u32_be(buf: &[u8], at: usize) -> (res: u32)
    requires
        at + 4 <= buf@.len(),
    ensures
        res == be_u32(buf@, at as int),
{
    (buf[at] as u32) * 16777216 + (buf[at + 1] as u32) * 65536 + (buf[at + 2] as u32) * 256
        + (buf[at + 3] as u32)
}

/// Decodes the attested credential data that starts at `pos`.
fn decode_attested_credential(buf: &[u8], pos: usize) -> (res: Result<
    (AttestedCredential, usize),
    AuthDataError,
>)
    requires
        pos <= buf@.len(),
    ensures
        res matches Ok((_, end)) ==> end <= buf@.len(),
        res matches Ok((c, end)) ==> forall|extra: Seq<u8>| #[trigger] spec_attested_credential(buf@ + extra, pos as int)
            == Ok::<(AttestedCredentialModel, int), DecodeFailure>((c@, end as int)),
        match res {
            Ok((c, end)) => spec_attested_credential(buf@, pos as int) == Ok::<
                (AttestedCredentialModel, int),
                DecodeFailure,
            >((c@, end as int)),
            Err(e) => spec_attested_credential(buf@, pos as int) == Err::<
                (AttestedCredentialModel, int),
                DecodeFailure,
            >(e.failure()),
        },
{
    let len = buf.len();
    if len - pos < 18 {
        return Err(AuthDataError::TooShort);
    }
    let mut aaguid = [0u8; 16];
    let mut i: usize = 0;
    while i < 16
        invariant
            i <= 16,
            pos + 18 <= len == buf@.len(),
            forall|j: int| 0 <= j < i ==> aaguid@[j] == buf@[pos + j],
        decreases 16 - i,
    {
        aaguid[i] = buf[pos + i];
        i += 1;
    }
    assert(aaguid@ =~= buf@.subrange(pos as int, pos + 16));
    let id_len = (buf[pos + 16] as usize) * 256 + (buf[pos + 17] as usize);
    let id_start = pos + 18;
    if len - id_start < id_len {
        return Err(AuthDataError::TooShort);
    }
    let key_start = id_start + id_len;
    let credential_id = vstd::slice::slice_to_vec(vstd::slice::slice_subrange(buf, id_start, key_start));
    if key_start == len {
        return Err(AuthDataError::TooShort);
    }
    let rest = vstd::slice::slice_subrange(buf, key_start, len);
    let key_len = match read_cbor_item(rest) {
        None => return Err(AuthDataError::InvalidCbor),
        Some(n) => n,
    };
    let key_bytes = vstd::slice::slice_subrange(buf, key_start, key_start + key_len);
    match decode_cose_key(key_bytes) {
        Err(e) => return Err(AuthDataError::InvalidCredentialPublicKey(e)),
        Ok(_) => {},
    }
    let credential = AttestedCredential {
        aaguid,
        credential_id,
        credential_public_key: vstd::slice::slice_to_vec(key_bytes),
    };
    assert forall|extra: Seq<u8>| #[trigger] spec_attested_credential(buf@ + extra, pos as int)
        == Ok::<(AttestedCredentialModel, int), DecodeFailure>((credential@, (key_start + key_len) as int)) by {
        let longer = buf@ + extra;
        assert(longer.subrange(key_start as int, longer.len() as int) =~= rest@ + extra);
        assert(longer.subrange(key_start as int, (key_start + key_len) as int) =~= key_bytes@);
        assert(longer.subrange(pos as int, pos + 16) =~= buf@.subrange(pos as int, pos + 16));
        assert(longer.subrange(id_start as int, key_start as int) =~= buf@.subrange(id_start as int, key_start as int));
        assert(longer[pos + 16] == buf@[pos + 16] && longer[pos + 17] == buf@[pos + 17]);
    }
    Ok((credential, key_start + key_len))
}

/// Decodes the extensions that start at `pos`.
fn decode_extensions(buf: &[u8], pos: usize) -> (res: Result<(Vec<u8>, usize), AuthDataError>)
    requires
        pos <= buf@.len(),
    ensures
        res matches Ok((x, end)) ==> end <= buf@.len() && forall|extra: Seq<u8>| #[trigger] spec_extensions(buf@ + extra, pos as int)
            == Ok::<(Seq<u8>, int), DecodeFailure>((x@, end as int)),
        match res {
            Ok((x, end)) => spec_extensions(buf@, pos as int) == Ok::<(Seq<u8>, int), DecodeFailure>(
                (x@, end as int),
            ),
            Err(e) => spec_extensions(buf@, pos as int) == Err::<(Seq<u8>, int), DecodeFailure>(
                e.failure(),
            ),
        },
{
    let len = buf.len();
    if pos == len {
        return Err(AuthDataError::TooShort);
    }
    let rest = vstd::slice::slice_subrange(buf, pos, len);
    match read_cbor_item(rest) {
        None => Err(AuthDataError::InvalidCbor),
        Some(n) => {
            let x = vstd::slice::slice_to_vec(vstd::slice::slice_subrange(buf, pos, pos + n));
            assert forall|extra: Seq<u8>| #[trigger] spec_extensions(buf@ + extra, pos as int)
                == Ok::<(Seq<u8>, int), DecodeFailure>((x@, (pos + n) as int)) by {
                let longer = buf@ + extra;
                assert(longer.subrange(pos as int, longer.len() as int) =~= rest@ + extra);
                assert(longer.subrange(pos as int, (pos + n) as int) =~= x@);
            }
            Ok((x, pos + n))
        },
    }
}

/// Decodes authenticator data.
pub fn decode_auth_data(buf: &[u8]) -> (res: Result<AuthData, AuthDataError>)
    ensures
        match res {
            Ok(a) => spec_decode_auth_data(buf@) == Ok::<AuthDataModel, DecodeFailure>(a@),
            Err(e) => spec_decode_auth_data(buf@) == Err::<AuthDataModel, DecodeFailure>(e.failure()),
        },
        res is Ok ==> forall|extra: Seq<u8>| extra.len() > 0 ==> #[trigger] spec_decode_auth_data(buf@ + extra)
            == Err::<AuthDataModel, DecodeFailure>(DecodeFailure::TooLong),
{
    let len = buf.len();
    if len < 37 {
        return Err(AuthDataError::TooShort);
    }
    let mut rp_id_hash = [0u8; 32];
    let mut i: usize = 0;
    while i < 32
        invariant
            i <= 32,
            37 <= len == buf@.len(),
            forall|j: int| 0 <= j < i ==> rp_id_hash@[j] == buf@[j],
        decreases 32 - i,
    {
        rp_id_hash[i] = buf[i];
        i += 1;
    }
    assert(rp_id_hash@ =~= buf@.subrange(0, 32));
    let flags = Flags(buf[32]);
    let sign_count = read_u32_be(buf, 33);
    let mut pos: usize = 37;
    let attested_credential = if flags.attested_credential_data() {
        match decode_attested_credential(buf, 37) {
            Ok((c, end)) => {
                pos = end;
                Some(c)
            },
            Err(e) => return Err(e),
        }
    } else {
        None
    };
    let ghost after_credential = pos;
    let extensions = if flags.extension_data() {
        match decode_extensions(buf, pos) {
            Ok((x, end)) => {
                pos = end;
                Some(x)
            },
            Err(e) => return Err(e),
        }
    } else {
        None
    };
    if pos < len {
        return Err(AuthDataError::TooLong);
    }
    assert forall|extra: Seq<u8>| extra.len() > 0 implies #[trigger] spec_decode_auth_data(buf@ + extra)
        == Err::<AuthDataModel, DecodeFailure>(DecodeFailure::TooLong) by {
        let longer = buf@ + extra;
        assert(longer[32] == buf@[32]);
        if flag_attested_credential_data(buf@[32]) {
            assert(spec_attested_credential(longer, 37) is Ok);
        }
        if flag_extension_data(buf@[32]) {
            assert(spec_extensions(longer, after_credential as int) is Ok);
        }
    }
    Ok(AuthData { rp_id_hash, flags, sign_count, attested_credential, extensions })
}

} // verus!
