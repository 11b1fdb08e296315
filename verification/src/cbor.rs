//! The CBOR and COSE_Key decoding that the library takes from `ciborium` and `coset`.
use vstd::prelude::*;
use coset::{CborSerializable, RegisteredLabel, RegisteredLabelWithPrivate};

verus! {

/// `coset::CoseKey`, carried through the library as an opaque value.
#[verifier::external_type_specification]
#[verifier::external_body]
pub struct ExCoseKey(coset::CoseKey);

/// `coset::CoseError`, the error that `coset` reports for a malformed COSE_Key.
#[verifier::external_type_specification]
#[verifier::external_body]
pub struct ExCoseError(coset::CoseError);

/// A COSE label as `coset` reads it: an IANA-assigned integer, an integer of the
/// private-use range, or a text label.
#[derive(Debug, Clone, PartialEq, Eq)]
pub enum CoseLabel {
    Assigned(i64),
    PrivateUse(i64),
    Text(String),
}

/// The two header fields of a COSE_Key that the signature check reads.
#[derive(Debug, Clone)]
pub struct CoseKeyHeader {
    /// The key type (`kty`, label 1).
    pub kty: CoseLabel,
    /// The algorithm the key is restricted to (`alg`, label 3), if any.
    pub alg: Option<CoseLabel>,
}

/// A COSE_Key that `coset` decoded, with its header fields as plain values. Only
/// `decode_cose_key` builds one, so `key` is always what `coset` decodes from `encoded`.
pub struct DecodedCoseKey {
    key: coset::CoseKey,
    encoded: Vec<u8>,
    header: CoseKeyHeader,
}

impl DecodedCoseKey {
    /// The `kty` and `alg` fields of the key.
    pub closed spec fn spec_header(&self) -> CoseKeyHeader {
        self.header
    }

    /// The `kty` and `alg` fields of the key.
    pub fn header(&self) -> (res: &CoseKeyHeader)
        ensures
            *res == self.spec_header(),
    {
        &self.header
    }
}

impl View for DecodedCoseKey {
    type V = Seq<u8>;

    /// The bytes that the key was decoded from.
    closed spec fn view(&self) -> Seq<u8> {
        self.encoded@
    }
}

/// The number of bytes that the first CBOR data item of `bytes` takes when
/// `ciborium` reads it into a `ciborium::Value`; `None` when `ciborium` rejects it.
pub uninterp spec fn cbor_item_len(bytes: Seq<u8>) -> Option<usize>;

/// The header of the COSE_Key that `coset` decodes from exactly `bytes`;
/// `None` when `coset` rejects them.
pub uninterp spec fn cose_key_header(bytes: Seq<u8>) -> Option<CoseKeyHeader>;

/// The SEC1 octet string that `coset`'s `to_sec1_octet_string` gives for the COSE_Key
/// decoded from `encoded`; `None` when it fails.
pub uninterp spec fn cose_key_sec1_octets(encoded: Seq<u8>) -> Option<Seq<u8>>;

/// Calls `ciborium::from_reader` for a `ciborium::Value` on a cursor over `bytes` and
/// reports the cursor's position afterwards. Claimed: the result is a function of
/// `bytes` alone (named `cbor_item_len`), and a data item that `ciborium` reads takes
/// at least its one header byte and no more bytes than there are. `ciborium` reads
/// with `read_exact` and never past the item, so an item it reads is read the same
/// when more bytes follow it. The decoded value itself is not kept.
#[verifier::external_body]
pub(crate) fn read_cbor_item(bytes: &[u8]) -> (res: Option<usize>)
    ensures
        res == cbor_item_len(bytes@),
        res matches Some(n) ==> 1 <= n <= bytes@.len(),
        res matches Some(n) ==> forall|extra: Seq<u8>| #[trigger] cbor_item_len(bytes@ + extra) == Some(n),
{
    let mut cursor = std::io::Cursor::new(bytes);
    match ciborium::from_reader::<ciborium::Value, _>(&mut cursor) {
        Ok(_) => Some(cursor.position() as usize),
        Err(_) => None,
    }
}

/// Calls `coset::CoseKey::from_slice` (`CborSerializable`), which reads one CBOR item
/// that must take all of `bytes` and converts it with `CoseKey::from_cbor_value`.
/// Claimed: success and the `kty` and `alg` fields of the key are a function of
/// `bytes` alone (named `cose_key_header`). The error that `coset` reports is passed
/// on and not described. The decoded key keeps a copy of `bytes`, its view.
#[verifier::external_body]
pub(crate) fn decode_cose_key(bytes: &[u8]) -> (res: Result<DecodedCoseKey, coset::CoseError>)
    ensures
        match res {
            Ok(d) => d@ == bytes@ && cose_key_header(bytes@) == Some(d.spec_header()),
            Err(_) => cose_key_header(bytes@) is None,
        },
{
    let key = coset::CoseKey::from_slice(bytes)?;
    let kty = match &key.kty {
        RegisteredLabel::Assigned(t) => CoseLabel::Assigned(*t as i64),
        RegisteredLabel::Text(s) => CoseLabel::Text(s.clone()),
    };
    let alg = match &key.alg {
        None => None,
        Some(RegisteredLabelWithPrivate::PrivateUse(i)) => Some(CoseLabel::PrivateUse(*i)),
        Some(RegisteredLabelWithPrivate::Assigned(a)) => Some(CoseLabel::Assigned(*a as i64)),
        Some(RegisteredLabelWithPrivate::Text(s)) => Some(CoseLabel::Text(s.clone())),
    };
    Ok(DecodedCoseKey { key, encoded: bytes.to_vec(), header: CoseKeyHeader { kty, alg } })
}

/// Calls `coset::CoseKey::to_sec1_octet_string` on the decoded key, which builds
/// `0x04 || x || y` from the key's coordinates, or `0x02 || x` / `0x03 || x` when `y`
/// is given as a sign bit, and fails for a key that is not an EC2 key or lacks
/// well-formed coordinates. Claimed: the result is a function of the bytes the key was
/// decoded from (named `cose_key_sec1_octets`), and a string that comes back starts
/// with one of those three bytes.
#[verifier::external_body]
pub(crate) fn cose_key_sec1(key: &DecodedCoseKey) -> (res: Option<Vec<u8>>)
    ensures
        match res {
            Some(s) => cose_key_sec1_octets(key@) == Some(s@),
            None => cose_key_sec1_octets(key@) is None,
        },
        res matches Some(s) ==> s@.len() >= 1 && (s@[0] == 2 || s@[0] == 3 || s@[0] == 4),
{
    match key.key.to_sec1_octet_string() {
        Ok(s) => Some(s),
        Err(_) => None,
    }
}

} // verus!
