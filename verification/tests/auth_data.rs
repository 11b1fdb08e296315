use passkeys::auth_data::{decode_auth_data, AuthDataError, Flags};
use passkeys::shared::sha256;

fn header(flags: u8, sign_count: u32) -> Vec<u8> {
    let mut buf = sha256(b"example.com").to_vec();
    buf.push(flags);
    buf.extend_from_slice(&sign_count.to_be_bytes());
    buf
}

fn cose_key_bytes() -> Vec<u8> {
    let mut key = vec![0xa5, 0x01, 0x02, 0x03, 0x26, 0x20, 0x01, 0x21, 0x58, 0x20];
    key.extend_from_slice(&[0x11; 32]);
    key.extend_from_slice(&[0x22, 0x58, 0x20]);
    key.extend_from_slice(&[0x33; 32]);
    key
}

fn attested(id: &[u8], key: &[u8]) -> Vec<u8> {
    let mut buf = vec![0xaa; 16];
    buf.extend_from_slice(&(id.len() as u16).to_be_bytes());
    buf.extend_from_slice(id);
    buf.extend_from_slice(key);
    buf
}

#[test]
fn flags_read_their_bits() {
    let all = Flags(0xff);
    assert!(all.user_present() && all.user_verified() && all.backup_state());
    assert!(all.backup_eligible() && all.attested_credential_data() && all.extension_data());
    let none = Flags(0);
    assert!(!none.user_present() && !none.user_verified() && !none.backup_state());
    assert!(!none.backup_eligible() && !none.attested_credential_data() && !none.extension_data());
    assert!(Flags(0x01).user_present() && !Flags(0x01).user_verified());
    assert!(Flags(0x04).user_verified() && !Flags(0x04).user_present());
    assert!(Flags(0x08).backup_state() && !Flags(0x08).backup_eligible());
    assert!(Flags(0x10).backup_eligible() && !Flags(0x10).backup_state());
    assert!(Flags(0x40).attested_credential_data() && !Flags(0x40).extension_data());
    assert!(Flags(0x80).extension_data() && !Flags(0x80).attested_credential_data());
    // Bits 1 and 5 are reserved and read as nothing.
    let reserved = Flags(0x22);
    assert!(!reserved.user_present() && !reserved.user_verified() && !reserved.backup_state());
    assert!(!reserved.backup_eligible() && !reserved.attested_credential_data() && !reserved.extension_data());
}

#[test]
fn auth_data_shorter_than_header_is_too_short() {
    assert!(matches!(decode_auth_data(&[]), Err(AuthDataError::TooShort)));
    assert!(matches!(decode_auth_data(&[0u8; 36]), Err(AuthDataError::TooShort)));
}

#[test]
fn auth_data_header_only() {
    let buf = header(0x05, 0x0102_0304);
    let a = decode_auth_data(&buf).unwrap();
    assert_eq!(a.rp_id_hash, sha256(b"example.com"));
    assert_eq!(a.flags.0, 0x05);
    assert_eq!(a.sign_count, 0x0102_0304);
    assert!(a.attested_credential.is_none());
    assert!(a.extensions.is_none());
}

#[test]
fn auth_data_sign_count_is_big_endian() {
    let mut buf = vec![0u8; 37];
    buf[33] = 0xff;
    buf[36] = 0x01;
    assert_eq!(decode_auth_data(&buf).unwrap().sign_count, 0xff00_0001);
}

#[test]
fn auth_data_trailing_byte_is_too_long() {
    let mut buf = header(0x01, 0);
    buf.push(0);
    assert!(matches!(decode_auth_data(&buf), Err(AuthDataError::TooLong)));
}

#[test]
fn auth_data_with_attested_credential() {
    let key = cose_key_bytes();
    let mut buf = header(0x45, 7);
    buf.extend_from_slice(&attested(&[9, 8, 7], &key));
    let a = decode_auth_data(&buf).unwrap();
    let c = a.attested_credential.unwrap();
    assert_eq!(c.aaguid, [0xaa; 16]);
    assert_eq!(c.credential_id, vec![9, 8, 7]);
    assert_eq!(c.credential_public_key, key);
    assert_eq!(a.sign_count, 7);
}

#[test]
fn auth_data_attested_flag_without_data_is_too_short() {
    let mut buf = header(0x41, 0);
    assert!(matches!(decode_auth_data(&buf), Err(AuthDataError::TooShort)));
    buf.extend_from_slice(&[0xaa; 17]);
    assert!(matches!(decode_auth_data(&buf), Err(AuthDataError::TooShort)));
}

#[test]
fn auth_data_credential_id_longer_than_data_is_too_short() {
    let mut buf = header(0x41, 0);
    buf.extend_from_slice(&[0xaa; 16]);
    buf.extend_from_slice(&[0x00, 0x05, 1, 2, 3]);
    assert!(matches!(decode_auth_data(&buf), Err(AuthDataError::TooShort)));
}

#[test]
fn auth_data_missing_public_key_is_too_short() {
    let mut buf = header(0x41, 0);
    buf.extend_from_slice(&attested(&[1, 2], &[]));
    assert!(matches!(decode_auth_data(&buf), Err(AuthDataError::TooShort)));
}

#[test]
fn auth_data_bad_cbor_public_key() {
    let mut buf = header(0x41, 0);
    buf.extend_from_slice(&attested(&[1, 2], &[0xff]));
    assert!(matches!(decode_auth_data(&buf), Err(AuthDataError::InvalidCbor)));
}

#[test]
fn auth_data_public_key_not_a_cose_key() {
    let mut buf = header(0x41, 0);
    buf.extend_from_slice(&attested(&[1, 2], &[0x01]));
    assert!(matches!(decode_auth_data(&buf), Err(AuthDataError::InvalidCredentialPublicKey(_))));
}

#[test]
fn auth_data_with_extensions() {
    let mut buf = header(0x81, 0);
    buf.extend_from_slice(&[0xa1, 0x61, 0x78, 0x01]);
    let a = decode_auth_data(&buf).unwrap();
    assert_eq!(a.extensions, Some(vec![0xa1, 0x61, 0x78, 0x01]));
}

#[test]
fn auth_data_extension_flag_without_data_is_too_short() {
    let buf = header(0x81, 0);
    assert!(matches!(decode_auth_data(&buf), Err(AuthDataError::TooShort)));
}

#[test]
fn auth_data_bad_cbor_extensions() {
    let mut buf = header(0x81, 0);
    buf.push(0xff);
    assert!(matches!(decode_auth_data(&buf), Err(AuthDataError::InvalidCbor)));
}

#[test]
fn auth_data_credential_then_extensions_then_nothing() {
    let key = cose_key_bytes();
    let mut buf = header(0xc1, 1);
    buf.extend_from_slice(&attested(&[5], &key));
    buf.push(0xa0);
    let a = decode_auth_data(&buf).unwrap();
    assert_eq!(a.attested_credential.unwrap().credential_public_key, key);
    assert_eq!(a.extensions, Some(vec![0xa0]));
    buf.push(0x00);
    assert!(matches!(decode_auth_data(&buf), Err(AuthDataError::TooLong)));
}

#[test]
fn auth_data_credential_without_extension_flag_leaves_trailing_bytes() {
    let key = cose_key_bytes();
    let mut buf = header(0x41, 1);
    buf.extend_from_slice(&attested(&[5], &key));
    buf.push(0xa0);
    assert!(matches!(decode_auth_data(&buf), Err(AuthDataError::TooLong)));
}
