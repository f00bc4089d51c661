use envelope_crypto::{bytes_to_hex, generate_nonce_hex, hash_file, hex_to_bytes};

#[test]
fn bytes_to_hex_known_values() {
    assert_eq!(bytes_to_hex(&[0x00, 0x0f, 0xa5, 0xff]), "000fa5ff");
    assert_eq!(bytes_to_hex(&[0xde, 0xad, 0xbe, 0xef]), "deadbeef");
    assert_eq!(bytes_to_hex(&[1]), "01");
}

#[test]
fn bytes_to_hex_empty() {
    assert_eq!(bytes_to_hex(&[]), "");
}

#[test]
fn hex_to_bytes_decodes() {
    assert_eq!(hex_to_bytes("deadbeef").unwrap(), vec![0xde, 0xad, 0xbe, 0xef]);
    assert_eq!(hex_to_bytes("").unwrap(), Vec::<u8>::new());
}

#[test]
fn hex_to_bytes_accepts_uppercase() {
    assert_eq!(hex_to_bytes("DEADBEEF").unwrap(), vec![0xde, 0xad, 0xbe, 0xef]);
    assert_eq!(hex_to_bytes("aAbB09").unwrap(), vec![0xaa, 0xbb, 0x09]);
}

#[test]
fn hex_to_bytes_rejects_odd_length() {
    assert_eq!(hex_to_bytes("abc").unwrap_err(), "Invalid hex string length");
    assert_eq!(hex_to_bytes("f").unwrap_err(), "Invalid hex string length");
}

#[test]
fn hex_to_bytes_rejects_bad_characters() {
    assert_eq!(hex_to_bytes("zz").unwrap_err(), "Invalid hex character at position 0");
    assert_eq!(hex_to_bytes("0g").unwrap_err(), "Invalid hex character at position 0");
    assert_eq!(hex_to_bytes("00zz").unwrap_err(), "Invalid hex character at position 2");
    assert_eq!(
        hex_to_bytes("0000000000zz").unwrap_err(),
        "Invalid hex character at position 10"
    );
    assert!(hex_to_bytes("caf\u{e9}!").is_err());
}

#[test]
fn hex_round_trip_all_byte_values() {
    let bytes: Vec<u8> = (0u8..=255).collect();
    let hex = bytes_to_hex(&bytes);
    assert_eq!(hex.len(), 512);
    assert_eq!(hex_to_bytes(&hex).unwrap(), bytes);
}

#[test]
fn generate_nonce_hex_is_24_hex_chars() {
    let hex = generate_nonce_hex();
    assert_eq!(hex.len(), 24);
    assert_eq!(hex_to_bytes(&hex).unwrap().len(), 12);
}

#[test]
fn hash_file_known_digest() {
    assert_eq!(
        hash_file(b"hello world"),
        "b94d27b9934d3e08a52e52d7da7dabfac484efe37a5380ee9088f7ace2efcde9"
    );
}

#[test]
fn hash_file_empty_digest() {
    assert_eq!(
        hash_file(b""),
        "e3b0c44298fc1c149afbf4c8996fb92427ae41e4649b934ca495991b7852b855"
    );
}
