use envelope_crypto::{get_key_encryption_key, master_key_bytes_to_hex};

#[test]
fn derive_key_is_deterministic() {
    let k1 = get_key_encryption_key("correct horse battery staple", "s0m3s4lt");
    let k2 = get_key_encryption_key("correct horse battery staple", "s0m3s4lt");
    assert_eq!(k1.len(), 32);
    assert_eq!(k1, k2);
}

#[test]
fn master_key_hex_is_deterministic() {
    let h1 = master_key_bytes_to_hex("correct horse battery staple", "s0m3s4lt");
    let h2 = master_key_bytes_to_hex("correct horse battery staple", "s0m3s4lt");
    assert_eq!(h1.len(), 64);
    assert_eq!(h1, h2);
    assert!(h1.bytes().all(|b| b.is_ascii_hexdigit() && !b.is_ascii_uppercase()));
}

#[test]
fn derive_key_changes_with_salt() {
    let k1 = get_key_encryption_key("correct horse battery staple", "s0m3s4lt");
    let k2 = get_key_encryption_key("correct horse battery staple", "s0m3s4l2");
    assert_ne!(k1, k2);
}

#[test]
fn derive_key_changes_with_password() {
    let k1 = get_key_encryption_key("correct horse battery staple", "s0m3s4lt");
    let k2 = get_key_encryption_key("incorrect horse battery staple", "s0m3s4lt");
    assert_ne!(k1, k2);
}
