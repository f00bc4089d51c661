use envelope_crypto::generate_nonce;
use std::collections::HashSet;

#[test]
fn nonce_is_12_bytes() {
    assert_eq!(generate_nonce().len(), 12);
}

#[test]
fn nonces_do_not_repeat_across_ten_thousand_draws() {
    let mut seen: HashSet<Vec<u8>> = HashSet::new();
    for _ in 0..10_000 {
        let nonce = generate_nonce();
        assert_eq!(nonce.len(), 12);
        assert!(seen.insert(nonce), "duplicate nonce drawn");
    }
    assert_eq!(seen.len(), 10_000);
}
