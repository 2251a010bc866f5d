use pqc_shim::kyber_decapsulate;
use pqc_shim::kyber_encapsulate;
use pqc_shim::kyber_generate_keypair;
use pqc_shim::PqcError;

fn split_pair(joined: &str) -> (String, String) {
    let mut parts = joined.splitn(2, ':');
    let first = parts.next().expect("first part").to_owned();
    let second = parts.next().expect("second part").to_owned();
    (first, second)
}

#[test]
fn kyber_keypair_is_a_hex_pair_of_the_fixed_lengths() {
    let (public_hex, secret_hex) = split_pair(&kyber_generate_keypair());
    assert_eq!(public_hex.len(), 2 * 1568);
    assert_eq!(secret_hex.len(), 2 * 3168);
    let lower_hex = |s: &str| s.chars().all(|c| matches!(c, '0'..='9' | 'a'..='f'));
    assert!(lower_hex(&public_hex));
    assert!(lower_hex(&secret_hex));
}

#[test]
fn encapsulate_yields_a_hex_pair_of_the_fixed_lengths() {
    let (public_hex, _) = split_pair(&kyber_generate_keypair());
    let joined = kyber_encapsulate(&public_hex).expect("well-formed key");
    let (shared_hex, ciphertext_hex) = split_pair(&joined);
    assert_eq!(shared_hex.len(), 2 * 32);
    assert_eq!(ciphertext_hex.len(), 2 * 1568);
}

#[test]
fn decapsulate_recovers_the_shared_secret() {
    let (public_hex, secret_hex) = split_pair(&kyber_generate_keypair());
    let joined = kyber_encapsulate(&public_hex).expect("well-formed key");
    let (shared_hex, ciphertext_hex) = split_pair(&joined);
    let recovered = kyber_decapsulate(&secret_hex, &ciphertext_hex).expect("well-formed inputs");
    assert_eq!(recovered.len(), 2 * 32);
    assert_eq!(recovered, shared_hex);
}

#[test]
fn decapsulation_is_deterministic() {
    let (public_hex, secret_hex) = split_pair(&kyber_generate_keypair());
    let joined = kyber_encapsulate(&public_hex).expect("well-formed key");
    let (_, ciphertext_hex) = split_pair(&joined);
    let a = kyber_decapsulate(&secret_hex, &ciphertext_hex).expect("well-formed inputs");
    let b = kyber_decapsulate(&secret_hex, &ciphertext_hex).expect("well-formed inputs");
    assert_eq!(a, b);
}

#[test]
fn encapsulate_rejects_malformed_keys() {
    assert_eq!(kyber_encapsulate("not-hex!"), Err(PqcError::InvalidHex));
    assert_eq!(kyber_encapsulate("abc"), Err(PqcError::InvalidHex));
    assert_eq!(kyber_encapsulate("abcd"), Err(PqcError::WrongLength));
    assert_eq!(kyber_encapsulate(""), Err(PqcError::WrongLength));
}

#[test]
fn decapsulate_rejects_malformed_inputs() {
    let (public_hex, secret_hex) = split_pair(&kyber_generate_keypair());
    let joined = kyber_encapsulate(&public_hex).expect("well-formed key");
    let (_, ciphertext_hex) = split_pair(&joined);
    assert_eq!(kyber_decapsulate("0g", &ciphertext_hex), Err(PqcError::InvalidHex));
    assert_eq!(kyber_decapsulate(&secret_hex, "qrs"), Err(PqcError::InvalidHex));
    assert_eq!(kyber_decapsulate("abcd", &ciphertext_hex), Err(PqcError::WrongLength));
    assert_eq!(kyber_decapsulate(&secret_hex, "abcd"), Err(PqcError::WrongLength));
}
