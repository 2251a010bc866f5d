use pqc_shim::dilithium_generate_keypair;
use pqc_shim::dilithium_sign;
use pqc_shim::dilithium_verify;
use pqc_shim::PqcError;

fn split_keypair(joined: &str) -> (String, String) {
    let mut parts = joined.splitn(2, ':');
    let public_hex = parts.next().expect("public part").to_owned();
    let secret_hex = parts.next().expect("secret part").to_owned();
    (public_hex, secret_hex)
}

#[test]
fn keypair_is_a_hex_pair_of_the_fixed_lengths() {
    let joined = dilithium_generate_keypair();
    let (public_hex, secret_hex) = split_keypair(&joined);
    assert_eq!(public_hex.len(), 2 * 2592);
    assert_eq!(secret_hex.len(), 2 * 4896);
    let lower_hex = |s: &str| s.chars().all(|c| matches!(c, '0'..='9' | 'a'..='f'));
    assert!(lower_hex(&public_hex));
    assert!(lower_hex(&secret_hex));
}

#[test]
fn sign_then_verify_accepts() {
    let (public_hex, secret_hex) = split_keypair(&dilithium_generate_keypair());
    let message = "attack at dawn";
    let signature_hex = dilithium_sign(&secret_hex, message).expect("well-formed key");
    assert_eq!(signature_hex.len(), 2 * 4627);
    assert_eq!(dilithium_verify(&public_hex, message, &signature_hex), Ok(true));
}

#[test]
fn signing_is_deterministic() {
    let (_, secret_hex) = split_keypair(&dilithium_generate_keypair());
    let a = dilithium_sign(&secret_hex, "same message").expect("well-formed key");
    let b = dilithium_sign(&secret_hex, "same message").expect("well-formed key");
    assert_eq!(a, b);
}

#[test]
fn tampered_message_is_rejected() {
    let (public_hex, secret_hex) = split_keypair(&dilithium_generate_keypair());
    let signature_hex = dilithium_sign(&secret_hex, "attack at dawn").expect("well-formed key");
    assert_eq!(dilithium_verify(&public_hex, "attack at dusk", &signature_hex), Ok(false));
}

#[test]
fn tampered_signature_is_rejected() {
    let (public_hex, secret_hex) = split_keypair(&dilithium_generate_keypair());
    let message = "attack at dawn";
    let signature_hex = dilithium_sign(&secret_hex, message).expect("well-formed key");
    // Replace one hex digit by a different one: still well-formed hex of the
    // right length, so verification itself must say no.
    let mut tampered: Vec<char> = signature_hex.chars().collect();
    tampered[17] = if tampered[17] == '0' { '1' } else { '0' };
    let tampered: String = tampered.into_iter().collect();
    assert_eq!(dilithium_verify(&public_hex, message, &tampered), Ok(false));
}

#[test]
fn wrong_public_key_is_rejected() {
    let (_, secret_hex) = split_keypair(&dilithium_generate_keypair());
    let (other_public_hex, _) = split_keypair(&dilithium_generate_keypair());
    let message = "attack at dawn";
    let signature_hex = dilithium_sign(&secret_hex, message).expect("well-formed key");
    assert_eq!(dilithium_verify(&other_public_hex, message, &signature_hex), Ok(false));
}

#[test]
fn sign_rejects_malformed_keys() {
    assert_eq!(dilithium_sign("not-hex!", "msg"), Err(PqcError::InvalidHex));
    assert_eq!(dilithium_sign("abc", "msg"), Err(PqcError::InvalidHex));
    assert_eq!(dilithium_sign("abcd", "msg"), Err(PqcError::WrongLength));
    assert_eq!(dilithium_sign("", "msg"), Err(PqcError::WrongLength));
}

#[test]
fn verify_rejects_malformed_inputs() {
    let (public_hex, secret_hex) = split_keypair(&dilithium_generate_keypair());
    let signature_hex = dilithium_sign(&secret_hex, "msg").expect("well-formed key");
    assert_eq!(dilithium_verify("xyz!", "msg", &signature_hex), Err(PqcError::InvalidHex));
    assert_eq!(dilithium_verify(&public_hex, "msg", "0g"), Err(PqcError::InvalidHex));
    assert_eq!(dilithium_verify("abcd", "msg", &signature_hex), Err(PqcError::WrongLength));
    assert_eq!(dilithium_verify(&public_hex, "msg", "abcd"), Err(PqcError::WrongLength));
}
