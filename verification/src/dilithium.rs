//! Dilithium5 digital signatures behind the hex string boundary.
//!
//! The lattice arithmetic is performed by `pqcrypto_dilithium`; this module
//! validates and decodes every input itself, and states over uninterpreted
//! names what the scheme's deterministic operations return.

use vstd::prelude::*;
use vstd::utf8::encode_utf8;
use crate::errors::PqcError;
use crate::hex_codec::bytes_of_hex;
use crate::hex_codec::decode_hex;
use crate::hex_codec::encode_hex;
use crate::hex_codec::hex_of;
use crate::hex_codec::hex_pair;
use crate::hex_codec::is_hex_seq;
use crate::hex_codec::join_hex_pair;
use pqcrypto_dilithium::dilithium5;
use pqcrypto_traits::sign::DetachedSignature;
use pqcrypto_traits::sign::PublicKey;
use pqcrypto_traits::sign::SecretKey;

verus! {

/// Byte length of a dilithium5 public key.
pub const DILITHIUM_PUBLIC_KEY_BYTES: usize = 2592;

/// Byte length of a dilithium5 secret key.
pub const DILITHIUM_SECRET_KEY_BYTES: usize = 4896;

/// Byte length of a dilithium5 detached signature.
pub const DILITHIUM_SIGNATURE_BYTES: usize = 4627;

/// The dilithium5 signature on `message` under `secret_key`.  Signing is
/// deterministic, so the signature is a function of the two inputs alone.
pub uninterp spec fn dilithium_signature_of(secret_key: Seq<u8>, message: Seq<u8>) -> Seq<u8>;

/// Whether dilithium5 verification accepts `signature` on `message` under
/// `public_key`.  Verification is deterministic.
pub uninterp spec fn dilithium_accepts(
    public_key: Seq<u8>,
    message: Seq<u8>,
    signature: Seq<u8>,
) -> bool;

/// Relies on `pqcrypto_dilithium::dilithium5::keypair` and the `as_bytes`
/// accessors of `pqcrypto_traits::sign`: the byte encodings of a fresh
/// keypair have the fixed PQClean dilithium5 lengths, and the halves match —
/// dilithium5 verification accepts every signature made under the returned
/// secret key against the returned public key (the scheme has perfect
/// correctness).
#[verifier::external_body]
fn keypair_bytes() -> (r: (Vec<u8>, Vec<u8>))
    ensures
        r.0@.len() == DILITHIUM_PUBLIC_KEY_BYTES,
        r.1@.len() == DILITHIUM_SECRET_KEY_BYTES,
        forall|m: Seq<u8>| #[trigger] dilithium_accepts(r.0@, m, dilithium_signature_of(r.1@, m)),
{
    let (pk, sk) = dilithium5::keypair();
    (pk.as_bytes().to_vec(), sk.as_bytes().to_vec())
}

/// Relies on `pqcrypto_dilithium::dilithium5::detached_sign` (with
/// `SecretKey::from_bytes` and `as_bytes` converting at either end): signing
/// is deterministic and always emits a signature of the fixed length.
#[verifier::external_body]
fn sign_bytes(secret_key: &[u8], message: &[u8]) -> (r: Vec<u8>)
    requires
        secret_key@.len() == DILITHIUM_SECRET_KEY_BYTES,
    ensures
        r@ == dilithium_signature_of(secret_key@, message@),
        r@.len() == DILITHIUM_SIGNATURE_BYTES,
{
    let key = dilithium5::SecretKey::from_bytes(secret_key).unwrap();
    let sig = dilithium5::detached_sign(message, &key);
    sig.as_bytes().to_vec()
}

/// Relies on `pqcrypto_dilithium::dilithium5::verify_detached_signature`
/// (with `from_bytes` converting the inputs): verification is deterministic
/// in the public key, message and signature.
#[verifier::external_body]
fn verify_bytes(public_key: &[u8], message: &[u8], signature: &[u8]) -> (r: bool)
    requires
        public_key@.len() == DILITHIUM_PUBLIC_KEY_BYTES,
        signature@.len() == DILITHIUM_SIGNATURE_BYTES,
    ensures
        r == dilithium_accepts(public_key@, message@, signature@),
{
    let key = dilithium5::PublicKey::from_bytes(public_key).unwrap();
    let sig = dilithium5::DetachedSignature::from_bytes(signature).unwrap();
    dilithium5::verify_detached_signature(&sig, message, &key).is_ok()
}

/// Generates a fresh dilithium5 keypair and returns it as
/// `"public_hex:secret_hex"`.  The two halves match: verification under the
/// public half accepts every signature made under the secret half.
pub fn dilithium_generate_keypair() -> (r: String)
    ensures
        exists|pk: Seq<u8>, sk: Seq<u8>|
            pk.len() == DILITHIUM_PUBLIC_KEY_BYTES && sk.len() == DILITHIUM_SECRET_KEY_BYTES && r@
                == #[trigger] hex_pair(pk, sk) && (forall|m: Seq<u8>| #[trigger] dilithium_accepts(
                pk,
                m,
                dilithium_signature_of(sk, m),
            )),
{
    let (pk, sk) = keypair_bytes();
    let out = join_hex_pair(pk.as_slice(), sk.as_slice());
    proof {
        assert(pk@.len() == DILITHIUM_PUBLIC_KEY_BYTES && sk@.len() == DILITHIUM_SECRET_KEY_BYTES
            && out@ == hex_pair(pk@, sk@) && (forall|m: Seq<u8>| #[trigger] dilithium_accepts(
            pk@,
            m,
            dilithium_signature_of(sk@, m),
        )));
    }
    out
}

/// Signs the UTF-8 bytes of `message` under the hex-encoded dilithium5
/// secret key, returning the signature as a hex string.
///
/// Malformed hex is rejected as `InvalidHex`; hex of the wrong key length as
/// `WrongLength`.
pub fn dilithium_sign(secret_key_hex: &str, message: &str) -> (r: Result<String, PqcError>)
    ensures
        r is Ok <==> is_hex_seq(secret_key_hex@) && bytes_of_hex(secret_key_hex@).len()
            == DILITHIUM_SECRET_KEY_BYTES,
        r is Ok ==> r->Ok_0@ == hex_of(
            dilithium_signature_of(bytes_of_hex(secret_key_hex@), encode_utf8(message@)),
        ),
        r is Ok ==> r->Ok_0@.len() == 2 * DILITHIUM_SIGNATURE_BYTES,
        !is_hex_seq(secret_key_hex@) ==> r == Err::<String, PqcError>(PqcError::InvalidHex),
        is_hex_seq(secret_key_hex@) && bytes_of_hex(secret_key_hex@).len()
            != DILITHIUM_SECRET_KEY_BYTES ==> r == Err::<String, PqcError>(PqcError::WrongLength),
{
    let sk = match decode_hex(secret_key_hex) {
        Ok(v) => v,
        Err(e) => {
            return Err(e);
        },
    };
    if sk.len() != DILITHIUM_SECRET_KEY_BYTES {
        return Err(PqcError::WrongLength);
    }
    let sig = sign_bytes(sk.as_slice(), message.as_bytes());
    Ok(encode_hex(sig.as_slice()))
}

/// Verifies a hex-encoded dilithium5 signature on the UTF-8 bytes of
/// `message` under the hex-encoded public key.
///
/// `Ok(false)` is a genuine signature mismatch; malformed inputs are
/// rejected as errors and never reported as a mismatch.
pub fn dilithium_verify(public_key_hex: &str, message: &str, signature_hex: &str) -> (r: Result<
    bool,
    PqcError,
>)
    ensures
        r is Ok <==> is_hex_seq(public_key_hex@) && is_hex_seq(signature_hex@) && bytes_of_hex(
            public_key_hex@,
        ).len() == DILITHIUM_PUBLIC_KEY_BYTES && bytes_of_hex(signature_hex@).len()
            == DILITHIUM_SIGNATURE_BYTES,
        r is Ok ==> r->Ok_0 == dilithium_accepts(
            bytes_of_hex(public_key_hex@),
            encode_utf8(message@),
            bytes_of_hex(signature_hex@),
        ),
        !is_hex_seq(public_key_hex@) || !is_hex_seq(signature_hex@) ==> r == Err::<
            bool,
            PqcError,
        >(PqcError::InvalidHex),
        is_hex_seq(public_key_hex@) && is_hex_seq(signature_hex@) && (bytes_of_hex(
            public_key_hex@,
        ).len() != DILITHIUM_PUBLIC_KEY_BYTES || bytes_of_hex(signature_hex@).len()
            != DILITHIUM_SIGNATURE_BYTES) ==> r == Err::<bool, PqcError>(PqcError::WrongLength),
{
    let pk = match decode_hex(public_key_hex) {
        Ok(v) => v,
        Err(e) => {
            return Err(e);
        },
    };
    let sig = match decode_hex(signature_hex) {
        Ok(v) => v,
        Err(e) => {
            return Err(e);
        },
    };
    if pk.len() != DILITHIUM_PUBLIC_KEY_BYTES {
        return Err(PqcError::WrongLength);
    }
    if sig.len() != DILITHIUM_SIGNATURE_BYTES {
        return Err(PqcError::WrongLength);
    }
    Ok(verify_bytes(pk.as_slice(), message.as_bytes(), sig.as_slice()))
}

} // verus!
