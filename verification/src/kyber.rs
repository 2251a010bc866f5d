//! Kyber1024 key encapsulation behind the hex string boundary.
//!
//! The lattice arithmetic is performed by `pqcrypto_kyber`; this module
//! validates and decodes every input itself.  Encapsulation is randomized,
//! so only the shape of its output is stated; decapsulation is deterministic
//! and its result carries an uninterpreted name.

use vstd::prelude::*;
use crate::errors::PqcError;
use crate::hex_codec::bytes_of_hex;
use crate::hex_codec::decode_hex;
use crate::hex_codec::encode_hex;
use crate::hex_codec::hex_of;
use crate::hex_codec::hex_pair;
use crate::hex_codec::is_hex_seq;
use crate::hex_codec::join_hex_pair;
use pqcrypto_kyber::kyber1024;
use pqcrypto_traits::kem::Ciphertext;
use pqcrypto_traits::kem::PublicKey;
use pqcrypto_traits::kem::SecretKey;
use pqcrypto_traits::kem::SharedSecret;

verus! {

/// Byte length of a kyber1024 public key.
pub const KYBER_PUBLIC_KEY_BYTES: usize = 1568;

/// Byte length of a kyber1024 secret key.
pub const KYBER_SECRET_KEY_BYTES: usize = 3168;

/// Byte length of a kyber1024 ciphertext.
pub const KYBER_CIPHERTEXT_BYTES: usize = 1568;

/// Byte length of a kyber1024 shared secret.
pub const KYBER_SHARED_SECRET_BYTES: usize = 32;

/// The shared secret that kyber1024 decapsulation recovers from
/// `ciphertext` under `secret_key`.  Decapsulation is deterministic, so the
/// secret is a function of the two inputs alone.
pub uninterp spec fn kyber_shared_secret_of(secret_key: Seq<u8>, ciphertext: Seq<u8>) -> Seq<u8>;

/// `public_key` and `secret_key` form a matching kyber1024 keypair: both
/// came out of one keypair generation, so decapsulation under the secret
/// half recovers whatever was encapsulated to the public half.
pub uninterp spec fn kyber_matches(public_key: Seq<u8>, secret_key: Seq<u8>) -> bool;

/// Relies on `pqcrypto_kyber::kyber1024::keypair` and the `as_bytes`
/// accessors of `pqcrypto_traits::kem`: the byte encodings of a fresh
/// keypair have the fixed PQClean kyber1024 lengths, and the halves form a
/// matching keypair.
#[verifier::external_body]
fn keypair_bytes() -> (r: (Vec<u8>, Vec<u8>))
    ensures
        r.0@.len() == KYBER_PUBLIC_KEY_BYTES,
        r.1@.len() == KYBER_SECRET_KEY_BYTES,
        kyber_matches(r.0@, r.1@),
{
    let (pk, sk) = kyber1024::keypair();
    (pk.as_bytes().to_vec(), sk.as_bytes().to_vec())
}

/// Relies on `pqcrypto_kyber::kyber1024::encapsulate` (with
/// `PublicKey::from_bytes` and `as_bytes` converting at either end): the
/// shared secret and ciphertext have the fixed PQClean kyber1024 lengths,
/// and whatever randomness encapsulation drew, decapsulating the ciphertext
/// under a secret key matching `public_key` recovers the shared secret
/// (kyber1024's decapsulation-failure probability is negligible, about
/// 2^-174, and the scheme's correctness statement is absolute).
#[verifier::external_body]
fn encapsulate_bytes(public_key: &[u8]) -> (r: (Vec<u8>, Vec<u8>))
    requires
        public_key@.len() == KYBER_PUBLIC_KEY_BYTES,
    ensures
        r.0@.len() == KYBER_SHARED_SECRET_BYTES,
        r.1@.len() == KYBER_CIPHERTEXT_BYTES,
        forall|sk: Seq<u8>| #[trigger] kyber_matches(public_key@, sk) ==> kyber_shared_secret_of(
            sk,
            r.1@,
        ) == r.0@,
{
    let key = kyber1024::PublicKey::from_bytes(public_key).unwrap();
    let (ss, ct) = kyber1024::encapsulate(&key);
    (ss.as_bytes().to_vec(), ct.as_bytes().to_vec())
}

/// Relies on `pqcrypto_kyber::kyber1024::decapsulate` (with `from_bytes`
/// converting the inputs and `as_bytes` the result): decapsulation is
/// deterministic and recovers a shared secret of the fixed length.
#[verifier::external_body]
fn decapsulate_bytes(secret_key: &[u8], ciphertext: &[u8]) -> (r: Vec<u8>)
    requires
        secret_key@.len() == KYBER_SECRET_KEY_BYTES,
        ciphertext@.len() == KYBER_CIPHERTEXT_BYTES,
    ensures
        r@ == kyber_shared_secret_of(secret_key@, ciphertext@),
        r@.len() == KYBER_SHARED_SECRET_BYTES,
{
    let key = kyber1024::SecretKey::from_bytes(secret_key).unwrap();
    let ct = kyber1024::Ciphertext::from_bytes(ciphertext).unwrap();
    let ss = kyber1024::decapsulate(&ct, &key);
    ss.as_bytes().to_vec()
}

/// Generates a fresh kyber1024 keypair and returns it as
/// `"public_hex:secret_hex"`.  The two halves form a matching keypair.
pub fn kyber_generate_keypair() -> (r: String)
    ensures
        exists|pk: Seq<u8>, sk: Seq<u8>|
            pk.len() == KYBER_PUBLIC_KEY_BYTES && sk.len() == KYBER_SECRET_KEY_BYTES && r@
                == #[trigger] hex_pair(pk, sk) && kyber_matches(pk, sk),
{
    let (pk, sk) = keypair_bytes();
    let out = join_hex_pair(pk.as_slice(), sk.as_slice());
    proof {
        assert(pk@.len() == KYBER_PUBLIC_KEY_BYTES && sk@.len() == KYBER_SECRET_KEY_BYTES && out@
            == hex_pair(pk@, sk@) && kyber_matches(pk@, sk@));
    }
    out
}

/// Encapsulates a fresh shared secret to the hex-encoded kyber1024 public
/// key, returning `"shared_hex:ciphertext_hex"`.
///
/// Malformed hex is rejected as `InvalidHex`; hex of the wrong key length as
/// `WrongLength`.
pub fn kyber_encapsulate(public_key_hex: &str) -> (r: Result<String, PqcError>)
    ensures
        r is Ok <==> is_hex_seq(public_key_hex@) && bytes_of_hex(public_key_hex@).len()
            == KYBER_PUBLIC_KEY_BYTES,
        r is Ok ==> exists|ss: Seq<u8>, ct: Seq<u8>|
            ss.len() == KYBER_SHARED_SECRET_BYTES && ct.len() == KYBER_CIPHERTEXT_BYTES
                && r->Ok_0@ == #[trigger] hex_pair(ss, ct) && (forall|sk: Seq<u8>|
                #[trigger] kyber_matches(bytes_of_hex(public_key_hex@), sk)
                    ==> kyber_shared_secret_of(sk, ct) == ss),
        !is_hex_seq(public_key_hex@) ==> r == Err::<String, PqcError>(PqcError::InvalidHex),
        is_hex_seq(public_key_hex@) && bytes_of_hex(public_key_hex@).len()
            != KYBER_PUBLIC_KEY_BYTES ==> r == Err::<String, PqcError>(PqcError::WrongLength),
{
    let pk = match decode_hex(public_key_hex) {
        Ok(v) => v,
        Err(e) => {
            return Err(e);
        },
    };
    if pk.len() != KYBER_PUBLIC_KEY_BYTES {
        return Err(PqcError::WrongLength);
    }
    let (ss, ct) = encapsulate_bytes(pk.as_slice());
    let out = join_hex_pair(ss.as_slice(), ct.as_slice());
    proof {
        assert(ss@.len() == KYBER_SHARED_SECRET_BYTES && ct@.len() == KYBER_CIPHERTEXT_BYTES
            && out@ == hex_pair(ss@, ct@) && (forall|sk: Seq<u8>| #[trigger] kyber_matches(
            bytes_of_hex(public_key_hex@),
            sk,
        ) ==> kyber_shared_secret_of(sk, ct@) == ss@));
    }
    Ok(out)
}

/// Recovers the shared secret from a hex-encoded kyber1024 ciphertext under
/// the hex-encoded secret key, returning it as a hex string.
///
/// Malformed hex is rejected as `InvalidHex`; a key or ciphertext of the
/// wrong length as `WrongLength`.
pub fn kyber_decapsulate(secret_key_hex: &str, ciphertext_hex: &str) -> (r: Result<
    String,
    PqcError,
>)
    ensures
        r is Ok <==> is_hex_seq(secret_key_hex@) && is_hex_seq(ciphertext_hex@) && bytes_of_hex(
            secret_key_hex@,
        ).len() == KYBER_SECRET_KEY_BYTES && bytes_of_hex(ciphertext_hex@).len()
            == KYBER_CIPHERTEXT_BYTES,
        r is Ok ==> r->Ok_0@ == hex_of(
            kyber_shared_secret_of(bytes_of_hex(secret_key_hex@), bytes_of_hex(ciphertext_hex@)),
        ),
        r is Ok ==> r->Ok_0@.len() == 2 * KYBER_SHARED_SECRET_BYTES,
        !is_hex_seq(secret_key_hex@) || !is_hex_seq(ciphertext_hex@) ==> r == Err::<
            String,
            PqcError,
        >(PqcError::InvalidHex),
        is_hex_seq(secret_key_hex@) && is_hex_seq(ciphertext_hex@) && (bytes_of_hex(
            secret_key_hex@,
        ).len() != KYBER_SECRET_KEY_BYTES || bytes_of_hex(ciphertext_hex@).len()
            != KYBER_CIPHERTEXT_BYTES) ==> r == Err::<String, PqcError>(PqcError::WrongLength),
{
    let sk = match decode_hex(secret_key_hex) {
        Ok(v) => v,
        Err(e) => {
            return Err(e);
        },
    };
    let ct = match decode_hex(ciphertext_hex) {
        Ok(v) => v,
        Err(e) => {
            return Err(e);
        },
    };
    if sk.len() != KYBER_SECRET_KEY_BYTES {
        return Err(PqcError::WrongLength);
    }
    if ct.len() != KYBER_CIPHERTEXT_BYTES {
        return Err(PqcError::WrongLength);
    }
    let ss = decapsulate_bytes(sk.as_slice(), ct.as_slice());
    Ok(encode_hex(ss.as_slice()))
}

} // verus!
