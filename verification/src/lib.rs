//! Post-quantum signature and key-encapsulation primitives behind a
//! string-based calling boundary.
//!
//! Binary values (keys, signatures, ciphertexts, shared secrets) cross the
//! boundary as lower-case hex strings; composite results are colon-delimited
//! hex pairs.  The hex codec and all input validation are verified here; the
//! lattice cryptography itself is performed by the `pqcrypto` family of
//! crates behind narrow trusted wrappers.

pub mod dilithium;
pub mod errors;
pub mod hex_codec;
pub mod kyber;

pub use dilithium::dilithium_generate_keypair;
pub use dilithium::dilithium_sign;
pub use dilithium::dilithium_verify;
pub use errors::PqcError;
pub use hex_codec::decode_hex;
pub use hex_codec::encode_hex;
pub use kyber::kyber_decapsulate;
pub use kyber::kyber_encapsulate;
pub use kyber::kyber_generate_keypair;
