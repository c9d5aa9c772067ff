//! Key material and key derivation for the credential vault.

use blake2::Digest;

use vstd::prelude::*;
use vstd::string::StringSliceAdditionalSpecFns;
use vstd::utf8::encode_utf8;

verus! {

/// Key material handed to the vault: either text or raw bytes.
#[derive(Clone, Debug, PartialEq, Eq, Hash)]
pub enum BytesDto {
    /// Textual key material.
    Text(String),
    /// Raw key material.
    Raw(Vec<u8>),
}

impl BytesDto {
    /// The key material as bytes: text is taken by its encoding.
    pub fn into_bytes(self) -> (r: Vec<u8>)
        ensures
            self matches BytesDto::Raw(b) ==> r == b,
            self matches BytesDto::Text(t) ==> r@ == encode_utf8(t@),
    {
        match self {
            BytesDto::Text(t) => t.as_str().as_bytes_vec(),
            BytesDto::Raw(b) => b,
        }
    }
}

/// The number of bytes in a derived key and in a salt.
pub const HASH_LENGTH: usize = 32;

/// The key that the memory-hard derivation produces from this salt and
/// password: a function of the two alone.
pub uninterp spec fn argon2_key_of(salt: Seq<u8>, password: Seq<char>) -> Seq<u8>;

/// The key that the hash-based derivation produces from this salt and
/// password: a function of the two alone.
pub uninterp spec fn blake2_key_of(salt: Seq<u8>, password: Seq<char>) -> Seq<u8>;

/// Derives encryption keys for the vault from a password and a salt.
pub struct KeyDerivation {}

impl KeyDerivation {
    /// Creates a key from the password and the given salt, using the
    /// memory-hard derivation. Returns nothing when the parameters are
    /// rejected (for example, a salt that is too short).
    ///
    /// Relies on argon2's Argon2::hash_password_into with the default
    /// algorithm parameters: the output is a function of the password and
    /// salt alone, and errors are reported, never thrown.
    #[verifier::external_body]
    pub fn argon2(password: &str, salt: &[u8]) -> (r: Option<Vec<u8>>)
        ensures
            r matches Some(key) ==> key@ == argon2_key_of(salt@, password@) && key@.len()
                == HASH_LENGTH,
    {
        let mut out = [0u8; 32];
        match argon2::Argon2::default().hash_password_into(password.as_bytes(), salt, &mut out) {
            Ok(()) => Some(out.to_vec()),
            Err(_) => None,
        }
    }

    /// Creates a key from the password and the given salt: the salt and
    /// the password are hashed together and the key is the first half of
    /// the digest.
    ///
    /// Relies on blake2's Blake2b512 digest: the output is a function of
    /// the bytes fed in alone.
    #[verifier::external_body]
    pub fn blake2(password: &str, salt: &[u8]) -> (r: Vec<u8>)
        ensures
            r@ == blake2_key_of(salt@, password@),
            r@.len() == HASH_LENGTH,
    {
        let mut hasher = blake2::Blake2b512::new();
        hasher.update(salt);
        hasher.update(password);
        hasher.finalize().to_vec()[..32].to_vec()
    }
}

} // verus!
