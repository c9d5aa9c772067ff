//! Choosing and applying the vault's password-hash function.

use vstd::prelude::*;

use crate::stronghold::utils::{argon2_key_of, blake2_key_of, KeyDerivation, HASH_LENGTH};

verus! {

/// Which derivation turns the vault password into an encryption key. The
/// salt is read from, or first written to, the recorded path.
#[derive(Debug)]
pub enum PasswordHashFunctionKind {
    /// The memory-hard derivation.
    Argon2(std::path::PathBuf),
    /// The hash-based derivation.
    Blake2(std::path::PathBuf),
}

/// The vault's password-hash function, as the builder selected it.
#[derive(Debug)]
pub struct PasswordHashFunction {
    /// The selected derivation and its salt location.
    pub kind: PasswordHashFunctionKind,
}

impl PasswordHashFunction {
    /// Applies the selected derivation to a password and the salt read
    /// from the recorded location. Returns nothing only when the
    /// derivation rejects its parameters.
    pub fn apply(&self, password: &str, salt: &[u8]) -> (r: Option<Vec<u8>>)
        ensures
            self.kind is Blake2 ==> (r matches Some(key) && key@ == blake2_key_of(
                salt@,
                password@,
            ) && key@.len() == HASH_LENGTH),
            (self.kind is Argon2 && r is Some) ==> (r->Some_0@ == argon2_key_of(salt@, password@)
                && r->Some_0@.len() == HASH_LENGTH),
    {
        match &self.kind {
            PasswordHashFunctionKind::Blake2(_) => Some(KeyDerivation::blake2(password, salt)),
            PasswordHashFunctionKind::Argon2(_) => KeyDerivation::argon2(password, salt),
        }
    }
}

/// Builds the vault's configuration before the host shell initializes it.
#[derive(Debug)]
pub struct Builder {
    /// The selected password-hash function.
    pub password_hash_function: PasswordHashFunctionKind,
}

impl Builder {
    /// Selects the hash-based derivation, with the salt kept at the given
    /// path.
    pub fn with_blake2(salt_path: std::path::PathBuf) -> (r: Builder)
        ensures
            r.password_hash_function matches PasswordHashFunctionKind::Blake2(p) && p
                == salt_path,
    {
        Builder { password_hash_function: PasswordHashFunctionKind::Blake2(salt_path) }
    }
}

} // verus!
