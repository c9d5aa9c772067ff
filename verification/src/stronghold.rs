//! The credential vault: key derivation and the vault's snapshot location.
//!
//! The vault itself (an encrypted store of an outside crate) is driven by
//! the host shell; this module owns the key-derivation rules and the plain
//! data types around them.

use vstd::prelude::*;

pub mod builder;
pub mod utils;

verus! {

/// Where the vault's snapshot lives on disk.
pub struct SnapshotPath(pub std::path::PathBuf);

} // verus!
