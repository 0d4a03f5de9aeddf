//! Errors reported when key material is built from raw bytes.

use vstd::prelude::*;

verus! {

/// Why a byte string was refused as key material.
#[derive(Debug, Clone, Copy, PartialEq, Eq)]
pub enum KeyError {
    /// A byte string offered as a fixed-size value has another length.
    /// Nothing is ever cut off or padded to make it fit.
    WrongLength { expected: usize, found: usize },
    /// A digest is shorter than the key that was to be taken from it.
    DigestTooShort { needed: usize, found: usize },
}

} // verus!
