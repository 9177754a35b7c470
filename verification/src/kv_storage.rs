//! The storage contract: the capability every backend provides (single-key
//! read and write of UTF-8 string values) together with its error taxonomy.
//!
//! A backend owns a view onto exactly one persistence medium (a cookie jar, a
//! directory). Callers select one backend at build time and speak to it only
//! through [`KvStorage`]. The intended meaning of the two operations over an
//! idealised medium is spelled out in [`medium`], where the write-then-read,
//! overwrite and absent-key laws are proved.

use vstd::prelude::*;

pub mod file_based_kv_storage;
pub mod medium;
pub mod wasm_cookies_kv_storage;

verus! {

/// How a caller may classify any backend error, independent of the medium.
///
/// Every concrete error value of every backend maps to exactly one of these
/// classes through its `classification` method.
#[derive(Clone, Copy, Debug, PartialEq, Eq, Structural)]
pub enum ErrorClass {
    /// The medium itself could not be reached (I/O failure, permission denial).
    MediumInaccessible,
    /// The medium was reached but the stored value could not be decoded.
    ValueMalformed,
    /// The key has no stored value, on a backend that treats absence as an error.
    NotFound,
}

/// A generic write failure, for backends with no more precise variant to give.
#[derive(Clone, Copy, Debug, PartialEq, Eq, Structural)]
pub enum WriteError {
    Unknown,
}

impl WriteError {
    /// Where this error falls in the taxonomy: nothing is known beyond the
    /// medium having rejected the write.
    pub open spec fn class_spec(self) -> ErrorClass {
        ErrorClass::MediumInaccessible
    }

    pub fn classification(&self) -> (c: ErrorClass)
        ensures
            c == self.class_spec(),
    {
        ErrorClass::MediumInaccessible
    }
}

/// A generic read failure, for backends with no more precise variant to give.
#[derive(Clone, Copy, Debug, PartialEq, Eq, Structural)]
pub enum ReadError {
    Unknown,
}

impl ReadError {
    /// Where this error falls in the taxonomy: nothing is known beyond the
    /// medium having been unreachable.
    pub open spec fn class_spec(self) -> ErrorClass {
        ErrorClass::MediumInaccessible
    }

    pub fn classification(&self) -> (c: ErrorClass)
        ensures
            c == self.class_spec(),
    {
        ErrorClass::MediumInaccessible
    }
}

/// The storage contract.
///
/// A conforming backend satisfies, over its own medium:
/// - after a successful `write(key, value)`, a `read(key)` on the same
///   instance returns `value` until the key is written again or the medium is
///   mutated from outside;
/// - `write` replaces any prior value for the key, never merges or appends;
/// - on a key never written, `read` follows the backend's documented
///   absent-key policy, the same on every call;
/// - every error value is classifiable into [`ErrorClass`].
///
/// Both operations are synchronous and blocking; instances hold no
/// transactional state and require exclusive access per call.
pub trait KvStorage {
    type ReadErrorType;

    type WriteErrorType;

    /// Returns the value previously stored under `key`.
    fn read(&self, key: &str) -> Result<String, Self::ReadErrorType>;

    /// Persists `value` under `key`, replacing any existing value.
    fn write(&self, key: &str, value: &str) -> Result<(), Self::WriteErrorType>;
}

} // verus!
