//! The file-backed backend: one file per key, directly under a base
//! directory.
//!
//! Everything the backend decides is here and verified: how the base
//! directory is resolved from configuration, how a key's file path is
//! composed (strictly directory-child composition, `base/key`), what the
//! absent-key policy is (absence is a `NotFound` error, never an empty
//! value), and how each failure is classified. The filesystem calls
//! themselves (creating the directory tree, reading and writing the files)
//! are platform I/O and stand outside the library; the host performs them on
//! the paths computed here and hands failures back as [`FileStorageError`]
//! values.

use vstd::prelude::*;
use vstd::string::StringExecFns;

use crate::kv_storage::medium;
use crate::kv_storage::ErrorClass;

verus! {

/// A read or write failure of the file medium, as the host observed it.
#[derive(Clone, Copy, Debug, PartialEq, Eq, Structural)]
pub enum FileStorageError {
    /// The key's file does not exist: the absent-key outcome of this backend.
    NotFound,
    /// The directory or file could not be accessed.
    PermissionDenied,
    /// The file was read but its contents are not valid UTF-8.
    InvalidData,
    /// Any other failure of the medium.
    Unknown,
}

impl FileStorageError {
    /// Where each failure falls in the taxonomy.
    pub open spec fn class_spec(self) -> ErrorClass {
        match self {
            FileStorageError::NotFound => ErrorClass::NotFound,
            FileStorageError::PermissionDenied => ErrorClass::MediumInaccessible,
            FileStorageError::InvalidData => ErrorClass::ValueMalformed,
            FileStorageError::Unknown => ErrorClass::MediumInaccessible,
        }
    }

    pub fn classification(&self) -> (c: ErrorClass)
        ensures
            c == self.class_spec(),
    {
        match self {
            FileStorageError::NotFound => ErrorClass::NotFound,
            FileStorageError::PermissionDenied => ErrorClass::MediumInaccessible,
            FileStorageError::InvalidData => ErrorClass::ValueMalformed,
            FileStorageError::Unknown => ErrorClass::MediumInaccessible,
        }
    }
}

/// A backend persisting each key as the file `base/key`, where `base` is the
/// resolved base directory held in the single field.
pub struct FileBasedKvStorage(pub String);

impl FileBasedKvStorage {
    /// A backend rooted at `base_dir`, which is treated strictly as a
    /// directory: every record lives at `base_dir/key`.
    pub fn new(base_dir: String) -> (s: Self)
        ensures
            s.0@ == base_dir@,
    {
        FileBasedKvStorage(base_dir)
    }

    /// The desktop base directory: the application's own folder under the
    /// user's roaming application-data location. The host resolves
    /// `roaming_dir` from its environment and names the application
    /// explicitly; failure to resolve it is a construction-time error of the
    /// host, not of this backend.
    pub fn get_roaming_path(roaming_dir: &str, app_name: &str) -> (p: String)
        ensures
            p@ == roaming_dir@ + "/"@ + app_name@,
    {
        let mut p = String::from_str(roaming_dir);
        p.append("/");
        p.append(app_name);
        proof {
            assert(p@ =~= roaming_dir@ + "/"@ + app_name@);
        }
        p
    }

    /// The mobile base directory: a fixed path relative to the application's
    /// working directory.
    pub fn mobile_store_path() -> (p: String)
        ensures
            p@ == "./store"@,
    {
        String::from_str("./store")
    }

    /// The file holding `key`'s record: directory-child composition
    /// `base/key`, never sibling composition.
    pub fn key_path(&self, key: &str) -> (p: String)
        ensures
            p@ == self.0@ + "/"@ + key@,
    {
        let mut p = String::from_str(self.0.as_str());
        p.append("/");
        p.append(key);
        proof {
            assert(p@ =~= self.0@ + "/"@ + key@);
        }
        p
    }
}

/// This backend's read policy over what the medium yielded for the key:
/// a present value is returned as is; an absent key is a `NotFound` failure.
pub open spec fn file_read_policy(found: Option<Seq<char>>) -> Result<Seq<char>, FileStorageError> {
    match found {
        Some(value) => Ok(value),
        None => Err(FileStorageError::NotFound),
    }
}

/// Write-then-read consistency for the file backend: once `value` is stored
/// under `key`, reading `key` yields exactly `value`.
pub proof fn lemma_file_write_then_read(
    directory: Map<Seq<char>, Seq<char>>,
    key: Seq<char>,
    value: Seq<char>,
)
    ensures
        file_read_policy(medium::lookup(medium::store(directory, key, value), key)) == Ok::<
            Seq<char>,
            FileStorageError,
        >(value),
{
}

/// Overwrite semantics for the file backend: after two writes under the same
/// key, a read yields the second value alone.
pub proof fn lemma_file_overwrite(
    directory: Map<Seq<char>, Seq<char>>,
    key: Seq<char>,
    first: Seq<char>,
    second: Seq<char>,
)
    ensures
        file_read_policy(
            medium::lookup(medium::store(medium::store(directory, key, first), key, second), key),
        ) == Ok::<Seq<char>, FileStorageError>(second),
{
}

/// Absent-key policy of the file backend: a key the medium does not hold
/// reads as `NotFound`, classified as such — on every call, never an empty
/// value.
pub proof fn lemma_file_absent_key(directory: Map<Seq<char>, Seq<char>>, key: Seq<char>)
    requires
        medium::lookup(directory, key) is None,
    ensures
        file_read_policy(medium::lookup(directory, key)) == Err::<Seq<char>, FileStorageError>(
            FileStorageError::NotFound,
        ),
        FileStorageError::NotFound.class_spec() == ErrorClass::NotFound,
{
}

} // verus!
