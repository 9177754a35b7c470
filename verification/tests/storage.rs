use std::cell::RefCell;
use std::collections::HashMap;

use kv_storage::kv_storage::file_based_kv_storage::{FileBasedKvStorage, FileStorageError};
use kv_storage::kv_storage::wasm_cookies_kv_storage::{
    interpret_cookie_lookup, WasmCookieReadError, WasmCookiesKvStorage,
};
use kv_storage::kv_storage::{ErrorClass, KvStorage, ReadError, WriteError};

#[test]
fn add_sums() {
    assert_eq!(kv_storage::add(2, 2), 4);
    assert_eq!(kv_storage::add(0, 7), 7);
}

#[test]
fn cookie_write_then_read() {
    let ws = WasmCookiesKvStorage::default();
    let directive = ws.write("theme", "dark").unwrap();
    // The browser appends the directive to its jar; a jar holding just this
    // cookie is the directive itself.
    let value = ws.read(&directive, "theme").unwrap();
    assert_eq!(value, "dark");
}

#[test]
fn cookie_write_directive_is_exact() {
    let ws = WasmCookiesKvStorage;
    let directive = ws.write("theme", "dark").unwrap();
    assert_eq!(directive, "theme=dark;samesite=lax");
}

#[test]
fn cookie_write_url_encodes() {
    let ws = WasmCookiesKvStorage;
    let directive = ws.write("key 2", "value 2").unwrap();
    assert_eq!(directive, "key%202=value%202;samesite=lax");
    let value = ws.read(&directive, "key 2").unwrap();
    assert_eq!(value, "value 2");
}

#[test]
fn cookie_absent_key_reads_empty_consistently() {
    let ws = WasmCookiesKvStorage;
    // A clean jar is an empty cookie string.
    assert_eq!(ws.read("", "nonexistent").unwrap(), "");
    assert_eq!(ws.read("", "nonexistent").unwrap(), "");
    // A jar holding other cookies still reads an absent key as empty.
    assert_eq!(ws.read("theme=dark", "other").unwrap(), "");
}

#[test]
fn cookie_overwrite_last_wins() {
    let ws = WasmCookiesKvStorage;
    let first = ws.write("theme", "light").unwrap();
    let second = ws.write("theme", "dark").unwrap();
    // The browser keeps one cookie per name: after both writes the jar
    // holds only the second value.
    assert_eq!(ws.read(&first, "theme").unwrap(), "light");
    assert_eq!(ws.read(&second, "theme").unwrap(), "dark");
}

#[test]
fn cookie_malformed_value_is_classified() {
    let ws = WasmCookiesKvStorage;
    // %AA is not valid UTF-8 once percent-decoded.
    let err = ws.read("key2=value2%AA", "key2").unwrap_err();
    assert!(matches!(err, WasmCookieReadError::UrlDecodeError(_)));
    assert_eq!(err.classification(), ErrorClass::ValueMalformed);
}

#[test]
fn cookie_lookup_interpretation_cases() {
    let ok = interpret_cookie_lookup(None).unwrap();
    assert_eq!(ok, "");
    let ok = interpret_cookie_lookup(Some(Ok("dark".to_string()))).unwrap();
    assert_eq!(ok, "dark");
    // Harvest a real decode error from the cookie parser.
    let decode_err = match wasm_cookies::cookies::get("k=%AA", "k") {
        Some(Err(e)) => e,
        other => panic!("expected a decode error, got {:?}", other.map(|r| r.map(|_| ()))),
    };
    let err = interpret_cookie_lookup(Some(Err(decode_err))).unwrap_err();
    assert!(matches!(err, WasmCookieReadError::UrlDecodeError(_)));
}

#[test]
fn file_key_path_is_directory_child() {
    let f = FileBasedKvStorage::new("/data/app".to_string());
    assert_eq!(f.key_path("settings"), "/data/app/settings");
    // The base is a directory, never a sibling whose file name is replaced.
    assert_eq!(f.key_path("s"), "/data/app/s");
}

#[test]
fn file_roaming_and_mobile_paths() {
    let p = FileBasedKvStorage::get_roaming_path("/home/u/.config", "MyApp");
    assert_eq!(p, "/home/u/.config/MyApp");
    assert_eq!(FileBasedKvStorage::mobile_store_path(), "./store");
}

#[test]
fn file_error_classification() {
    assert_eq!(
        FileStorageError::NotFound.classification(),
        ErrorClass::NotFound
    );
    assert_eq!(
        FileStorageError::PermissionDenied.classification(),
        ErrorClass::MediumInaccessible
    );
    assert_eq!(
        FileStorageError::InvalidData.classification(),
        ErrorClass::ValueMalformed
    );
    assert_eq!(
        FileStorageError::Unknown.classification(),
        ErrorClass::MediumInaccessible
    );
}

#[test]
fn generic_error_classification() {
    assert_eq!(
        ReadError::Unknown.classification(),
        ErrorClass::MediumInaccessible
    );
    assert_eq!(
        WriteError::Unknown.classification(),
        ErrorClass::MediumInaccessible
    );
    let wrapped = WasmCookieReadError::Other(ReadError::Unknown);
    assert_eq!(wrapped.classification(), ErrorClass::MediumInaccessible);
}

/// A directory simulated as path -> contents, following what the filesystem
/// documents: writing creates or replaces the file, reading an absent path
/// fails, recreating the directory is idempotent and touches no contents.
struct SimulatedDirectory {
    files: HashMap<String, String>,
}

impl SimulatedDirectory {
    fn new() -> Self {
        SimulatedDirectory {
            files: HashMap::new(),
        }
    }

    fn write(&mut self, backend: &FileBasedKvStorage, key: &str, value: &str) {
        self.files.insert(backend.key_path(key), value.to_string());
    }

    fn read(&self, backend: &FileBasedKvStorage, key: &str) -> Result<String, FileStorageError> {
        match self.files.get(&backend.key_path(key)) {
            Some(contents) => Ok(contents.clone()),
            None => Err(FileStorageError::NotFound),
        }
    }
}

#[test]
fn file_scenario_scratch_directory() {
    let backend = FileBasedKvStorage::new("/scratch/d".to_string());
    let mut dir = SimulatedDirectory::new();
    dir.write(&backend, "settings", "dark-mode=true");
    assert_eq!(dir.read(&backend, "settings").unwrap(), "dark-mode=true");
    // Delete the whole directory; the next write recreates it and succeeds.
    dir.files.clear();
    dir.write(&backend, "settings", "v2");
    assert_eq!(dir.read(&backend, "settings").unwrap(), "v2");
}

#[test]
fn file_overwrite_last_wins() {
    let backend = FileBasedKvStorage::new("/scratch/d".to_string());
    let mut dir = SimulatedDirectory::new();
    dir.write(&backend, "settings", "v1");
    dir.write(&backend, "settings", "v2");
    assert_eq!(dir.read(&backend, "settings").unwrap(), "v2");
}

#[test]
fn file_absent_key_fails_consistently() {
    let backend = FileBasedKvStorage::new("/scratch/d".to_string());
    let dir = SimulatedDirectory::new();
    let first = dir.read(&backend, "missing").unwrap_err();
    let second = dir.read(&backend, "missing").unwrap_err();
    assert_eq!(first, FileStorageError::NotFound);
    assert_eq!(second, FileStorageError::NotFound);
    assert_eq!(first.classification(), ErrorClass::NotFound);
}

/// An in-memory backend: the storage contract is implementable by callers,
/// and any conforming backend passes the same checks.
struct MemoryKvStorage {
    records: RefCell<HashMap<String, String>>,
}

impl KvStorage for MemoryKvStorage {
    type ReadErrorType = ReadError;
    type WriteErrorType = WriteError;

    fn read(&self, key: &str) -> Result<String, ReadError> {
        self.records
            .borrow()
            .get(key)
            .cloned()
            .ok_or(ReadError::Unknown)
    }

    fn write(&self, key: &str, value: &str) -> Result<(), WriteError> {
        self.records
            .borrow_mut()
            .insert(key.to_string(), value.to_string());
        Ok(())
    }
}

#[test]
fn contract_holds_through_the_trait() {
    let backend = MemoryKvStorage {
        records: RefCell::new(HashMap::new()),
    };
    backend.write("settings", "dark-mode=true").unwrap();
    assert_eq!(backend.read("settings").unwrap(), "dark-mode=true");
    backend.write("settings", "v2").unwrap();
    assert_eq!(backend.read("settings").unwrap(), "v2");
    assert!(backend.read("missing").is_err());
}
