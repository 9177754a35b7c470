//! The cookie-backed backend: one record per cookie of the current origin.
//!
//! The browser owns the medium, a single cookie string; reading and writing
//! `document.cookie` is host I/O and stands outside the library. Everything
//! the backend decides is here and verified: `read` takes the cookie string
//! as a value, looks the key up in it and applies this backend's absent-key
//! policy (an absent cookie is the empty string, never a failure); `write`
//! builds the directive the host assigns to `document.cookie`, and cannot
//! fail, which its uninhabited error type states exactly.

use core::convert::Infallible;
use vstd::prelude::*;

use crate::kv_storage::medium;
use crate::kv_storage::{ErrorClass, ReadError};

verus! {

#[verifier::external_type_specification]
#[verifier::external_body]
pub struct ExFromUrlEncodingError(wasm_cookies::FromUrlEncodingError);

/// What `wasm_cookies::cookies::get` returns for a cookie string and a name:
/// `None` when the string holds no cookie of that name, `Some(None)` when it
/// does but the value does not URL-decode, `Some(Some(value))` with the
/// decoded value otherwise.
pub uninterp spec fn cookie_get_of(cookie_string: Seq<char>, name: Seq<char>) -> Option<
    Option<Seq<char>>,
>;

/// Relies on `wasm_cookies::cookies::get`: a pure lookup of `name` in
/// `cookie_string`, URL-encoding the name, splitting the string on `;` and
/// URL-decoding the matching value; the result depends on the arguments
/// alone.
#[verifier::external_body]
fn cookie_lookup(cookie_string: &str, name: &str) -> (r: Option<
    Result<String, wasm_cookies::FromUrlEncodingError>,
>)
    ensures
        (r is None) == (cookie_get_of(cookie_string@, name@) is None),
        r matches Some(Ok(value)) ==> cookie_get_of(cookie_string@, name@) == Some(
            Some(value@),
        ),
        r matches Some(Err(_)) ==> cookie_get_of(cookie_string@, name@) == Some(
            None::<Seq<char>>,
        ),
{
    wasm_cookies::cookies::get(cookie_string, name)
}

/// What `wasm_cookies::cookies::set` with default options returns for a name
/// and a value: the `document.cookie` directive that sets that cookie, with
/// name and value URL-encoded.
pub uninterp spec fn cookie_set_directive_of(name: Seq<char>, value: Seq<char>) -> Seq<char>;

/// Relies on `wasm_cookies::cookies::set` with `CookieOptions::default()`
/// (default path, domain and expiry, not secure, SameSite lax): pure; builds
/// the cookie-string directive that sets `name` to `value`, URL-encoding
/// both; the result depends on the arguments alone.
#[verifier::external_body]
fn cookie_set_directive(name: &str, value: &str) -> (r: String)
    ensures
        r@ == cookie_set_directive_of(name@, value@),
{
    wasm_cookies::cookies::set(name, value, &wasm_cookies::CookieOptions::default())
}

/// A read failure of the cookie backend.
#[derive(Debug)]
pub enum WasmCookieReadError {
    /// The cookie exists but its stored value failed URL-decoding.
    UrlDecodeError(wasm_cookies::FromUrlEncodingError),
    /// Any other read failure.
    Other(ReadError),
}

impl WasmCookieReadError {
    /// Where each failure falls in the taxonomy: a decode failure is a
    /// malformed value, distinguishable from the medium being unreachable.
    pub open spec fn class_spec(self) -> ErrorClass {
        match self {
            WasmCookieReadError::UrlDecodeError(_) => ErrorClass::ValueMalformed,
            WasmCookieReadError::Other(e) => e.class_spec(),
        }
    }

    pub fn classification(&self) -> (c: ErrorClass)
        ensures
            c == self.class_spec(),
    {
        match self {
            WasmCookieReadError::UrlDecodeError(_) => ErrorClass::ValueMalformed,
            WasmCookieReadError::Other(e) => e.classification(),
        }
    }
}

/// This backend's read policy over what the medium yielded for the key:
/// a present value is returned as is; an absent cookie reads as the empty
/// string, never as a failure.
pub open spec fn cookie_read_policy(found: Option<Seq<char>>) -> Seq<char> {
    match found {
        Some(value) => value,
        None => Seq::empty(),
    }
}

/// Turns the outcome of a lookup in the cookie string into what `read`
/// returns: the decoded value, the empty string for an absent cookie, or a
/// decode error. Public so that the policy can be exercised on any given
/// outcome.
pub fn interpret_cookie_lookup(
    found: Option<Result<String, wasm_cookies::FromUrlEncodingError>>,
) -> (r: Result<String, WasmCookieReadError>)
    ensures
        found is None ==> (r matches Ok(s) && s@ == cookie_read_policy(None)),
        found matches Some(Ok(value)) ==> (r matches Ok(s) && s@ == cookie_read_policy(
            Some(value@),
        )),
        found matches Some(Err(e)) ==> r == Err::<String, WasmCookieReadError>(
            WasmCookieReadError::UrlDecodeError(e),
        ),
{
    match found {
        None => Ok(String::new()),
        Some(Ok(value)) => Ok(value),
        Some(Err(e)) => Err(WasmCookieReadError::UrlDecodeError(e)),
    }
}

/// A backend persisting each key as a cookie of the current origin.
#[derive(PartialEq, Eq, Structural)]
pub struct WasmCookiesKvStorage;

impl Default for WasmCookiesKvStorage {
    fn default() -> (s: Self)
        ensures
            s == WasmCookiesKvStorage,
    {
        WasmCookiesKvStorage
    }
}

impl WasmCookiesKvStorage {
    /// Looks `key` up in the origin's cookie string, which the host read
    /// from `document.cookie` and hands in as a value. An absent cookie
    /// reads as the empty string; a present one is URL-decoded, a decode
    /// failure surfacing as `UrlDecodeError` and nothing else.
    pub fn read(&self, cookie_string: &str, key: &str) -> (r: Result<String, WasmCookieReadError>)
        ensures
            cookie_get_of(cookie_string@, key@) is None ==> (r matches Ok(s) && s@
                == cookie_read_policy(None)),
            cookie_get_of(cookie_string@, key@) matches Some(Some(value)) ==> (r matches Ok(s)
                && s@ == cookie_read_policy(Some(value))),
            cookie_get_of(cookie_string@, key@) matches Some(None) ==> (r matches Err(e)
                && e is UrlDecodeError),
    {
        let found = cookie_lookup(cookie_string, key);
        interpret_cookie_lookup(found)
    }

    /// Builds the `document.cookie` directive that sets the cookie `key` to
    /// `value` with default options; the host assigns it to
    /// `document.cookie`. This write cannot fail: the error type is
    /// uninhabited.
    pub fn write(&self, key: &str, value: &str) -> (r: Result<String, Infallible>)
        ensures
            r matches Ok(directive) && directive@ == cookie_set_directive_of(key@, value@),
    {
        Ok(cookie_set_directive(key, value))
    }
}

/// Write-then-read consistency for the cookie backend: once the jar holds
/// `value` under `key`, reading `key` yields exactly `value`.
pub proof fn lemma_cookie_write_then_read(
    jar: Map<Seq<char>, Seq<char>>,
    key: Seq<char>,
    value: Seq<char>,
)
    ensures
        cookie_read_policy(medium::lookup(medium::store(jar, key, value), key)) == value,
{
}

/// Overwrite semantics for the cookie backend: after two writes under the
/// same key, a read yields the second value alone.
pub proof fn lemma_cookie_overwrite(
    jar: Map<Seq<char>, Seq<char>>,
    key: Seq<char>,
    first: Seq<char>,
    second: Seq<char>,
)
    ensures
        cookie_read_policy(
            medium::lookup(medium::store(medium::store(jar, key, first), key, second), key),
        ) == second,
{
}

/// Absent-key policy of the cookie backend: a key the jar does not hold
/// reads as the empty string — on every call, never a failure.
pub proof fn lemma_cookie_absent_key(jar: Map<Seq<char>, Seq<char>>, key: Seq<char>)
    requires
        medium::lookup(jar, key) is None,
    ensures
        cookie_read_policy(medium::lookup(jar, key)) == Seq::<char>::empty(),
{
}

} // verus!
