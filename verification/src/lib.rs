//! A minimal key-value persistence abstraction for small string-valued
//! settings, with interchangeable backends: a cookie-backed backend for
//! browser-embedded runtimes and a file-backed backend for native runtimes.

use vstd::prelude::*;

pub mod kv_storage;

verus! {

/// Sum of two machine-sized integers; the caller rules out overflow.
pub fn add(left: usize, right: usize) -> (r: usize)
    requires
        left + right <= usize::MAX,
    ensures
        r == left + right,
{
    left + right
}

} // verus!
