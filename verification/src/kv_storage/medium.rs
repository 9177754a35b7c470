//! A mathematical model of a persistence medium: a finite map from keys to
//! stored values, both sequences of characters.
//!
//! Each backend owns one such medium (the cookie jar of the current origin,
//! one directory of files). `lookup` is what the medium yields for a key and
//! `store` is the effect of a completed write. The lemmas here are the
//! contract laws every backend inherits from this model; the backend modules
//! instantiate them through their own read policies.

use vstd::prelude::*;

verus! {

/// What the medium holds under `key`: the stored value, or nothing.
pub open spec fn lookup(medium: Map<Seq<char>, Seq<char>>, key: Seq<char>) -> Option<Seq<char>> {
    if medium.contains_key(key) {
        Some(medium[key])
    } else {
        None
    }
}

/// The medium after a completed write of `value` under `key`.
pub open spec fn store(
    medium: Map<Seq<char>, Seq<char>>,
    key: Seq<char>,
    value: Seq<char>,
) -> Map<Seq<char>, Seq<char>> {
    medium.insert(key, value)
}

/// Write-then-read consistency: once a write of `value` under `key` has
/// completed, the medium yields `value` for `key`.
pub proof fn lemma_store_then_lookup(
    medium: Map<Seq<char>, Seq<char>>,
    key: Seq<char>,
    value: Seq<char>,
)
    ensures
        lookup(store(medium, key, value), key) == Some(value),
{
}

/// Overwrite semantics: a second write under the same key replaces the first
/// outright; the medium ends exactly as if only the second write had happened,
/// never holding a merge of the two values.
pub proof fn lemma_store_replaces(
    medium: Map<Seq<char>, Seq<char>>,
    key: Seq<char>,
    first: Seq<char>,
    second: Seq<char>,
)
    ensures
        store(store(medium, key, first), key, second) == store(medium, key, second),
{
    assert(store(store(medium, key, first), key, second) =~= store(medium, key, second));
}

/// A write touches no other record: every other key still yields what it
/// yielded before.
pub proof fn lemma_store_preserves_others(
    medium: Map<Seq<char>, Seq<char>>,
    key: Seq<char>,
    value: Seq<char>,
    other: Seq<char>,
)
    requires
        other != key,
    ensures
        lookup(store(medium, key, value), other) == lookup(medium, other),
{
}

} // verus!
