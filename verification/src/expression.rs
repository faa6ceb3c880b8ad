//! Building blocks for store query expressions.
//!
//! A query binds one placeholder to one value, so the expression maps
//! handed to the store are single-entry.

use std::collections::HashMap;
use vstd::prelude::*;

verus! {

broadcast use vstd::std_specs::hash::group_hash_axioms;

/// A map holding exactly the one given binding. Under std's hash-table
/// key model for `String` keys the view is the singleton map; nothing
/// more can be said of a `String`-keyed `HashMap` here.
pub fn make_hashmap<T>(key: String, value: T) -> (m: HashMap<String, T>)
    ensures
        vstd::std_specs::hash::obeys_key_model::<String>() ==> m@ == Map::<String, T>::empty().insert(
            key,
            value,
        ),
{
    let mut map: HashMap<String, T> = HashMap::new();
    map.insert(key, value);
    map
}

} // verus!
