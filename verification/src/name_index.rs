//! The concurrent hash map that finds a registered name's position, and what
//! this library assumes of it.
//!
//! The map is only ever reached through the functions below. Those that change
//! it take `&mut`, so that no other holder can observe or change the map
//! during a call.

use dashmap::DashMap;
use vstd::prelude::*;

verus! {

/// `dashmap::DashMap`, a hash map that can be shared between threads. Nothing
/// inside a value of it is visible to a proof.
#[verifier::external_type_specification]
#[verifier::external_body]
#[verifier::reject_recursive_types(K)]
#[verifier::reject_recursive_types(V)]
#[verifier::reject_recursive_types(S)]
pub struct ExDashMap<K, V, S>(DashMap<K, V, S>);

/// The entries of a map from names to positions: each key by its characters.
pub uninterp spec fn index_entries(index: DashMap<String, usize>) -> Map<Seq<char>, usize>;

/// Calls `DashMap::new`. Trusted: the new map has no entry.
#[verifier::external_body]
pub(crate) fn index_new() -> (created: DashMap<String, usize>)
    ensures
        (index_entries(created) == Map::<Seq<char>, usize>::empty()),
{
    DashMap::new()
}

/// Calls `DashMap::insert`. Trusted: afterwards the key is bound to the new
/// value and every other key is as before; the value that the key had before,
/// if it had one, is returned.
#[verifier::external_body]
pub(crate) fn index_insert(index: &mut DashMap<String, usize>, name: String, position: usize) -> (previous: Option<usize>)
    ensures
        index_entries(*final(index)) == index_entries(*old(index)).insert(name@, position),
        previous == (if index_entries(*old(index)).contains_key(name@) {
            Some(index_entries(*old(index))[name@])
        } else {
            None
        }),
{
    index.insert(name, position)
}

/// Calls `DashMap::get` and copies the value out of the guard that it returns.
/// Trusted: the result is the value bound to the key, or `None` where the key
/// has no entry.
#[verifier::external_body]
pub(crate) fn index_get(index: &DashMap<String, usize>, name: &str) -> (position: Option<usize>)
    ensures
        position == (if index_entries(*index).contains_key(name@) {
            Some(index_entries(*index)[name@])
        } else {
            None
        }),
{
    index.get(name).map(|entry| *entry)
}

} // verus!
