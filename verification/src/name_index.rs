//! A name-to-index table for archive entries, backed by `indexmap::IndexMap`
//! so that lookup by decoded filename stays O(1) amortized while the archive
//! keeps its entries in central-directory order in a plain vector.

use vstd::prelude::*;

verus! {

#[verifier::external_type_specification]
#[verifier::external_body]
#[verifier::reject_recursive_types(K)]
#[verifier::reject_recursive_types(V)]
#[verifier::reject_recursive_types(S)]
pub struct ExIndexMap<K, V, S>(indexmap::IndexMap<K, V, S>);

/// The key-to-value mapping that a name table currently holds.
pub uninterp spec fn name_index_view(m: indexmap::IndexMap<String, usize>) -> Map<Seq<char>, usize>;

/// Relies on indexmap::IndexMap::with_capacity: the new map is empty.
#[verifier::external_body]
pub fn name_index_with_capacity(capacity: usize) -> (r: indexmap::IndexMap<String, usize>)
    ensures
        forall|n: Seq<char>| !name_index_view(r).contains_key(n),
{
    indexmap::IndexMap::with_capacity(capacity)
}

/// Relies on indexmap::IndexMap::insert: an equivalent key keeps its place and
/// its old value comes back in `Some`; a new key is added and `None` comes back.
#[verifier::external_body]
pub fn name_index_insert(
    m: &mut indexmap::IndexMap<String, usize>,
    key: String,
    value: usize,
) -> (old_value: Option<usize>)
    ensures
        name_index_view(*final(m)) == name_index_view(*old(m)).insert(key@, value),
        match old_value {
            Some(v) => name_index_view(*old(m)).contains_key(key@)
                && name_index_view(*old(m))[key@] == v,
            None => !name_index_view(*old(m)).contains_key(key@),
        },
{
    m.insert(key, value)
}

/// Relies on indexmap::IndexMap::get: the value stored under the key, if
/// the key is in the map.
#[verifier::external_body]
pub fn name_index_get(m: &indexmap::IndexMap<String, usize>, key: &str) -> (r: Option<usize>)
    ensures
        match r {
            Some(v) => name_index_view(*m).contains_key(key@) && name_index_view(*m)[key@] == v,
            None => !name_index_view(*m).contains_key(key@),
        },
{
    m.get(key).copied()
}

} // verus!
