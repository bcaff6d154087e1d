//! `rustc_hash::FxHashMap` keyed by 64-bit identifiers.
//!
//! The exporter names values and labels blocks through these maps. The view of a
//! map is vstd's view of a hash map; the functions below are the operations the
//! exporter needs, with what each does to that view.

use rustc_hash::FxHashMap;
use vstd::prelude::*;

verus! {

/// `rustc_hash::FxBuildHasher`, the unseeded hasher of `FxHashMap`.
#[verifier::external_type_specification]
#[verifier::external_body]
pub struct ExFxBuildHasher(rustc_hash::FxBuildHasher);

/// `FxHashMap::insert`: afterwards `key` maps to `value` and every other entry
/// is as before.
#[verifier::external_body]
pub(crate) fn fx_insert<V>(m: &mut FxHashMap<u64, V>, key: u64, value: V)
    ensures
        final(m)@ == old(m)@.insert(key, value),
{
    m.insert(key, value);
}

/// `FxHashMap::get`: the value of `key`, where it has one.
#[verifier::external_body]
pub(crate) fn fx_get<V>(m: &FxHashMap<u64, V>, key: u64) -> (r: Option<&V>)
    ensures
        r is Some <==> m@.dom().contains(key),
        r matches Some(v) ==> *v == m@[key],
{
    m.get(&key)
}

/// `FxHashMap::remove`: the value of `key`, where it had one; the entry is gone
/// afterwards and every other entry is as before.
#[verifier::external_body]
pub(crate) fn fx_remove<V>(m: &mut FxHashMap<u64, V>, key: u64) -> (r: Option<V>)
    ensures
        final(m)@ == old(m)@.remove(key),
        r is Some <==> old(m)@.dom().contains(key),
        r matches Some(v) ==> v == old(m)@[key],
{
    m.remove(&key)
}

}
