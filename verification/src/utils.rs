//! What the parts of the system have in common.
use vstd::prelude::*;
use std::collections::HashMap;
use vstd::std_specs::iter::IteratorSpec;

verus! {

broadcast use vstd::std_specs::hash::group_hash_axioms;

/// Something that is kept under an identifier which a store may set.
pub trait HasId {
    /// The identifier.
    spec fn spec_id(&self) -> u128;

    /// Whether this value says what `other` says in everything but the
    /// identifier.
    spec fn same_but_id(&self, other: &Self) -> bool;

    /// The place of the identifier: what is written there becomes the
    /// identifier, and nothing else changes.
    fn id(&mut self) -> (r: &mut u128)
        ensures
            *r == old(self).spec_id(),
            final(self).spec_id() == *final(r),
            final(self).same_but_id(old(self)),
    ;
}

/// The identifiers under which a map keeps its values, each once, in the
/// order in which the map hands them out.
pub fn keys_of<V>(map: &HashMap<u128, V>) -> (ids: Vec<u128>)
    ensures
        ids@.no_duplicates(),
        ids@.to_set() == map@.dom(),
{
    let mut ids: Vec<u128> = Vec::new();
    let ghost all: Seq<u128> = vstd::std_specs::hash::spec_keys_iter(map).remaining().unref();
    for key in it: map.keys()
        invariant
            it.seq().unref() == all,
            ids@ == all.take(it.index()),
    {
        assert(all.take(it.index() + 1) =~= all.take(it.index()).push(*key));
        ids.push(*key);
    }
    assert(ids@ =~= all);
    ids
}

} // verus!
