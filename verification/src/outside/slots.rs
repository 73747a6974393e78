//! A hash per kind of clipboard, in a map of the crate `enum_map`.

use vstd::prelude::*;

verus! {

/// An `enum_map::EnumMap` that holds an optional hash for each of two keys.
#[verifier::external_body]
pub struct HashSlots {
    map: enum_map::EnumMap<bool, Option<u64>>,
}

/// What a map holds under its two keys.
pub uninterp spec fn slot_contents(slots: HashSlots) -> Map<bool, Option<u64>>;

impl HashSlots {
    /// `enum_map::EnumMap::from_array`, with no hash under either key.
    #[verifier::external_body]
    pub(crate) fn empty() -> (slots: HashSlots)
        ensures
            slot_contents(slots) == map![false => None::<u64>, true => None::<u64>],
    {
        HashSlots { map: enum_map::EnumMap::from_array([None; 2]) }
    }

    /// `enum_map::EnumMap::index`: the value under the key.
    #[verifier::external_body]
    pub(crate) fn get(&self, key: bool) -> (hash: Option<u64>)
        ensures
            hash == slot_contents(*self)[key],
    {
        self.map[key]
    }

    /// `enum_map::EnumMap::index_mut`, assigned to: the value under the key is replaced, the other
    /// one stays.
    #[verifier::external_body]
    pub(crate) fn set(&mut self, key: bool, hash: Option<u64>)
        ensures
            slot_contents(*final(self)) == slot_contents(*old(self)).insert(key, hash),
    {
        self.map[key] = hash;
    }
}

} // verus!
