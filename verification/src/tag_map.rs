//! The engine's hash map, as a table from tags to numbers.

use vstd::prelude::*;

verus! {

/// A table from string tags to numbers, kept in the engine's own hash map,
/// `bevy::utils::HashMap`, which is the `HashMap` of the `hashbrown` crate
/// with a fixed hasher. The numbers stand for what the tags name: the id
/// of a handle, or a position in a list.
#[verifier::external_body]
pub struct TagIndex {
    map: bevy::utils::HashMap<String, u64>,
}

/// What a [`TagIndex`] holds: for each tag in it, the number bound to the
/// tag.
pub uninterp spec fn tag_index_contents(index: TagIndex) -> Map<Seq<char>, u64>;

impl TagIndex {
    /// `HashMap::new`: a table without entries.
    #[verifier::external_body]
    pub(crate) fn new() -> (fresh: TagIndex)
        ensures
            (tag_index_contents(fresh) == Map::<Seq<char>, u64>::empty()),
    {
        TagIndex { map: bevy::utils::HashMap::new() }
    }

    /// `HashMap::insert`, its result dropped: binds `tag` to `number`,
    /// replacing what the tag was bound to before, and leaves every other
    /// tag as it was.
    #[verifier::external_body]
    pub(crate) fn insert(&mut self, tag: String, number: u64)
        ensures
            tag_index_contents(*final(self)) == tag_index_contents(*old(self)).insert(tag@, number),
    {
        self.map.insert(tag, number);
    }

    /// `HashMap::get`, its result copied out of the table: the number bound
    /// to `tag`, if the tag is in the table.
    #[verifier::external_body]
    pub(crate) fn get(&self, tag: &str) -> (found: Option<u64>)
        ensures
            found == (if tag_index_contents(*self).contains_key(tag@) {
                Some(tag_index_contents(*self)[tag@])
            } else {
                None
            }),
    {
        self.map.get(tag).copied()
    }
}

} // verus!
