//! The places of the tiles of a grid, by the key of their cell.
//!
//! The places are kept in the hash map that `bevy::utils` offers, which is
//! `hashbrown::HashMap` with a hasher of its own. Verus does not
//! read that map: what this file says of it is taken on trust from the
//! documentation of `hashbrown`.

use vstd::prelude::*;

verus! {

/// The place of each tile in the list of tiles, by the key of its cell.
///
/// The map inside is hidden from Verus, for its type cannot be
/// declared to it: the allocator of `hashbrown::HashMap` is bound by a
/// trait that `hashbrown` keeps to itself.
#[verifier::external_body]
pub struct TileIndex {
    places: bevy::utils::HashMap<u64, usize>,
}

/// What an index holds: the place of each key that has one.
pub uninterp spec fn index_places(index: TileIndex) -> Map<u64, usize>;

impl TileIndex {
    /// An index without keys.
    ///
    /// Calls `hashbrown::HashMap::new`, which creates an empty map.
    #[verifier::external_body]
    pub(crate) fn new() -> (index: TileIndex)
        ensures
            forall|key: u64| !index_places(index).contains_key(key),
    {
        TileIndex { places: bevy::utils::HashMap::new() }
    }

    /// The place of `key`, if it has one.
    ///
    /// Calls `hashbrown::HashMap::get`, which gives the value that the
    /// map holds for the key, or `None` where it holds none.
    #[verifier::external_body]
    pub(crate) fn get(&self, key: u64) -> (r: Option<usize>)
        ensures
            r == (if index_places(*self).contains_key(key) {
                Some(index_places(*self)[key])
            } else {
                None
            }),
    {
        self.places.get(&key).copied()
    }

    /// Sets the place of `key`, and gives back the place that it had.
    ///
    /// Calls `hashbrown::HashMap::insert`: afterwards the map holds the
    /// value for the key and is else as it was; the value that it held
    /// for the key before is handed back, or `None` where it held none.
    #[verifier::external_body]
    pub(crate) fn insert(&mut self, key: u64, place: usize) -> (r: Option<usize>)
        ensures
            index_places(*final(self)) == index_places(*old(self)).insert(key, place),
            r == (if index_places(*old(self)).contains_key(key) {
                Some(index_places(*old(self))[key])
            } else {
                None
            }),
    {
        self.places.insert(key, place)
    }
}

} // verus!
