//! The simulated entities that scripted actions read and move.

use std::collections::HashMap;
use vstd::prelude::*;
use crate::math::{Quat, Vec3};

verus! {

broadcast use vstd::std_specs::hash::group_hash_axioms;

/// Where an entity is and how it is turned.
#[derive(Clone, Copy, Debug, PartialEq, Eq, Structural)]
pub struct Transform {
    pub translation: Vec3,
    pub rotation: Quat,
}

impl Transform {
    /// An unturned entity at `translation`.
    pub fn from_translation(translation: Vec3) -> (r: Self)
        ensures
            r == (Transform { translation, rotation: Quat::identity() }),
    {
        Transform { translation, rotation: Quat::identity() }
    }
}

/// The transforms of the simulated entities, by entity.
pub struct World {
    transforms: HashMap<u64, Transform>,
}

impl View for World {
    type V = Map<u64, Transform>;

    closed spec fn view(&self) -> Map<u64, Transform> {
        self.transforms@
    }
}

impl World {
    /// A world without entities.
    pub fn new() -> (r: Self)
        ensures
            r@ == (Map::<u64, Transform>::empty()),
    {
        World { transforms: HashMap::new() }
    }

    /// Whether `entity` exists.
    pub fn contains(&self, entity: u64) -> (r: bool)
        ensures
            r == self@.contains_key(entity),
    {
        self.transforms.contains_key(&entity)
    }

    /// The transform of `entity`, if it exists.
    pub fn get(&self, entity: u64) -> (r: Option<Transform>)
        ensures
            r == (if self@.contains_key(entity) {
                Some(self@[entity])
            } else {
                None
            }),
    {
        match self.transforms.get(&entity) {
            Some(transform) => Some(*transform),
            None => None,
        }
    }

    /// Creates `entity` or moves it, and gives back the transform it had.
    pub fn insert(&mut self, entity: u64, transform: Transform) -> (r: Option<Transform>)
        ensures
            final(self)@ == old(self)@.insert(entity, transform),
            r == (if old(self)@.contains_key(entity) {
                Some(old(self)@[entity])
            } else {
                None
            }),
    {
        self.transforms.insert(entity, transform)
    }

    /// Removes `entity`, and gives back the transform it had.
    pub fn despawn(&mut self, entity: u64) -> (r: Option<Transform>)
        ensures
            final(self)@ == old(self)@.remove(entity),
            r == (if old(self)@.contains_key(entity) {
                Some(old(self)@[entity])
            } else {
                None
            }),
    {
        self.transforms.remove(&entity)
    }
}

} // verus!
