//! Entity identity and the monotonic entity allocator.
use vstd::prelude::*;

verus! {

/// An entity is a bare non-negative integer identity; all data lives in
/// components attached to it externally.
pub struct Entity(pub usize);

/// Issues entity identifiers. Identifiers are handed out densely from zero and
/// entities are never removed, so `entities` is both the count of live
/// entities and the next identifier to issue.
pub struct EntitySystem {
    pub entities: usize,
}

impl EntitySystem {
    /// A fresh allocator with no entities issued yet.
    pub fn new() -> (r: Self)
        ensures
            r.entities == 0,
    {
        Self { entities: 0 }
    }

    /// Issues the next identifier. The live-entity count grows by exactly one
    /// and the new entity's identifier is the old count.
    pub fn create_entity(&mut self) -> (r: Entity)
        requires
            old(self).entities < usize::MAX,
        ensures
            final(self).entities == old(self).entities + 1,
            r.0 == old(self).entities,
    {
        let new_entity_id = self.entities;
        self.entities = self.entities + 1;
        Entity(new_entity_id)
    }
}

} // verus!
