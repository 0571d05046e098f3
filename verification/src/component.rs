//! Component storage: typed, sparse, entity-indexed lists behind a uniform
//! registry.
//!
//! A `ComponentList` owns a dense sequence of values plus a sparse map from
//! entity identifier to dense index; its view is the map from entity to
//! component. The `ComponentManager` owns one list per component kind,
//! registered lazily on first insertion.
use vstd::prelude::*;

use crate::aabb::AABB;
use crate::gravity::Gravity;
use crate::movement::Movement;
use crate::rigidbody::Rigidbody;
use crate::sprite::Sprite;
use crate::transform::Transform;

verus! {

/// Marker for plain-data value types that can be attached to entities.
pub trait Component {

}

impl Component for Transform {

}

impl Component for Rigidbody {

}

impl Component for Gravity {

}

impl Component for Movement {

}

impl Component for Sprite {

}

impl Component for AABB {

}

/// The closed set of component kinds the registry stores.
#[derive(Clone, Copy, PartialEq, Eq, Structural, Debug)]
pub enum ComponentKind {
    Transform,
    Rigidbody,
    Gravity,
    Movement,
    Sprite,
    Aabb,
}

/// One component value, tagged with its kind.
#[derive(Clone, Copy, PartialEq, Eq, Structural, Debug)]
pub enum ComponentValue {
    Transform(Transform),
    Rigidbody(Rigidbody),
    Gravity(Gravity),
    Movement(Movement),
    Sprite(Sprite),
    Aabb(AABB),
}

/// The kind a component value carries.
pub open spec fn kind_of(v: ComponentValue) -> ComponentKind {
    match v {
        ComponentValue::Transform(_) => ComponentKind::Transform,
        ComponentValue::Rigidbody(_) => ComponentKind::Rigidbody,
        ComponentValue::Gravity(_) => ComponentKind::Gravity,
        ComponentValue::Movement(_) => ComponentKind::Movement,
        ComponentValue::Sprite(_) => ComponentKind::Sprite,
        ComponentValue::Aabb(_) => ComponentKind::Aabb,
    }
}

impl ComponentValue {
    /// The kind tag of this value.
    pub fn kind(&self) -> (k: ComponentKind)
        ensures
            k == kind_of(*self),
    {
        match self {
            ComponentValue::Transform(_) => ComponentKind::Transform,
            ComponentValue::Rigidbody(_) => ComponentKind::Rigidbody,
            ComponentValue::Gravity(_) => ComponentKind::Gravity,
            ComponentValue::Movement(_) => ComponentKind::Movement,
            ComponentValue::Sprite(_) => ComponentKind::Sprite,
            ComponentValue::Aabb(_) => ComponentKind::Aabb,
        }
    }
}

/// Dense component values plus a sparse entity-to-index map. Entity
/// identifiers are issued densely from zero, so the sparse side is a vector
/// of optional indices. Components are never removed; re-adding an entity's
/// component points its entry at a fresh dense slot and leaks the old one,
/// exactly as the view's `insert` states.
pub struct ComponentList<T> {
    pub components: Vec<T>,
    pub entity_map: Vec<Option<usize>>,
}

impl<T> View for ComponentList<T> {
    type V = Map<int, T>;

    /// The map from entity identifier to its component.
    open spec fn view(&self) -> Map<int, T> {
        Map::new(
            |e: int| 0 <= e < self.entity_map@.len() && self.entity_map@[e] is Some,
            |e: int| self.components@[self.entity_map@[e]->Some_0 as int],
        )
    }
}

impl<T> ComponentList<T> {
    /// Every recorded index lands in the dense sequence, and no two entities
    /// share a dense slot.
    pub open spec fn wf(&self) -> bool {
        &&& forall|e: int|
            0 <= e < self.entity_map@.len() && (#[trigger] self.entity_map@[e]) is Some
                ==> self.entity_map@[e]->Some_0 < self.components@.len()
        &&& forall|e1: int, e2: int|
            0 <= e1 < self.entity_map@.len() && 0 <= e2 < self.entity_map@.len() && e1 != e2 && (
            #[trigger] self.entity_map@[e1]) is Some && (#[trigger] self.entity_map@[e2]) is Some
                ==> self.entity_map@[e1]->Some_0 != self.entity_map@[e2]->Some_0
    }

    /// An empty list: no entity has a component.
    pub fn new() -> (r: Self)
        ensures
            r.wf(),
            r@ == Map::<int, T>::empty(),
    {
        let r = Self { components: Vec::<T>::new(), entity_map: Vec::<Option<usize>>::new() };
        proof {
            assert(r@ =~= Map::<int, T>::empty());
        }
        r
    }

    /// Whether `entity` has a component here.
    pub fn contains_entity(&self, entity: usize) -> (r: bool)
        ensures
            r == self@.contains_key(entity as int),
    {
        entity < self.entity_map.len() && self.entity_map[entity].is_some()
    }

    /// Stores `component` for `entity` in a fresh dense slot, overwriting any
    /// earlier mapping: the view gains or replaces exactly this entity's
    /// entry.
    pub fn add_component(&mut self, entity: usize, component: T)
        requires
            old(self).wf(),
        ensures
            final(self).wf(),
            final(self)@ == old(self)@.insert(entity as int, component),
    {
        let index = self.components.len();
        while self.entity_map.len() <= entity
            invariant
                self.components == old(self).components,
                self.entity_map@.len() >= old(self).entity_map@.len(),
                forall|e: int|
                    0 <= e < old(self).entity_map@.len() ==> self.entity_map@[e] == old(
                        self,
                    ).entity_map@[e],
                forall|e: int|
                    old(self).entity_map@.len() <= e < self.entity_map@.len() ==> (
                    #[trigger] self.entity_map@[e]) is None,
            decreases entity + 1 - self.entity_map.len(),
        {
            self.entity_map.push(None);
        }
        self.entity_map[entity] = Some(index);
        self.components.push(component);
        proof {
            assert(self@ =~= old(self)@.insert(entity as int, component));
        }
    }

    /// Reads `entity`'s component, absent if it has none.
    pub fn get_entity_component(&self, entity: usize) -> (r: Option<&T>)
        requires
            self.wf(),
        ensures
            match r {
                Some(c) => self@.contains_key(entity as int) && *c == self@[entity as int],
                None => !self@.contains_key(entity as int),
            },
    {
        if entity < self.entity_map.len() {
            let idx_opt = self.entity_map[entity];
            match idx_opt {
                Some(i) => Some(&self.components[i]),
                None => None,
            }
        } else {
            None
        }
    }

    /// Borrows `entity`'s component for writing, absent if it has none. The
    /// final view replaces this entity's entry with whatever the caller
    /// leaves behind the returned borrow.
    pub fn get_entity_component_mut(&mut self, entity: usize) -> (r: Option<&mut T>)
        requires
            old(self).wf(),
        ensures
            match r {
                Some(c) => {
                    &&& old(self)@.contains_key(entity as int)
                    &&& *c == old(self)@[entity as int]
                    &&& final(self).wf()
                    &&& final(self)@ == old(self)@.insert(entity as int, *final(c))
                },
                None => !old(self)@.contains_key(entity as int) && *final(self) == *old(self),
            },
    {
        if entity < self.entity_map.len() {
            let idx_opt = self.entity_map[entity];
            match idx_opt {
                Some(i) => {
                    let c = &mut self.components[i];
                    proof {
                        assert(after_borrow(*self)@ =~= old(self)@.insert(
                            entity as int,
                            *final(c),
                        ));
                    }
                    Some(c)
                },
                None => None,
            }
        } else {
            None
        }
    }

    /// Overwrites `entity`'s component in place. Unlike `add_component` this
    /// reuses the dense slot, so it is only for entities that already have
    /// one; the view changes by the same `insert`.
    pub fn set_entity_component(&mut self, entity: usize, component: T)
        requires
            old(self).wf(),
            old(self)@.contains_key(entity as int),
        ensures
            final(self).wf(),
            final(self)@ == old(self)@.insert(entity as int, component),
    {
        let idx_opt = self.entity_map[entity];
        match idx_opt {
            Some(i) => {
                self.components[i] = component;
                proof {
                    assert(self@ =~= old(self)@.insert(entity as int, component));
                }
            },
            None => {
                proof {
                    assert(false);
                }
            },
        }
    }
}

/// One component list per registered kind, type-recovered by the kind tag.
/// A kind is registered lazily on the first `add_component` for it; a lookup
/// under an unregistered kind is absent, never an error.
pub struct ComponentManager {
    pub transforms: Option<ComponentList<ComponentValue>>,
    pub rigidbodies: Option<ComponentList<ComponentValue>>,
    pub gravities: Option<ComponentList<ComponentValue>>,
    pub movements: Option<ComponentList<ComponentValue>>,
    pub sprites: Option<ComponentList<ComponentValue>>,
    pub aabbs: Option<ComponentList<ComponentValue>>,
}

impl ComponentManager {
    /// The list registered for `kind`, if any.
    pub open spec fn list_of(self, kind: ComponentKind) -> Option<ComponentList<ComponentValue>> {
        match kind {
            ComponentKind::Transform => self.transforms,
            ComponentKind::Rigidbody => self.rigidbodies,
            ComponentKind::Gravity => self.gravities,
            ComponentKind::Movement => self.movements,
            ComponentKind::Sprite => self.sprites,
            ComponentKind::Aabb => self.aabbs,
        }
    }

    /// Whether a list for `kind` has been registered.
    pub open spec fn registered(self, kind: ComponentKind) -> bool {
        self.list_of(kind) is Some
    }

    /// The entity-to-component map stored for `kind`.
    pub open spec fn table(self, kind: ComponentKind) -> Map<int, ComponentValue>
        recommends
            self.registered(kind),
    {
        self.list_of(kind)->Some_0@
    }

    /// Whether `entity` has a component of `kind`.
    pub open spec fn spec_has(self, kind: ComponentKind, entity: int) -> bool {
        self.registered(kind) && self.table(kind).contains_key(entity)
    }

    /// Every registered list is well formed and holds only values of its own
    /// kind.
    pub open spec fn wf(self) -> bool {
        forall|k: ComponentKind|
            (#[trigger] self.list_of(k)) is Some ==> self.list_of(k)->Some_0.wf() && (forall|e: int|
                #[trigger] self.list_of(k)->Some_0@.contains_key(e) ==> kind_of(
                    self.list_of(k)->Some_0@[e],
                ) == k)
    }

    /// An empty registry: no kind registered, so no entity has anything.
    pub fn new() -> (r: Self)
        ensures
            r.wf(),
            forall|k: ComponentKind| !r.registered(k),
    {
        Self {
            transforms: None,
            rigidbodies: None,
            gravities: None,
            movements: None,
            sprites: None,
            aabbs: None,
        }
    }

    /// Removes and returns the list registered for `kind`, leaving the kind
    /// unregistered; every other kind keeps its list.
    fn take_list(&mut self, kind: ComponentKind) -> (r: Option<ComponentList<ComponentValue>>)
        ensures
            r == old(self).list_of(kind),
            !final(self).registered(kind),
            forall|k: ComponentKind|
                k != kind ==> #[trigger] final(self).list_of(k) == old(self).list_of(k),
    {
        match kind {
            ComponentKind::Transform => self.transforms.take(),
            ComponentKind::Rigidbody => self.rigidbodies.take(),
            ComponentKind::Gravity => self.gravities.take(),
            ComponentKind::Movement => self.movements.take(),
            ComponentKind::Sprite => self.sprites.take(),
            ComponentKind::Aabb => self.aabbs.take(),
        }
    }

    /// Installs `list` for `kind`, replacing whatever was registered; every
    /// other kind keeps its list.
    fn put_list(&mut self, kind: ComponentKind, list: ComponentList<ComponentValue>)
        ensures
            final(self).list_of(kind) == Some(list),
            forall|k: ComponentKind|
                k != kind ==> #[trigger] final(self).list_of(k) == old(self).list_of(k),
    {
        match kind {
            ComponentKind::Transform => self.transforms = Some(list),
            ComponentKind::Rigidbody => self.rigidbodies = Some(list),
            ComponentKind::Gravity => self.gravities = Some(list),
            ComponentKind::Movement => self.movements = Some(list),
            ComponentKind::Sprite => self.sprites = Some(list),
            ComponentKind::Aabb => self.aabbs = Some(list),
        }
    }

    /// Registers a fresh, empty list for `kind`. Registering a kind twice
    /// discards the earlier list and all component data in it.
    pub fn register_components(&mut self, kind: ComponentKind)
        requires
            old(self).wf(),
        ensures
            final(self).wf(),
            final(self).registered(kind),
            final(self).table(kind) == Map::<int, ComponentValue>::empty(),
            forall|k: ComponentKind|
                k != kind ==> #[trigger] final(self).list_of(k) == old(self).list_of(k),
    {
        self.put_list(kind, ComponentList::new());
    }

    /// Reads the list registered for `kind`, absent if the kind was never
    /// registered.
    pub fn get_components(&self, kind: ComponentKind) -> (r: Option<&ComponentList<ComponentValue>>)
        ensures
            match r {
                Some(l) => self.list_of(kind) == Some(*l),
                None => !self.registered(kind),
            },
    {
        match kind {
            ComponentKind::Transform => self.transforms.as_ref(),
            ComponentKind::Rigidbody => self.rigidbodies.as_ref(),
            ComponentKind::Gravity => self.gravities.as_ref(),
            ComponentKind::Movement => self.movements.as_ref(),
            ComponentKind::Sprite => self.sprites.as_ref(),
            ComponentKind::Aabb => self.aabbs.as_ref(),
        }
    }

    /// Borrows the list registered for `kind` for writing, absent if the kind
    /// was never registered; every other kind keeps its list.
    pub fn get_components_mut(&mut self, kind: ComponentKind) -> (r: Option<
        &mut ComponentList<ComponentValue>,
    >)
        ensures
            match r {
                Some(l) => {
                    &&& old(self).list_of(kind) == Some(*l)
                    &&& final(self).list_of(kind) == Some(*final(l))
                    &&& forall|k: ComponentKind|
                        k != kind ==> #[trigger] final(self).list_of(k) == old(self).list_of(k)
                },
                None => !old(self).registered(kind) && *final(self) == *old(self),
            },
    {
        match kind {
            ComponentKind::Transform => self.transforms.as_mut(),
            ComponentKind::Rigidbody => self.rigidbodies.as_mut(),
            ComponentKind::Gravity => self.gravities.as_mut(),
            ComponentKind::Movement => self.movements.as_mut(),
            ComponentKind::Sprite => self.sprites.as_mut(),
            ComponentKind::Aabb => self.aabbs.as_mut(),
        }
    }

    /// Stores `component` for `entity` under the value's own kind,
    /// registering the kind first if this is its first component. The kind's
    /// table gains or replaces exactly this entity's entry; every other kind
    /// keeps its list.
    pub fn add_component(&mut self, entity: usize, component: ComponentValue)
        requires
            old(self).wf(),
        ensures
            final(self).wf(),
            final(self).registered(kind_of(component)),
            final(self).table(kind_of(component)) == (if old(self).registered(kind_of(component)) {
                old(self).table(kind_of(component))
            } else {
                Map::<int, ComponentValue>::empty()
            }).insert(entity as int, component),
            forall|k: ComponentKind|
                k != kind_of(component) ==> #[trigger] final(self).list_of(k) == old(self).list_of(
                    k,
                ),
    {
        let kind = component.kind();
        let mut list = match self.take_list(kind) {
            Some(l) => l,
            None => ComponentList::new(),
        };
        list.add_component(entity, component);
        self.put_list(kind, list);
        proof {
            assert forall|k: ComponentKind| (#[trigger] self.list_of(k)) is Some implies self.list_of(
                k,
            )->Some_0.wf() && (forall|e: int|
                #[trigger] self.list_of(k)->Some_0@.contains_key(e) ==> kind_of(
                    self.list_of(k)->Some_0@[e],
                ) == k) by {
                if k == kind {
                    assert forall|e: int| #[trigger]
                        self.list_of(k)->Some_0@.contains_key(e) implies kind_of(
                        self.list_of(k)->Some_0@[e],
                    ) == k by {
                        if e != entity as int {
                            assert(old(self).list_of(k) is Some);
                            assert(old(self).list_of(k)->Some_0@.contains_key(e));
                        }
                    }
                }
            }
        }
    }

    /// The transform stored for `entity`.
    pub open spec fn spec_transform(self, entity: int) -> Transform
        recommends
            self.spec_has(ComponentKind::Transform, entity),
    {
        self.table(ComponentKind::Transform)[entity]->Transform_0
    }

    /// The rigidbody stored for `entity`.
    pub open spec fn spec_rigidbody(self, entity: int) -> Rigidbody
        recommends
            self.spec_has(ComponentKind::Rigidbody, entity),
    {
        self.table(ComponentKind::Rigidbody)[entity]->Rigidbody_0
    }

    /// The gravity stored for `entity`.
    pub open spec fn spec_gravity(self, entity: int) -> Gravity
        recommends
            self.spec_has(ComponentKind::Gravity, entity),
    {
        self.table(ComponentKind::Gravity)[entity]->Gravity_0
    }

    /// The movement stored for `entity`.
    pub open spec fn spec_movement(self, entity: int) -> Movement
        recommends
            self.spec_has(ComponentKind::Movement, entity),
    {
        self.table(ComponentKind::Movement)[entity]->Movement_0
    }

    /// The sprite stored for `entity`.
    pub open spec fn spec_sprite(self, entity: int) -> Sprite
        recommends
            self.spec_has(ComponentKind::Sprite, entity),
    {
        self.table(ComponentKind::Sprite)[entity]->Sprite_0
    }

    /// The bounding box stored for `entity`.
    pub open spec fn spec_aabb(self, entity: int) -> AABB
        recommends
            self.spec_has(ComponentKind::Aabb, entity),
    {
        self.table(ComponentKind::Aabb)[entity]->Aabb_0
    }

    /// Reads `entity`'s component of `kind`, absent if it has none.
    fn get_value(&self, kind: ComponentKind, entity: usize) -> (r: Option<ComponentValue>)
        requires
            self.wf(),
        ensures
            match r {
                Some(v) => self.spec_has(kind, entity as int) && v == self.table(kind)[entity as int]
                    && kind_of(v) == kind,
                None => !self.spec_has(kind, entity as int),
            },
    {
        match self.get_components(kind) {
            Some(l) => match l.get_entity_component(entity) {
                Some(c) => Some(*c),
                None => None,
            },
            None => None,
        }
    }

    /// Overwrites in place the component `entity` already has of the value's
    /// kind; every other kind keeps its list.
    fn set_value(&mut self, entity: usize, component: ComponentValue)
        requires
            old(self).wf(),
            old(self).spec_has(kind_of(component), entity as int),
        ensures
            final(self).wf(),
            final(self).registered(kind_of(component)),
            final(self).table(kind_of(component)) == old(self).table(kind_of(component)).insert(
                entity as int,
                component,
            ),
            forall|k: ComponentKind|
                k != kind_of(component) ==> #[trigger] final(self).list_of(k) == old(self).list_of(
                    k,
                ),
    {
        let kind = component.kind();
        match self.take_list(kind) {
            Some(mut list) => {
                list.set_entity_component(entity, component);
                self.put_list(kind, list);
                proof {
                    assert forall|k: ComponentKind| (#[trigger] self.list_of(k)) is Some implies self.list_of(
                        k,
                    )->Some_0.wf() && (forall|e: int|
                        #[trigger] self.list_of(k)->Some_0@.contains_key(e) ==> kind_of(
                            self.list_of(k)->Some_0@[e],
                        ) == k) by {
                        if k == kind {
                            assert forall|e: int| #[trigger]
                                self.list_of(k)->Some_0@.contains_key(e) implies kind_of(
                                self.list_of(k)->Some_0@[e],
                            ) == k by {
                                if e != entity as int {
                                    assert(old(self).list_of(k) is Some);
                                    assert(old(self).list_of(k)->Some_0@.contains_key(e));
                                }
                            }
                        }
                    }
                }
            },
            None => {
                proof {
                    assert(false);
                }
            },
        }
    }

    /// Reads `entity`'s transform, absent if it has none.
    pub fn get_transform(&self, entity: usize) -> (r: Option<Transform>)
        requires
            self.wf(),
        ensures
            match r {
                Some(t) => self.spec_has(ComponentKind::Transform, entity as int) && t
                    == self.spec_transform(entity as int),
                None => !self.spec_has(ComponentKind::Transform, entity as int),
            },
    {
        match self.get_value(ComponentKind::Transform, entity) {
            Some(v) => match v {
                ComponentValue::Transform(t) => Some(t),
                _ => {
                    proof {
                        assert(false);
                    }
                    None
                },
            },
            None => None,
        }
    }

    /// Reads `entity`'s rigidbody, absent if it has none.
    pub fn get_rigidbody(&self, entity: usize) -> (r: Option<Rigidbody>)
        requires
            self.wf(),
        ensures
            match r {
                Some(b) => self.spec_has(ComponentKind::Rigidbody, entity as int) && b
                    == self.spec_rigidbody(entity as int),
                None => !self.spec_has(ComponentKind::Rigidbody, entity as int),
            },
    {
        match self.get_value(ComponentKind::Rigidbody, entity) {
            Some(v) => match v {
                ComponentValue::Rigidbody(b) => Some(b),
                _ => {
                    proof {
                        assert(false);
                    }
                    None
                },
            },
            None => None,
        }
    }

    /// Reads `entity`'s gravity, absent if it has none.
    pub fn get_gravity(&self, entity: usize) -> (r: Option<Gravity>)
        requires
            self.wf(),
        ensures
            match r {
                Some(g) => self.spec_has(ComponentKind::Gravity, entity as int) && g
                    == self.spec_gravity(entity as int),
                None => !self.spec_has(ComponentKind::Gravity, entity as int),
            },
    {
        match self.get_value(ComponentKind::Gravity, entity) {
            Some(v) => match v {
                ComponentValue::Gravity(g) => Some(g),
                _ => {
                    proof {
                        assert(false);
                    }
                    None
                },
            },
            None => None,
        }
    }

    /// Reads `entity`'s movement, absent if it has none.
    pub fn get_movement(&self, entity: usize) -> (r: Option<Movement>)
        requires
            self.wf(),
        ensures
            match r {
                Some(m) => self.spec_has(ComponentKind::Movement, entity as int) && m
                    == self.spec_movement(entity as int),
                None => !self.spec_has(ComponentKind::Movement, entity as int),
            },
    {
        match self.get_value(ComponentKind::Movement, entity) {
            Some(v) => match v {
                ComponentValue::Movement(m) => Some(m),
                _ => {
                    proof {
                        assert(false);
                    }
                    None
                },
            },
            None => None,
        }
    }

    /// Reads `entity`'s sprite, absent if it has none.
    pub fn get_sprite(&self, entity: usize) -> (r: Option<Sprite>)
        requires
            self.wf(),
        ensures
            match r {
                Some(s) => self.spec_has(ComponentKind::Sprite, entity as int) && s
                    == self.spec_sprite(entity as int),
                None => !self.spec_has(ComponentKind::Sprite, entity as int),
            },
    {
        match self.get_value(ComponentKind::Sprite, entity) {
            Some(v) => match v {
                ComponentValue::Sprite(s) => Some(s),
                _ => {
                    proof {
                        assert(false);
                    }
                    None
                },
            },
            None => None,
        }
    }

    /// Reads `entity`'s bounding box, absent if it has none.
    pub fn get_aabb(&self, entity: usize) -> (r: Option<AABB>)
        requires
            self.wf(),
        ensures
            match r {
                Some(a) => self.spec_has(ComponentKind::Aabb, entity as int) && a == self.spec_aabb(
                    entity as int,
                ),
                None => !self.spec_has(ComponentKind::Aabb, entity as int),
            },
    {
        match self.get_value(ComponentKind::Aabb, entity) {
            Some(v) => match v {
                ComponentValue::Aabb(a) => Some(a),
                _ => {
                    proof {
                        assert(false);
                    }
                    None
                },
            },
            None => None,
        }
    }

    /// Overwrites the transform `entity` already has.
    pub fn set_transform(&mut self, entity: usize, t: Transform)
        requires
            old(self).wf(),
            old(self).spec_has(ComponentKind::Transform, entity as int),
        ensures
            final(self).wf(),
            final(self).registered(ComponentKind::Transform),
            final(self).table(ComponentKind::Transform) == old(self).table(
                ComponentKind::Transform,
            ).insert(entity as int, ComponentValue::Transform(t)),
            forall|k: ComponentKind|
                k != ComponentKind::Transform ==> #[trigger] final(self).list_of(k) == old(
                    self,
                ).list_of(k),
    {
        self.set_value(entity, ComponentValue::Transform(t));
    }

    /// Overwrites the rigidbody `entity` already has.
    pub fn set_rigidbody(&mut self, entity: usize, b: Rigidbody)
        requires
            old(self).wf(),
            old(self).spec_has(ComponentKind::Rigidbody, entity as int),
        ensures
            final(self).wf(),
            final(self).registered(ComponentKind::Rigidbody),
            final(self).table(ComponentKind::Rigidbody) == old(self).table(
                ComponentKind::Rigidbody,
            ).insert(entity as int, ComponentValue::Rigidbody(b)),
            forall|k: ComponentKind|
                k != ComponentKind::Rigidbody ==> #[trigger] final(self).list_of(k) == old(
                    self,
                ).list_of(k),
    {
        self.set_value(entity, ComponentValue::Rigidbody(b));
    }

    /// Overwrites the bounding box `entity` already has.
    pub fn set_aabb(&mut self, entity: usize, a: AABB)
        requires
            old(self).wf(),
            old(self).spec_has(ComponentKind::Aabb, entity as int),
        ensures
            final(self).wf(),
            final(self).registered(ComponentKind::Aabb),
            final(self).table(ComponentKind::Aabb) == old(self).table(ComponentKind::Aabb).insert(
                entity as int,
                ComponentValue::Aabb(a),
            ),
            forall|k: ComponentKind|
                k != ComponentKind::Aabb ==> #[trigger] final(self).list_of(k) == old(self).list_of(
                    k,
                ),
    {
        self.set_value(entity, ComponentValue::Aabb(a));
    }

    /// Whether `entity` has a component of `kind`: true exactly when a list
    /// for the kind is registered and maps this entity.
    pub fn entity_has_component(&self, entity: usize, kind: ComponentKind) -> (r: bool)
        requires
            self.wf(),
        ensures
            r == self.spec_has(kind, entity as int),
    {
        match self.get_components(kind) {
            Some(l) => l.contains_entity(entity),
            None => false,
        }
    }
}

/// Before any component of a kind is stored the kind is unregistered, and an
/// unregistered kind holds nothing: every entity reads as absent under it.
pub proof fn lemma_unregistered_has_none(cm: ComponentManager, kind: ComponentKind, entity: int)
    requires
        !cm.registered(kind),
    ensures
        !cm.spec_has(kind, entity),
{
}

/// The round trip through the registry: any state `add_component` can leave
/// (its table for the value's kind is the prior table with this entry
/// inserted) maps the entity, hands the stored value back, and keeps every
/// other entity's entry of that kind.
pub proof fn lemma_add_component_round_trip(
    pre: ComponentManager,
    post: ComponentManager,
    entity: int,
    component: ComponentValue,
)
    requires
        post.registered(kind_of(component)),
        post.table(kind_of(component)) == (if pre.registered(kind_of(component)) {
            pre.table(kind_of(component))
        } else {
            Map::<int, ComponentValue>::empty()
        }).insert(entity, component),
    ensures
        post.spec_has(kind_of(component), entity),
        post.table(kind_of(component))[entity] == component,
        forall|e: int|
            e != entity && pre.spec_has(kind_of(component), e) ==> post.spec_has(
                kind_of(component),
                e,
            ) && post.table(kind_of(component))[e] == pre.table(kind_of(component))[e],
{
}

/// Last write wins: storing `v2` for an entity after `v1`, through any pair
/// of states the two `add_component` calls can leave, makes the entity read
/// back `v2`.
pub proof fn lemma_readd_last_write_wins(
    mid: ComponentManager,
    post: ComponentManager,
    entity: int,
    v1: ComponentValue,
    v2: ComponentValue,
)
    requires
        kind_of(v1) == kind_of(v2),
        mid.registered(kind_of(v1)),
        mid.table(kind_of(v1)).contains_key(entity),
        mid.table(kind_of(v1))[entity] == v1,
        post.registered(kind_of(v2)),
        post.table(kind_of(v2)) == mid.table(kind_of(v2)).insert(entity, v2),
    ensures
        post.spec_has(kind_of(v2), entity),
        post.table(kind_of(v2))[entity] == v2,
{
}

} // verus!
