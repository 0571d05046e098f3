//! The physics system: gravity and velocity integration.
use vstd::prelude::*;

use crate::component::{ComponentKind, ComponentManager};
use crate::fixed::{fx_add, fx_sub, Fixed};
use crate::gravity::Gravity;
use crate::rigidbody::Rigidbody;
use crate::transform::Transform;
use crate::vector2::Vector2;

verus! {

/// Integrates gravity into velocity and velocity into position, once per
/// frame, for every entity that carries the full set of physics components.
pub struct PhysicsSystem {}

impl Default for PhysicsSystem {
    /// The system carries no configuration.
    fn default() -> Self {
        Self {  }
    }
}

/// Whether the physics step acts on `entity`: it must carry a transform, a
/// rigidbody and a gravity.
pub open spec fn phys_subject(cm: ComponentManager, entity: int) -> bool {
    &&& cm.spec_has(ComponentKind::Transform, entity)
    &&& cm.spec_has(ComponentKind::Rigidbody, entity)
    &&& cm.spec_has(ComponentKind::Gravity, entity)
}

/// One velocity integration: gravity pulls the vertical component down, the
/// horizontal component is kept.
pub open spec fn integrate_vel(rb: Rigidbody, g: Gravity) -> Vector2 {
    Vector2 { x: rb.vel.x, y: Fixed { raw: fx_sub(rb.vel.y.raw as int, g.0.raw as int) as i64 } }
}

/// One position integration: the position advances by the velocity the entity
/// had before gravity was applied, a semi-implicit Euler step with a
/// one-frame lag.
pub open spec fn integrate_pos(t: Transform, rb: Rigidbody) -> Vector2 {
    Vector2 {
        x: Fixed { raw: fx_add(t.pos.x.raw as int, rb.vel.x.raw as int) as i64 },
        y: Fixed { raw: fx_add(t.pos.y.raw as int, rb.vel.y.raw as int) as i64 },
    }
}

/// The velocity after one step for the entity as stored.
pub open spec fn phys_new_vel(cm: ComponentManager, entity: int) -> Vector2 {
    integrate_vel(cm.spec_rigidbody(entity), cm.spec_gravity(entity))
}

/// The position after one step for the entity as stored.
pub open spec fn phys_new_pos(cm: ComponentManager, entity: int) -> Vector2 {
    integrate_pos(cm.spec_transform(entity), cm.spec_rigidbody(entity))
}

impl PhysicsSystem {
    /// One physics step over entities `0 .. entities`: every entity with
    /// transform, rigidbody and gravity gets the integrated velocity and
    /// position; everything else is untouched.
    pub fn update(&self, entities: usize, cm: &mut ComponentManager)
        requires
            old(cm).wf(),
        ensures
            final(cm).wf(),
            forall|k: ComponentKind| final(cm).registered(k) <==> old(cm).registered(k),
            forall|k: ComponentKind, e: int|
                final(cm).spec_has(k, e) <==> old(cm).spec_has(k, e),
            forall|k: ComponentKind|
                k != ComponentKind::Transform && k != ComponentKind::Rigidbody
                    ==> #[trigger] final(cm).list_of(k) == old(cm).list_of(k),
            forall|e: int|
                0 <= e < entities as int && phys_subject(*old(cm), e) ==> final(cm).spec_rigidbody(e)
                    == (Rigidbody {
                    vel: phys_new_vel(*old(cm), e),
                    accel: old(cm).spec_rigidbody(e).accel,
                }) && final(cm).spec_transform(e) == (Transform { pos: phys_new_pos(*old(cm), e) }),
            forall|e: int|
                !(0 <= e < entities as int && phys_subject(*old(cm), e)) ==> (old(cm).spec_has(
                    ComponentKind::Transform,
                    e,
                ) ==> final(cm).spec_transform(e) == old(cm).spec_transform(e)) && (old(
                    cm,
                ).spec_has(ComponentKind::Rigidbody, e) ==> final(cm).spec_rigidbody(e) == old(
                    cm,
                ).spec_rigidbody(e)),
    {
        let mut entity: usize = 0;
        while entity < entities
            invariant
                cm.wf(),
                entity <= entities,
                forall|k: ComponentKind| cm.registered(k) <==> old(cm).registered(k),
                forall|k: ComponentKind, e: int| cm.spec_has(k, e) <==> old(cm).spec_has(k, e),
                forall|k: ComponentKind|
                    k != ComponentKind::Transform && k != ComponentKind::Rigidbody
                        ==> #[trigger] cm.list_of(k) == old(cm).list_of(k),
                forall|e: int|
                    0 <= e < entity as int && phys_subject(*old(cm), e) ==> cm.spec_rigidbody(e)
                        == (Rigidbody {
                        vel: phys_new_vel(*old(cm), e),
                        accel: old(cm).spec_rigidbody(e).accel,
                    }) && cm.spec_transform(e) == (Transform { pos: phys_new_pos(*old(cm), e) }),
                forall|e: int|
                    !(0 <= e < entity as int && phys_subject(*old(cm), e)) ==> (old(cm).spec_has(
                        ComponentKind::Transform,
                        e,
                    ) ==> cm.spec_transform(e) == old(cm).spec_transform(e)) && (old(cm).spec_has(
                        ComponentKind::Rigidbody,
                        e,
                    ) ==> cm.spec_rigidbody(e) == old(cm).spec_rigidbody(e)),
            decreases entities - entity,
        {
            let has_transform_component = cm.entity_has_component(
                entity,
                ComponentKind::Transform,
            );
            let has_rigidbody_component = cm.entity_has_component(
                entity,
                ComponentKind::Rigidbody,
            );
            let has_gravity_component = cm.entity_has_component(entity, ComponentKind::Gravity);

            if has_transform_component && has_rigidbody_component && has_gravity_component {
                let transform = cm.get_transform(entity).unwrap();
                let rigidbody = cm.get_rigidbody(entity).unwrap();
                let gravity = cm.get_gravity(entity).unwrap();

                let new_velocity = Vector2::new(
                    rigidbody.vel.x,
                    rigidbody.vel.y.sub(gravity.0),
                );
                let new_position = Vector2::new(
                    transform.pos.x.add(rigidbody.vel.x),
                    transform.pos.y.add(rigidbody.vel.y),
                );

                cm.set_rigidbody(entity, Rigidbody { vel: new_velocity, accel: rigidbody.accel });
                cm.set_transform(entity, Transform { pos: new_position });
            }
            entity = entity + 1;
        }
    }
}

} // verus!
