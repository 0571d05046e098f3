//! The system registry and scheduler: an insertion-ordered collection of the
//! closed set of systems, run once per frame for update and once for draw.
use vstd::prelude::*;

use crate::aabb::{
    boxes_cover_movers, collide_pass, collision_draw_upto, collision_state_of, CollisionState,
    CollisionSystem, AABB,
};
use crate::component::{ComponentKind, ComponentManager};
use crate::draw::DrawCmd;
use crate::entity::EntitySystem;
use crate::gravity::Gravity;
use crate::movement::{damped_vel, FrameInput, Movement, MovementSystem};
use crate::physics::{integrate_pos, integrate_vel, PhysicsSystem};
use crate::rigidbody::Rigidbody;
use crate::sprite::{render_draw_upto, RenderSystem, Sprite};
use crate::transform::Transform;

verus! {

/// The closed set of systems the scheduler can run.
#[derive(Clone, Copy, PartialEq, Eq, Structural, Debug)]
pub enum SystemKind {
    Physics,
    Movement,
    Render,
    Collision,
}

/// All component tables of a registry projected to maps: what one frame's
/// updates read and write.
pub ghost struct WorldView {
    pub transforms: Map<int, Transform>,
    pub rigidbodies: Map<int, Rigidbody>,
    pub gravities: Map<int, Gravity>,
    pub movements: Map<int, Movement>,
    pub sprites: Map<int, Sprite>,
    pub aabbs: Map<int, AABB>,
}

/// The component tables of a registry.
pub open spec fn world_of(cm: ComponentManager) -> WorldView {
    WorldView {
        transforms: Map::new(
            |e: int| cm.spec_has(ComponentKind::Transform, e),
            |e: int| cm.spec_transform(e),
        ),
        rigidbodies: Map::new(
            |e: int| cm.spec_has(ComponentKind::Rigidbody, e),
            |e: int| cm.spec_rigidbody(e),
        ),
        gravities: Map::new(
            |e: int| cm.spec_has(ComponentKind::Gravity, e),
            |e: int| cm.spec_gravity(e),
        ),
        movements: Map::new(
            |e: int| cm.spec_has(ComponentKind::Movement, e),
            |e: int| cm.spec_movement(e),
        ),
        sprites: Map::new(
            |e: int| cm.spec_has(ComponentKind::Sprite, e),
            |e: int| cm.spec_sprite(e),
        ),
        aabbs: Map::new(|e: int| cm.spec_has(ComponentKind::Aabb, e), |e: int| cm.spec_aabb(e)),
    }
}

/// Whether the physics step acts on `e` in a world of `n` entities.
pub open spec fn phys_world_subject(w: WorldView, e: int, n: int) -> bool {
    0 <= e < n && w.transforms.contains_key(e) && w.rigidbodies.contains_key(e)
        && w.gravities.contains_key(e)
}

/// The physics pass over a world: every subject entity gets the integrated
/// position and velocity; everything else is kept.
pub open spec fn phys_step_world(w: WorldView, n: int) -> WorldView {
    WorldView {
        transforms: Map::new(
            |e: int| w.transforms.contains_key(e),
            |e: int|
                if phys_world_subject(w, e, n) {
                    Transform { pos: integrate_pos(w.transforms[e], w.rigidbodies[e]) }
                } else {
                    w.transforms[e]
                },
        ),
        rigidbodies: Map::new(
            |e: int| w.rigidbodies.contains_key(e),
            |e: int|
                if phys_world_subject(w, e, n) {
                    Rigidbody {
                        vel: integrate_vel(w.rigidbodies[e], w.gravities[e]),
                        accel: w.rigidbodies[e].accel,
                    }
                } else {
                    w.rigidbodies[e]
                },
        ),
        gravities: w.gravities,
        movements: w.movements,
        sprites: w.sprites,
        aabbs: w.aabbs,
    }
}

/// Whether the movement step acts on `e` in a world of `n` entities.
pub open spec fn move_world_subject(w: WorldView, e: int, n: int) -> bool {
    0 <= e < n && w.rigidbodies.contains_key(e) && w.movements.contains_key(e)
}

/// The movement pass over a world: every subject entity's velocity is damped
/// toward the input's target; everything else is kept.
pub open spec fn move_step_world(w: WorldView, input: FrameInput, n: int) -> WorldView {
    WorldView {
        transforms: w.transforms,
        rigidbodies: Map::new(
            |e: int| w.rigidbodies.contains_key(e),
            |e: int|
                if move_world_subject(w, e, n) {
                    Rigidbody {
                        vel: damped_vel(w.rigidbodies[e], w.movements[e], input),
                        accel: w.rigidbodies[e].accel,
                    }
                } else {
                    w.rigidbodies[e]
                },
        ),
        gravities: w.gravities,
        movements: w.movements,
        sprites: w.sprites,
        aabbs: w.aabbs,
    }
}

/// The collision pass over a world: the `collide_pass` fold over its
/// transform, rigidbody and box tables; everything else is kept.
pub open spec fn collide_step_world(w: WorldView, n: int) -> WorldView {
    let cs = collide_pass(
        CollisionState { transforms: w.transforms, rigidbodies: w.rigidbodies, aabbs: w.aabbs },
        n,
        n,
    );
    WorldView {
        transforms: cs.transforms,
        rigidbodies: cs.rigidbodies,
        gravities: w.gravities,
        movements: w.movements,
        sprites: w.sprites,
        aabbs: cs.aabbs,
    }
}

/// What one system's update does to a world of `n` entities: the render pass
/// mutates nothing.
pub open spec fn system_step_world(k: SystemKind, input: FrameInput, n: int, w: WorldView) -> WorldView {
    match k {
        SystemKind::Physics => phys_step_world(w, n),
        SystemKind::Movement => move_step_world(w, input, n),
        SystemKind::Render => w,
        SystemKind::Collision => collide_step_world(w, n),
    }
}

/// The update pass of one frame: each registered system's step applied in
/// registration order.
pub open spec fn sched_update_fold(
    systems: Seq<SystemKind>,
    input: FrameInput,
    n: int,
    w: WorldView,
) -> WorldView
    decreases systems.len(),
{
    if systems.len() == 0 {
        w
    } else {
        system_step_world(
            systems.last(),
            input,
            n,
            sched_update_fold(systems.drop_last(), input, n, w),
        )
    }
}

/// The commands one system's draw pass yields over `n` entities: only the
/// render pass and the box overlay draw.
pub open spec fn system_draw(k: SystemKind, cm: ComponentManager, n: int) -> Seq<DrawCmd> {
    match k {
        SystemKind::Render => render_draw_upto(cm, n),
        SystemKind::Collision => collision_draw_upto(cm, n),
        _ => Seq::<DrawCmd>::empty(),
    }
}

/// The draw pass of one frame: each registered system's commands, in
/// registration order.
pub open spec fn sched_draw_fold(systems: Seq<SystemKind>, cm: ComponentManager, n: int) -> Seq<
    DrawCmd,
>
    decreases systems.len(),
{
    if systems.len() == 0 {
        Seq::<DrawCmd>::empty()
    } else {
        sched_draw_fold(systems.drop_last(), cm, n) + system_draw(systems.last(), cm, n)
    }
}

/// Owns the entity allocator and the ordered collection of systems. Systems
/// run in registration order: update on every one, then draw on every one.
pub struct SystemManager {
    pub entity_system: EntitySystem,
    pub systems: Vec<SystemKind>,
}

impl SystemManager {
    /// A fresh scheduler: no entities, no systems.
    pub fn new() -> (r: Self)
        ensures
            r.entity_system.entities == 0,
            r.systems@ == Seq::<SystemKind>::empty(),
    {
        Self { entity_system: EntitySystem::new(), systems: Vec::new() }
    }

    /// Registers `kind` at the end of the run order; a kind already
    /// registered keeps its place and is not duplicated.
    pub fn register_system(&mut self, kind: SystemKind)
        ensures
            final(self).entity_system == old(self).entity_system,
            final(self).systems@ == if old(self).systems@.contains(kind) {
                old(self).systems@
            } else {
                old(self).systems@.push(kind)
            },
    {
        let n = self.systems.len();
        let mut i: usize = 0;
        while i < n
            invariant
                *self == *old(self),
                n == self.systems@.len(),
                i <= n,
                forall|j: int| 0 <= j < i as int ==> self.systems@[j] != kind,
            decreases n - i,
        {
            if self.systems[i] == kind {
                return ;
            }
            i = i + 1;
        }
        self.systems.push(kind);
    }

    /// The position of `kind` in the run order, absent if it was never
    /// registered.
    pub fn get_system(&self, kind: SystemKind) -> (r: Option<usize>)
        ensures
            match r {
                Some(i) => i < self.systems@.len() && self.systems@[i as int] == kind,
                None => !self.systems@.contains(kind),
            },
    {
        let n = self.systems.len();
        let mut i: usize = 0;
        while i < n
            invariant
                n == self.systems@.len(),
                i <= n,
                forall|j: int| 0 <= j < i as int ==> self.systems@[j] != kind,
            decreases n - i,
        {
            if self.systems[i] == kind {
                return Some(i);
            }
            i = i + 1;
        }
        None
    }

    /// One update pass: every registered system's update runs in registration
    /// order over the live entity count, so the final tables are exactly the
    /// fold of the systems' steps.
    pub fn update(&self, input: &FrameInput, cm: &mut ComponentManager)
        requires
            old(cm).wf(),
            input.dt.raw >= 0,
            self.systems@.contains(SystemKind::Collision) ==> boxes_cover_movers(
                *old(cm),
                self.entity_system.entities as int,
            ),
        ensures
            final(cm).wf(),
            forall|k: ComponentKind| final(cm).registered(k) <==> old(cm).registered(k),
            forall|k: ComponentKind, e: int|
                final(cm).spec_has(k, e) <==> old(cm).spec_has(k, e),
            world_of(*final(cm)) == sched_update_fold(
                self.systems@,
                *input,
                self.entity_system.entities as int,
                world_of(*old(cm)),
            ),
    {
        let entities = self.entity_system.entities;
        let n = self.systems.len();
        let mut idx: usize = 0;
        while idx < n
            invariant
                cm.wf(),
                idx <= n,
                n == self.systems@.len(),
                entities == self.entity_system.entities,
                input.dt.raw >= 0,
                forall|k: ComponentKind| cm.registered(k) <==> old(cm).registered(k),
                forall|k: ComponentKind, e: int| cm.spec_has(k, e) <==> old(cm).spec_has(k, e),
                self.systems@.contains(SystemKind::Collision) ==> boxes_cover_movers(
                    *old(cm),
                    entities as int,
                ),
                world_of(*cm) == sched_update_fold(
                    self.systems@.take(idx as int),
                    *input,
                    entities as int,
                    world_of(*old(cm)),
                ),
            decreases n - idx,
        {
            let ghost w_prev = world_of(*cm);
            let ghost cm_pre = *cm;
            let kind = self.systems[idx];
            match kind {
                SystemKind::Physics => {
                    let s = PhysicsSystem {  };
                    s.update(entities, cm);
                    proof {
                        let stepped = phys_step_world(w_prev, entities as int);
                        assert(world_of(*cm).transforms =~= stepped.transforms);
                        assert(world_of(*cm).rigidbodies =~= stepped.rigidbodies);
                        assert(world_of(*cm).gravities =~= stepped.gravities);
                        assert(world_of(*cm).movements =~= stepped.movements);
                        assert(world_of(*cm).sprites =~= stepped.sprites);
                        assert(world_of(*cm).aabbs =~= stepped.aabbs);
                    }
                },
                SystemKind::Movement => {
                    let s = MovementSystem {  };
                    s.update(input, entities, cm);
                    proof {
                        let stepped = move_step_world(w_prev, *input, entities as int);
                        assert(world_of(*cm).transforms =~= stepped.transforms);
                        assert(world_of(*cm).rigidbodies =~= stepped.rigidbodies);
                        assert(world_of(*cm).gravities =~= stepped.gravities);
                        assert(world_of(*cm).movements =~= stepped.movements);
                        assert(world_of(*cm).sprites =~= stepped.sprites);
                        assert(world_of(*cm).aabbs =~= stepped.aabbs);
                    }
                },
                SystemKind::Render => {
                    let s = RenderSystem {  };
                    s.update(entities, cm);
                },
                SystemKind::Collision => {
                    proof {
                        assert(self.systems@.contains(SystemKind::Collision)) by {
                            assert(self.systems@[idx as int] == SystemKind::Collision);
                        }
                        assert(boxes_cover_movers(*cm, entities as int));
                    }
                    let s = CollisionSystem {  };
                    s.update(entities, cm);
                    proof {
                        let snap = CollisionState {
                            transforms: w_prev.transforms,
                            rigidbodies: w_prev.rigidbodies,
                            aabbs: w_prev.aabbs,
                        };
                        assert(snap.transforms =~= collision_state_of(cm_pre).transforms);
                        assert(snap.rigidbodies =~= collision_state_of(cm_pre).rigidbodies);
                        assert(snap.aabbs =~= collision_state_of(cm_pre).aabbs);
                        assert(snap == collision_state_of(cm_pre));
                        let stepped = collide_step_world(w_prev, entities as int);
                        assert(world_of(*cm).transforms =~= collision_state_of(*cm).transforms);
                        assert(world_of(*cm).rigidbodies =~= collision_state_of(*cm).rigidbodies);
                        assert(world_of(*cm).aabbs =~= collision_state_of(*cm).aabbs);
                        assert(world_of(*cm).transforms == stepped.transforms);
                        assert(world_of(*cm).rigidbodies == stepped.rigidbodies);
                        assert(world_of(*cm).aabbs == stepped.aabbs);
                        assert(world_of(*cm).gravities =~= stepped.gravities);
                        assert(world_of(*cm).movements =~= stepped.movements);
                        assert(world_of(*cm).sprites =~= stepped.sprites);
                    }
                },
            }
            proof {
                assert(self.systems@.take(idx as int + 1).drop_last() =~= self.systems@.take(
                    idx as int,
                ));
                assert(self.systems@.take(idx as int + 1).last() == self.systems@[idx as int]);
                assert(world_of(*cm) == sched_update_fold(
                    self.systems@.take(idx as int + 1),
                    *input,
                    entities as int,
                    world_of(*old(cm)),
                ));
            }
            idx = idx + 1;
        }
        proof {
            assert(self.systems@.take(n as int) =~= self.systems@);
        }
    }

    /// One draw pass: every registered system's commands, concatenated in
    /// registration order; nothing is mutated.
    pub fn draw(&self, cm: &ComponentManager) -> (cmds: Vec<DrawCmd>)
        requires
            cm.wf(),
        ensures
            cmds@ == sched_draw_fold(self.systems@, *cm, self.entity_system.entities as int),
    {
        let entities = self.entity_system.entities;
        let n = self.systems.len();
        let mut cmds: Vec<DrawCmd> = Vec::new();
        let mut idx: usize = 0;
        while idx < n
            invariant
                cm.wf(),
                idx <= n,
                n == self.systems@.len(),
                entities == self.entity_system.entities,
                cmds@ == sched_draw_fold(self.systems@.take(idx as int), *cm, entities as int),
            decreases n - idx,
        {
            let kind = self.systems[idx];
            match kind {
                SystemKind::Render => {
                    let s = RenderSystem {  };
                    let mut v = s.draw(entities, cm);
                    cmds.append(&mut v);
                },
                SystemKind::Collision => {
                    let s = CollisionSystem {  };
                    let mut v = s.draw(entities, cm);
                    cmds.append(&mut v);
                },
                SystemKind::Physics => {
                },
                SystemKind::Movement => {
                },
            }
            proof {
                assert(self.systems@.take(idx as int + 1).drop_last() =~= self.systems@.take(
                    idx as int,
                ));
                assert(self.systems@.take(idx as int + 1).last() == self.systems@[idx as int]);
                assert(cmds@ =~= sched_draw_fold(
                    self.systems@.take(idx as int + 1),
                    *cm,
                    entities as int,
                ));
            }
            idx = idx + 1;
        }
        proof {
            assert(self.systems@.take(n as int) =~= self.systems@);
        }
        cmds
    }

    /// One whole frame: the update pass runs on every registered system
    /// before any draw command is computed, so the returned commands read the
    /// fully updated tables.
    pub fn frame(&self, input: &FrameInput, cm: &mut ComponentManager) -> (cmds: Vec<DrawCmd>)
        requires
            old(cm).wf(),
            input.dt.raw >= 0,
            self.systems@.contains(SystemKind::Collision) ==> boxes_cover_movers(
                *old(cm),
                self.entity_system.entities as int,
            ),
        ensures
            final(cm).wf(),
            world_of(*final(cm)) == sched_update_fold(
                self.systems@,
                *input,
                self.entity_system.entities as int,
                world_of(*old(cm)),
            ),
            cmds@ == sched_draw_fold(
                self.systems@,
                *final(cm),
                self.entity_system.entities as int,
            ),
    {
        self.update(input, cm);
        self.draw(cm)
    }
}

} // verus!
