//! Axis-aligned bounding boxes, their overlap test, and the collision system
//! that syncs boxes to positions and resolves axis-separated sweeps.
use vstd::prelude::*;

use crate::component::{ComponentKind, ComponentManager};
use crate::draw::{Color, DrawCmd, DrawMode, Rect};
use crate::fixed::{fx_add, fx_mul, fx_sub, Fixed};
use crate::rigidbody::Rigidbody;
use crate::transform::Transform;
use crate::vector2::Vector2;

verus! {

/// An axis-aligned box: origin and extent.
#[derive(Clone, Copy, PartialEq, Eq, Structural, Debug)]
pub struct AABB {
    pub x: Fixed,
    pub y: Fixed,
    pub w: Fixed,
    pub h: Fixed,
}

/// Strict axis-aligned overlap of two boxes. Each box must reach strictly
/// past the other's near edge on both axes, so boxes that merely touch along
/// an edge do not overlap.
pub open spec fn aabb_overlap(a: AABB, b: AABB) -> bool {
    &&& (a.x.raw as int) < fx_add(b.x.raw as int, b.w.raw as int)
    &&& fx_add(a.x.raw as int, a.w.raw as int) > b.x.raw as int
    &&& (a.y.raw as int) < fx_add(b.y.raw as int, b.h.raw as int)
    &&& fx_add(a.y.raw as int, a.h.raw as int) > b.y.raw as int
}

/// The overlap test does not depend on argument order: each conjunct of
/// `aabb_overlap(a, b)` reappears in `aabb_overlap(b, a)` with the comparison
/// flipped.
pub proof fn lemma_overlap_symmetric(a: AABB, b: AABB)
    ensures
        aabb_overlap(a, b) == aabb_overlap(b, a),
{
}

/// Boxes that merely touch along an edge report no overlap: when `a`'s right
/// edge sits exactly on `b`'s left edge, the strict comparison fails.
pub proof fn lemma_touching_edges_no_overlap(a: AABB, b: AABB)
    requires
        fx_add(a.x.raw as int, a.w.raw as int) == b.x.raw as int,
    ensures
        !aabb_overlap(a, b),
{
}

impl AABB {
    /// Whether this box strictly overlaps `b`.
    pub fn check(&self, b: AABB) -> (r: bool)
        ensures
            r == aabb_overlap(*self, b),
    {
        self.x.raw < b.x.add(b.w).raw && self.x.add(self.w).raw > b.x.raw && self.y.raw < b.y.add(
            b.h,
        ).raw && self.y.add(self.h).raw > b.y.raw
    }

    /// The same box shifted by `dir`.
    pub fn translate(&self, dir: Vector2) -> (r: AABB)
        ensures
            r.x.raw == fx_add(self.x.raw as int, dir.x.raw as int),
            r.y.raw == fx_add(self.y.raw as int, dir.y.raw as int),
            r.w == self.w,
            r.h == self.h,
    {
        Self { x: self.x.add(dir.x), y: self.y.add(dir.y), w: self.w, h: self.h }
    }

    /// The same extent placed at `pos`.
    pub fn at(&self, pos: Vector2) -> (r: AABB)
        ensures
            r == (AABB { x: pos.x, y: pos.y, w: self.w, h: self.h }),
    {
        Self { x: pos.x, y: pos.y, w: self.w, h: self.h }
    }
}

/// The three tables the collision pass reads and writes, projected out of
/// the component registry: entity to transform, to rigidbody and to box.
pub ghost struct CollisionState {
    pub transforms: Map<int, Transform>,
    pub rigidbodies: Map<int, Rigidbody>,
    pub aabbs: Map<int, AABB>,
}

/// The collision-relevant tables of a registry.
pub open spec fn collision_state_of(cm: ComponentManager) -> CollisionState {
    CollisionState {
        transforms: Map::new(
            |e: int| cm.spec_has(ComponentKind::Transform, e),
            |e: int| cm.spec_transform(e),
        ),
        rigidbodies: Map::new(
            |e: int| cm.spec_has(ComponentKind::Rigidbody, e),
            |e: int| cm.spec_rigidbody(e),
        ),
        aabbs: Map::new(|e: int| cm.spec_has(ComponentKind::Aabb, e), |e: int| cm.spec_aabb(e)),
    }
}

/// The sync step for `i`: its box is re-anchored at its position, keeping the
/// extent.
pub open spec fn sync_box(s: CollisionState, i: int) -> CollisionState {
    let t = s.transforms[i];
    let a = s.aabbs[i];
    CollisionState {
        transforms: s.transforms,
        rigidbodies: s.rigidbodies,
        aabbs: s.aabbs.insert(i, AABB { x: t.pos.x, y: t.pos.y, w: a.w, h: a.h }),
    }
}

/// The velocity threshold that decides which side of the other box the
/// entity is anchored against, a tenth of a unit.
pub const COLLISION_VEL_THRESHOLD_RAW: i64 = 100;

/// Resolution of `i` against one other box `b`: each axis whose speculative
/// box overlaps `b` zeroes that velocity component; the position coordinate
/// is re-anchored to `b`'s near edge, against the travel side when the
/// pre-pass velocity exceeds the threshold, against the far side when it
/// falls below it, and not at all when it sits exactly on it.
pub open spec fn resolve_against(
    s: CollisionState,
    i: int,
    vel: Vector2,
    aabb: AABB,
    ax: AABB,
    ay: AABB,
    b: AABB,
) -> CollisionState {
    let sx = if aabb_overlap(ax, b) {
        let rb = s.rigidbodies[i];
        let t = s.transforms[i];
        let rigidbodies = s.rigidbodies.insert(
            i,
            Rigidbody { vel: Vector2 { x: Fixed { raw: 0 }, y: rb.vel.y }, accel: rb.accel },
        );
        let transforms = if vel.x.raw > COLLISION_VEL_THRESHOLD_RAW {
            s.transforms.insert(
                i,
                Transform {
                    pos: Vector2 {
                        x: Fixed { raw: fx_sub(b.x.raw as int, aabb.w.raw as int) as i64 },
                        y: t.pos.y,
                    },
                },
            )
        } else if vel.x.raw < COLLISION_VEL_THRESHOLD_RAW {
            s.transforms.insert(
                i,
                Transform {
                    pos: Vector2 {
                        x: Fixed { raw: fx_add(b.x.raw as int, b.w.raw as int) as i64 },
                        y: t.pos.y,
                    },
                },
            )
        } else {
            s.transforms
        };
        CollisionState { transforms, rigidbodies, aabbs: s.aabbs }
    } else {
        s
    };
    if aabb_overlap(ay, b) {
        let rb = sx.rigidbodies[i];
        let t = sx.transforms[i];
        let rigidbodies = sx.rigidbodies.insert(
            i,
            Rigidbody { vel: Vector2 { x: rb.vel.x, y: Fixed { raw: 0 } }, accel: rb.accel },
        );
        let transforms = if vel.y.raw > COLLISION_VEL_THRESHOLD_RAW {
            sx.transforms.insert(
                i,
                Transform {
                    pos: Vector2 {
                        x: t.pos.x,
                        y: Fixed { raw: fx_sub(b.y.raw as int, aabb.h.raw as int) as i64 },
                    },
                },
            )
        } else if vel.y.raw < COLLISION_VEL_THRESHOLD_RAW {
            sx.transforms.insert(
                i,
                Transform {
                    pos: Vector2 {
                        x: t.pos.x,
                        y: Fixed { raw: fx_add(b.y.raw as int, b.h.raw as int) as i64 },
                    },
                },
            )
        } else {
            sx.transforms
        };
        CollisionState { transforms, rigidbodies, aabbs: sx.aabbs }
    } else {
        sx
    }
}

/// Resolution of `i` against every other entity below `j`, in increasing
/// order, each read against the boxes of the snapshot `s`; a later overlap
/// overwrites an earlier anchor.
pub open spec fn resolve_below(
    s: CollisionState,
    i: int,
    vel: Vector2,
    aabb: AABB,
    ax: AABB,
    ay: AABB,
    j: int,
) -> CollisionState
    decreases j,
{
    if j <= 0 {
        s
    } else {
        let prev = resolve_below(s, i, vel, aabb, ax, ay, j - 1);
        if j - 1 == i {
            prev
        } else {
            resolve_against(prev, i, vel, aabb, ax, ay, s.aabbs[j - 1])
        }
    }
}

/// One entity's full collision step: box sync, then, if it can move, the
/// axis-separated sweep resolution against all other entities' boxes.
pub open spec fn collide_entity(s: CollisionState, i: int, n: int) -> CollisionState {
    if s.transforms.contains_key(i) && s.aabbs.contains_key(i) {
        let ss = sync_box(s, i);
        if s.rigidbodies.contains_key(i) {
            let t = s.transforms[i];
            let vel = s.rigidbodies[i].vel;
            let aabb = ss.aabbs[i];
            let ax = AABB {
                x: Fixed { raw: fx_add(t.pos.x.raw as int, vel.x.raw as int) as i64 },
                y: t.pos.y,
                w: aabb.w,
                h: aabb.h,
            };
            let ay = AABB {
                x: t.pos.x,
                y: Fixed { raw: fx_add(t.pos.y.raw as int, vel.y.raw as int) as i64 },
                w: aabb.w,
                h: aabb.h,
            };
            resolve_below(ss, i, vel, aabb, ax, ay, n)
        } else {
            ss
        }
    } else {
        s
    }
}

/// The collision pass over entities `0 .. i`, each processed in order on the
/// state the previous ones left.
pub open spec fn collide_pass(s: CollisionState, n: int, i: int) -> CollisionState
    decreases i,
{
    if i <= 0 {
        s
    } else {
        collide_entity(collide_pass(s, n, i - 1), i - 1, n)
    }
}

/// Every mover's sweep reads every other entity's box: whenever some entity
/// below `n` carries transform, rigidbody and box, every other entity below
/// `n` carries a box.
pub open spec fn boxes_cover_movers(cm: ComponentManager, n: int) -> bool {
    forall|i: int, e: int|
        0 <= i < n && 0 <= e < n && e != i && cm.spec_has(ComponentKind::Transform, i)
            && cm.spec_has(ComponentKind::Aabb, i) && cm.spec_has(ComponentKind::Rigidbody, i)
            ==> cm.spec_has(ComponentKind::Aabb, e)
}

/// Syncs each entity's box to its position and resolves movers against every
/// other box with an axis-separated sweep, once per frame.
pub struct CollisionSystem {}

impl Default for CollisionSystem {
    /// The system carries no configuration.
    fn default() -> Self {
        Self {  }
    }
}

impl CollisionSystem {
    /// One collision pass over entities `0 .. entities`: exactly the
    /// `collide_pass` fold over the transform, rigidbody and box tables;
    /// nothing else changes. Every mover's sweep reads every other entity's
    /// box, so whenever some entity below `entities` carries transform,
    /// rigidbody and box, all the others must carry a box.
    pub fn update(&self, entities: usize, cm: &mut ComponentManager)
        requires
            old(cm).wf(),
            boxes_cover_movers(*old(cm), entities as int),
        ensures
            final(cm).wf(),
            forall|k: ComponentKind| final(cm).registered(k) <==> old(cm).registered(k),
            forall|k: ComponentKind, e: int|
                final(cm).spec_has(k, e) <==> old(cm).spec_has(k, e),
            forall|k: ComponentKind|
                k != ComponentKind::Transform && k != ComponentKind::Rigidbody && k
                    != ComponentKind::Aabb ==> #[trigger] final(cm).list_of(k) == old(cm).list_of(
                    k,
                ),
            collision_state_of(*final(cm)) == collide_pass(
                collision_state_of(*old(cm)),
                entities as int,
                entities as int,
            ),
    {
        let ghost s0 = collision_state_of(*old(cm));
        let mut entity: usize = 0;
        while entity < entities
            invariant
                cm.wf(),
                entity <= entities,
                forall|k: ComponentKind| cm.registered(k) <==> old(cm).registered(k),
                forall|k: ComponentKind, e: int| cm.spec_has(k, e) <==> old(cm).spec_has(k, e),
                forall|k: ComponentKind|
                    k != ComponentKind::Transform && k != ComponentKind::Rigidbody && k
                        != ComponentKind::Aabb ==> #[trigger] cm.list_of(k) == old(cm).list_of(k),
                collision_state_of(*cm) == collide_pass(s0, entities as int, entity as int),
                s0 == collision_state_of(*old(cm)),
                boxes_cover_movers(*old(cm), entities as int),
            decreases entities - entity,
        {
            let ghost s_pre = collision_state_of(*cm);
            let has_transform_component = cm.entity_has_component(
                entity,
                ComponentKind::Transform,
            );
            let has_rigidbody_component = cm.entity_has_component(
                entity,
                ComponentKind::Rigidbody,
            );
            let has_aabb_component = cm.entity_has_component(entity, ComponentKind::Aabb);

            if has_transform_component && has_aabb_component {
                let transform = cm.get_transform(entity).unwrap();
                let prior = cm.get_aabb(entity).unwrap();
                let aabb = AABB {
                    x: transform.pos.x,
                    y: transform.pos.y,
                    w: prior.w,
                    h: prior.h,
                };
                cm.set_aabb(entity, aabb);
                proof {
                    assert(collision_state_of(*cm).transforms =~= sync_box(
                        s_pre,
                        entity as int,
                    ).transforms);
                    assert(collision_state_of(*cm).rigidbodies =~= sync_box(
                        s_pre,
                        entity as int,
                    ).rigidbodies);
                    assert(collision_state_of(*cm).aabbs =~= sync_box(s_pre, entity as int).aabbs);
                }

                if has_rigidbody_component {
                    let rigidbody = cm.get_rigidbody(entity).unwrap();
                    let vel = rigidbody.vel;

                    let new_position_x = Vector2::new(
                        transform.pos.x.add(vel.x),
                        transform.pos.y,
                    );
                    let new_position_y = Vector2::new(
                        transform.pos.x,
                        transform.pos.y.add(vel.y),
                    );

                    let aabb_x = aabb.at(new_position_x);
                    let aabb_y = aabb.at(new_position_y);

                    let ghost s1 = collision_state_of(*cm);

                    let mut e: usize = 0;
                    while e < entities
                        invariant
                            cm.wf(),
                            e <= entities,
                            entity < entities,
                            forall|k: ComponentKind| cm.registered(k) <==> old(cm).registered(k),
                            forall|k: ComponentKind, ee: int|
                                cm.spec_has(k, ee) <==> old(cm).spec_has(k, ee),
                            forall|k: ComponentKind|
                                k != ComponentKind::Transform && k != ComponentKind::Rigidbody && k
                                    != ComponentKind::Aabb ==> #[trigger] cm.list_of(k) == old(
                                    cm,
                                ).list_of(k),
                            collision_state_of(*cm) == resolve_below(
                                s1,
                                entity as int,
                                vel,
                                aabb,
                                aabb_x,
                                aabb_y,
                                e as int,
                            ),
                            collision_state_of(*cm).aabbs == s1.aabbs,
                            cm.spec_has(ComponentKind::Transform, entity as int),
                            cm.spec_has(ComponentKind::Rigidbody, entity as int),
                            cm.spec_has(ComponentKind::Aabb, entity as int),
                            old(cm).spec_has(ComponentKind::Transform, entity as int),
                            old(cm).spec_has(ComponentKind::Rigidbody, entity as int),
                            old(cm).spec_has(ComponentKind::Aabb, entity as int),
                            boxes_cover_movers(*old(cm), entities as int),
                        decreases entities - e,
                    {
                        let ghost s_iter = collision_state_of(*cm);
                        if e != entity {
                            let aabb_b = cm.get_aabb(e).unwrap();
                            proof {
                                assert(aabb_b == s1.aabbs[e as int]);
                            }

                            if aabb_x.check(aabb_b) {
                                let rb = cm.get_rigidbody(entity).unwrap();
                                cm.set_rigidbody(
                                    entity,
                                    Rigidbody {
                                        vel: Vector2::new(Fixed { raw: 0 }, rb.vel.y),
                                        accel: rb.accel,
                                    },
                                );

                                if vel.x.raw > COLLISION_VEL_THRESHOLD_RAW {
                                    let t = cm.get_transform(entity).unwrap();
                                    cm.set_transform(
                                        entity,
                                        Transform {
                                            pos: Vector2::new(aabb_b.x.sub(aabb.w), t.pos.y),
                                        },
                                    );
                                } else if vel.x.raw < COLLISION_VEL_THRESHOLD_RAW {
                                    let t = cm.get_transform(entity).unwrap();
                                    cm.set_transform(
                                        entity,
                                        Transform {
                                            pos: Vector2::new(aabb_b.x.add(aabb_b.w), t.pos.y),
                                        },
                                    );
                                }
                            }

                            if aabb_y.check(aabb_b) {
                                let rb = cm.get_rigidbody(entity).unwrap();
                                cm.set_rigidbody(
                                    entity,
                                    Rigidbody {
                                        vel: Vector2::new(rb.vel.x, Fixed { raw: 0 }),
                                        accel: rb.accel,
                                    },
                                );

                                if vel.y.raw > COLLISION_VEL_THRESHOLD_RAW {
                                    let t = cm.get_transform(entity).unwrap();
                                    cm.set_transform(
                                        entity,
                                        Transform {
                                            pos: Vector2::new(t.pos.x, aabb_b.y.sub(aabb.h)),
                                        },
                                    );
                                } else if vel.y.raw < COLLISION_VEL_THRESHOLD_RAW {
                                    let t = cm.get_transform(entity).unwrap();
                                    cm.set_transform(
                                        entity,
                                        Transform {
                                            pos: Vector2::new(t.pos.x, aabb_b.y.add(aabb_b.h)),
                                        },
                                    );
                                }
                            }

                            proof {
                                let stepped = resolve_against(
                                    s_iter,
                                    entity as int,
                                    vel,
                                    aabb,
                                    aabb_x,
                                    aabb_y,
                                    s1.aabbs[e as int],
                                );
                                assert(collision_state_of(*cm).transforms =~= stepped.transforms);
                                assert(collision_state_of(*cm).rigidbodies =~= stepped.rigidbodies);
                                assert(collision_state_of(*cm).aabbs =~= stepped.aabbs);
                            }
                        }
                        e = e + 1;
                    }
                }
            }
            proof {
                assert(collision_state_of(*cm) == collide_entity(
                    s_pre,
                    entity as int,
                    entities as int,
                ));
            }
            entity = entity + 1;
        }
    }

    /// The box-overlay pass: the stroked-rectangle commands for entities
    /// `0 .. entities`, in entity order.
    pub fn draw(&self, entities: usize, cm: &ComponentManager) -> (cmds: Vec<DrawCmd>)
        requires
            cm.wf(),
        ensures
            cmds@ == collision_draw_upto(*cm, entities as int),
    {
        let mut cmds: Vec<DrawCmd> = Vec::new();
        let mut entity: usize = 0;
        while entity < entities
            invariant
                cm.wf(),
                entity <= entities,
                cmds@ == collision_draw_upto(*cm, entity as int),
            decreases entities - entity,
        {
            let has_aabb_component = cm.entity_has_component(entity, ComponentKind::Aabb);
            if has_aabb_component {
                let aabb = cm.get_aabb(entity).unwrap();

                let rect = Rect { x: Fixed { raw: 0 }, y: Fixed { raw: 0 }, w: aabb.w, h: aabb.h };
                let pos = Vector2 {
                    x: aabb.x.sub(aabb.w.mul(Fixed { raw: 500 })),
                    y: aabb.y.sub(aabb.h.mul(Fixed { raw: 500 })),
                };
                cmds.push(
                    DrawCmd {
                        mode: DrawMode::Stroke(Fixed { raw: GIZMO_STROKE_WIDTH_RAW }),
                        rect,
                        color: Color::red(),
                        dest: pos,
                    },
                );
            }
            entity = entity + 1;
        }
        cmds
    }
}

/// The stroke width of the box overlay, 3.2 units.
pub const GIZMO_STROKE_WIDTH_RAW: i64 = 3200;

/// The draw call for one box overlay: a red stroked rectangle of the box's
/// extent, destined so the rectangle is centred on the box's origin.
pub open spec fn gizmo_cmd(a: AABB) -> DrawCmd {
    DrawCmd {
        mode: DrawMode::Stroke(Fixed { raw: GIZMO_STROKE_WIDTH_RAW }),
        rect: Rect { x: Fixed { raw: 0 }, y: Fixed { raw: 0 }, w: a.w, h: a.h },
        color: Color { r: 255, g: 0, b: 0, a: 255 },
        dest: Vector2 {
            x: Fixed { raw: fx_sub(a.x.raw as int, fx_mul(a.w.raw as int, 500)) as i64 },
            y: Fixed { raw: fx_sub(a.y.raw as int, fx_mul(a.h.raw as int, 500)) as i64 },
        },
    }
}

/// The box-overlay pass over entities `0 .. n`: one gizmo command per entity
/// that carries a box, in entity order.
pub open spec fn collision_draw_upto(cm: ComponentManager, n: int) -> Seq<DrawCmd>
    decreases n,
{
    if n <= 0 {
        Seq::empty()
    } else {
        let prefix = collision_draw_upto(cm, n - 1);
        if cm.spec_has(ComponentKind::Aabb, n - 1) {
            prefix.push(gizmo_cmd(cm.spec_aabb(n - 1)))
        } else {
            prefix
        }
    }
}

impl Default for AABB {
    /// A 32-by-32 box at the origin.
    fn default() -> (r: Self)
        ensures
            r.x.raw == 0,
            r.y.raw == 0,
            r.w.raw == 32 * 1000,
            r.h.raw == 32 * 1000,
    {
        Self {
            x: Fixed { raw: 0 },
            y: Fixed { raw: 0 },
            w: Fixed { raw: 32 * 1000 },
            h: Fixed { raw: 32 * 1000 },
        }
    }
}

} // verus!
