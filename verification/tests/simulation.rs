//! Physics, collision and damped-interpolation scenarios.
use ecs_core::aabb::{CollisionSystem, AABB};
use ecs_core::component::{ComponentManager, ComponentValue};
use ecs_core::fixed::Fixed;
use ecs_core::gravity::Gravity;
use ecs_core::movement::{FrameInput, InputState, MovementSystem};
use ecs_core::physics::PhysicsSystem;
use ecs_core::rigidbody::Rigidbody;
use ecs_core::transform::Transform;
use ecs_core::vector2::Vector2;

fn v2(x: i64, y: i64) -> Vector2 {
    Vector2 { x: Fixed { raw: x }, y: Fixed { raw: y } }
}

fn boxed(x: i64, y: i64, w: i64, h: i64) -> AABB {
    AABB { x: Fixed { raw: x }, y: Fixed { raw: y }, w: Fixed { raw: w }, h: Fixed { raw: h } }
}

#[test]
fn physics_step_integrates_gravity_then_position() {
    // pos (0,0), vel (2,1), gravity 0.5: one step gives vel (2, 0.5) and
    // pos (2,1), the position advanced by the pre-gravity velocity
    let mut cm = ComponentManager::new();
    cm.add_component(0, ComponentValue::Transform(Transform { pos: v2(0, 0) }));
    cm.add_component(
        0,
        ComponentValue::Rigidbody(Rigidbody { vel: v2(2000, 1000), accel: v2(0, 0) }),
    );
    cm.add_component(0, ComponentValue::Gravity(Gravity(Fixed { raw: 500 })));

    let physics = PhysicsSystem::default();
    physics.update(1, &mut cm);

    let rb = cm.get_rigidbody(0).unwrap();
    assert_eq!(rb.vel.x.raw, 2000);
    assert_eq!(rb.vel.y.raw, 500);
    let t = cm.get_transform(0).unwrap();
    assert_eq!(t.pos.x.raw, 2000);
    assert_eq!(t.pos.y.raw, 1000);
}

#[test]
fn physics_skips_entities_missing_a_component() {
    let mut cm = ComponentManager::new();
    cm.add_component(0, ComponentValue::Transform(Transform { pos: v2(7, 7) }));
    cm.add_component(
        0,
        ComponentValue::Rigidbody(Rigidbody { vel: v2(1000, 0), accel: v2(0, 0) }),
    );
    // no gravity: nothing moves
    let physics = PhysicsSystem::default();
    physics.update(1, &mut cm);
    assert_eq!(cm.get_transform(0).unwrap().pos.x.raw, 7);
    assert_eq!(cm.get_rigidbody(0).unwrap().vel.x.raw, 1000);
}

#[test]
fn collision_clamps_mover_against_other_box() {
    // two 32-by-32 boxes at (0,0) and (40,0); entity 0 runs right at 10:
    // its x-velocity is zeroed and its x lands on 40 - 32 = 8
    let mut cm = ComponentManager::new();
    cm.add_component(0, ComponentValue::Transform(Transform { pos: v2(0, 0) }));
    cm.add_component(
        0,
        ComponentValue::Rigidbody(Rigidbody { vel: v2(10_000, 0), accel: v2(0, 0) }),
    );
    cm.add_component(0, ComponentValue::Aabb(boxed(0, 0, 32_000, 32_000)));
    cm.add_component(1, ComponentValue::Transform(Transform { pos: v2(40_000, 0) }));
    cm.add_component(1, ComponentValue::Aabb(boxed(40_000, 0, 32_000, 32_000)));

    let collision = CollisionSystem::default();
    collision.update(2, &mut cm);

    let rb = cm.get_rigidbody(0).unwrap();
    assert_eq!(rb.vel.x.raw, 0);
    assert_eq!(rb.vel.y.raw, 0);
    let t = cm.get_transform(0).unwrap();
    assert_eq!(t.pos.x.raw, 8000);
    assert_eq!(t.pos.y.raw, 0);
    // the still entity is untouched
    assert_eq!(cm.get_transform(1).unwrap().pos.x.raw, 40_000);
}

#[test]
fn collision_without_overlap_changes_nothing() {
    let mut cm = ComponentManager::new();
    cm.add_component(0, ComponentValue::Transform(Transform { pos: v2(0, 0) }));
    cm.add_component(
        0,
        ComponentValue::Rigidbody(Rigidbody { vel: v2(1000, 0), accel: v2(0, 0) }),
    );
    cm.add_component(0, ComponentValue::Aabb(boxed(0, 0, 32_000, 32_000)));
    cm.add_component(1, ComponentValue::Transform(Transform { pos: v2(500_000, 0) }));
    cm.add_component(1, ComponentValue::Aabb(boxed(500_000, 0, 32_000, 32_000)));

    let collision = CollisionSystem::default();
    collision.update(2, &mut cm);

    assert_eq!(cm.get_rigidbody(0).unwrap().vel.x.raw, 1000);
    assert_eq!(cm.get_transform(0).unwrap().pos.x.raw, 0);
}

#[test]
fn collision_sync_anchors_box_to_position() {
    let mut cm = ComponentManager::new();
    cm.add_component(0, ComponentValue::Transform(Transform { pos: v2(9000, 4000) }));
    cm.add_component(0, ComponentValue::Aabb(boxed(0, 0, 32_000, 32_000)));

    let collision = CollisionSystem::default();
    collision.update(1, &mut cm);

    let a = cm.get_aabb(0).unwrap();
    assert_eq!(a.x.raw, 9000);
    assert_eq!(a.y.raw, 4000);
    assert_eq!(a.w.raw, 32_000);
}

#[test]
fn smooth_damp_approaches_without_overshoot() {
    // from rest at 0 toward 100 with the 0.03 damping time and a 17 ms frame:
    // x climbs strictly until the overshoot clamp holds it, never past 100
    let target = Vector2 { x: Fixed { raw: 100_000 }, y: Fixed { raw: 0 } };
    let t = Fixed { raw: 30 };
    let dt = Fixed { raw: 17 };
    let mut cur = Vector2::zero();
    let mut previous: i64 = 0;
    let mut climbing = true;
    for step in 0..20 {
        let r = cur.smooth_damp(cur, target, t, dt);
        assert_eq!(r.x.raw, cur.x.raw);
        assert!(r.x.raw <= 100_000);
        if step == 0 {
            assert_eq!(r.x.raw, 31_094);
        }
        if climbing && r.x.raw == previous {
            climbing = false;
        }
        if climbing {
            assert!(r.x.raw > previous);
        } else {
            // once the clamp holds, the value stays put
            assert_eq!(r.x.raw, previous);
        }
        previous = r.x.raw;
    }
    assert!(!climbing);
    assert_eq!(previous, 96_287);
}

#[test]
fn movement_damps_velocity_toward_key_target() {
    let mut cm = ComponentManager::new();
    cm.add_component(
        0,
        ComponentValue::Rigidbody(Rigidbody { vel: v2(0, 0), accel: v2(0, 0) }),
    );
    cm.add_component(0, ComponentValue::Movement(ecs_core::movement::Movement::default()));

    let mut keys = InputState::released();
    keys.key_d = true;
    let input = FrameInput { keys, dt: Fixed { raw: 17 } };

    let movement = MovementSystem::default();
    movement.update(&input, 1, &mut cm);

    // target is 1 * 512 * 0.017 = 8.704; one damped step from rest lands at 2.707
    let rb = cm.get_rigidbody(0).unwrap();
    assert_eq!(rb.vel.x.raw, 2707);
    assert_eq!(rb.vel.y.raw, 0);
}

#[test]
fn movement_with_no_keys_keeps_resting_velocity() {
    let mut cm = ComponentManager::new();
    cm.add_component(
        0,
        ComponentValue::Rigidbody(Rigidbody { vel: v2(0, 0), accel: v2(0, 0) }),
    );
    cm.add_component(0, ComponentValue::Movement(ecs_core::movement::Movement::default()));
    let input = FrameInput { keys: InputState::released(), dt: Fixed { raw: 17 } };
    let movement = MovementSystem::default();
    movement.update(&input, 1, &mut cm);
    assert_eq!(cm.get_rigidbody(0).unwrap().vel.x.raw, 0);
    assert_eq!(cm.get_rigidbody(0).unwrap().vel.y.raw, 0);
}
