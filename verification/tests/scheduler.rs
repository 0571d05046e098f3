//! Scheduler behaviour: registration order, one frame's update-then-draw.
use ecs_core::component::{ComponentManager, ComponentValue};
use ecs_core::draw::{DrawCmd, DrawMode};
use ecs_core::fixed::Fixed;
use ecs_core::gravity::Gravity;
use ecs_core::movement::{FrameInput, InputState, Movement};
use ecs_core::rigidbody::Rigidbody;
use ecs_core::sprite::Sprite;
use ecs_core::system::{SystemKind, SystemManager};
use ecs_core::transform::Transform;
use ecs_core::vector2::Vector2;

fn v2(x: i64, y: i64) -> Vector2 {
    Vector2 { x: Fixed { raw: x }, y: Fixed { raw: y } }
}

fn quiet_frame() -> FrameInput {
    FrameInput { keys: InputState::released(), dt: Fixed { raw: 17 } }
}

#[test]
fn register_system_keeps_insertion_order_without_duplicates() {
    let mut sm = SystemManager::new();
    sm.register_system(SystemKind::Physics);
    sm.register_system(SystemKind::Movement);
    sm.register_system(SystemKind::Render);
    sm.register_system(SystemKind::Physics);
    assert_eq!(sm.systems.len(), 3);
    assert_eq!(sm.systems[0], SystemKind::Physics);
    assert_eq!(sm.systems[1], SystemKind::Movement);
    assert_eq!(sm.systems[2], SystemKind::Render);
    assert_eq!(sm.get_system(SystemKind::Movement), Some(1));
    assert_eq!(sm.get_system(SystemKind::Collision), None);
}

#[test]
fn one_update_runs_every_system_in_order() {
    // physics runs before movement in registration order: gravity shapes the
    // velocity first, then the damper pulls it toward rest
    let mut sm = SystemManager::new();
    sm.register_system(SystemKind::Physics);
    sm.register_system(SystemKind::Movement);

    let mut cm = ComponentManager::new();
    let e = sm.entity_system.create_entity();
    cm.add_component(e.0, ComponentValue::Transform(Transform { pos: v2(0, 0) }));
    cm.add_component(
        e.0,
        ComponentValue::Rigidbody(Rigidbody { vel: v2(2000, 1000), accel: v2(0, 0) }),
    );
    cm.add_component(e.0, ComponentValue::Gravity(Gravity(Fixed { raw: 500 })));
    cm.add_component(e.0, ComponentValue::Movement(Movement::default()));

    sm.update(&quiet_frame(), &mut cm);

    // physics: vel (2, 0.5), pos (2, 1); movement then damps vel toward rest
    let t = cm.get_transform(0).unwrap();
    assert_eq!(t.pos.x.raw, 2000);
    assert_eq!(t.pos.y.raw, 1000);
    let rb = cm.get_rigidbody(0).unwrap();
    assert_eq!(rb.vel.x.raw, 1388);
    assert_eq!(rb.vel.y.raw, 347);
}

#[test]
fn frame_updates_every_system_before_any_draw() {
    // the sprite command of one frame reads the position physics just wrote
    let mut sm = SystemManager::new();
    sm.register_system(SystemKind::Physics);
    sm.register_system(SystemKind::Render);

    let mut cm = ComponentManager::new();
    let e = sm.entity_system.create_entity();
    cm.add_component(e.0, ComponentValue::Transform(Transform { pos: v2(0, 0) }));
    cm.add_component(
        e.0,
        ComponentValue::Rigidbody(Rigidbody { vel: v2(2000, 1000), accel: v2(0, 0) }),
    );
    cm.add_component(e.0, ComponentValue::Gravity(Gravity(Fixed { raw: 500 })));
    cm.add_component(e.0, ComponentValue::Sprite(Sprite::default()));

    let cmds: Vec<DrawCmd> = sm.frame(&quiet_frame(), &mut cm);

    assert_eq!(cmds.len(), 1);
    let cmd = &cmds[0];
    assert!(matches!(cmd.mode, DrawMode::Fill));
    // destination centres the 32-by-32 sprite on the post-update (2, 1)
    assert_eq!(cmd.dest.x.raw, 2000 - 16_000);
    assert_eq!(cmd.dest.y.raw, 1000 - 16_000);
    assert_eq!(cmd.rect.w.raw, 32_000);
}

#[test]
fn frame_with_collision_clamps_then_draws_synced_boxes() {
    let mut sm = SystemManager::new();
    sm.register_system(SystemKind::Collision);
    sm.register_system(SystemKind::Render);

    let mut cm = ComponentManager::new();
    let mover = sm.entity_system.create_entity();
    cm.add_component(mover.0, ComponentValue::Transform(Transform { pos: v2(0, 0) }));
    cm.add_component(
        mover.0,
        ComponentValue::Rigidbody(Rigidbody { vel: v2(10_000, 0), accel: v2(0, 0) }),
    );
    cm.add_component(mover.0, ComponentValue::Aabb(ecs_core::aabb::AABB::default()));
    let wall = sm.entity_system.create_entity();
    cm.add_component(wall.0, ComponentValue::Transform(Transform { pos: v2(40_000, 0) }));
    cm.add_component(
        wall.0,
        ComponentValue::Aabb(ecs_core::aabb::AABB {
            x: Fixed { raw: 40_000 },
            y: Fixed { raw: 0 },
            w: Fixed { raw: 32_000 },
            h: Fixed { raw: 32_000 },
        }),
    );

    let cmds = sm.frame(&quiet_frame(), &mut cm);

    // the mover stops against the wall
    assert_eq!(cm.get_rigidbody(0).unwrap().vel.x.raw, 0);
    assert_eq!(cm.get_transform(0).unwrap().pos.x.raw, 8000);
    // the overlay draws both boxes at their synced, pre-resolution anchors
    assert_eq!(cmds.len(), 2);
    assert_eq!(cmds[0].dest.x.raw, -16_000);
    assert_eq!(cmds[1].dest.x.raw, 40_000 - 16_000);
}

#[test]
fn draw_concatenates_in_registration_order() {
    let mut sm = SystemManager::new();
    sm.register_system(SystemKind::Render);
    sm.register_system(SystemKind::Collision);

    let mut cm = ComponentManager::new();
    let e = sm.entity_system.create_entity();
    cm.add_component(e.0, ComponentValue::Transform(Transform { pos: v2(0, 0) }));
    cm.add_component(e.0, ComponentValue::Sprite(Sprite::default()));
    cm.add_component(
        e.0,
        ComponentValue::Aabb(ecs_core::aabb::AABB::default()),
    );

    let cmds = sm.draw(&cm);
    assert_eq!(cmds.len(), 2);
    assert!(matches!(cmds[0].mode, DrawMode::Fill));
    assert!(matches!(cmds[1].mode, DrawMode::Stroke(_)));
    // the box overlay carries the 3.2 stroke width
    match cmds[1].mode {
        DrawMode::Stroke(wd) => assert_eq!(wd.raw, 3200),
        DrawMode::Fill => unreachable!(),
    }
}
