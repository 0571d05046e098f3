//! Component storage behaviour: presence, round trips, overwrites, and the
//! entity allocator.
use ecs_core::component::{ComponentKind, ComponentList, ComponentManager, ComponentValue};
use ecs_core::entity::EntitySystem;
use ecs_core::fixed::Fixed;
use ecs_core::gravity::Gravity;
use ecs_core::transform::Transform;
use ecs_core::vector2::Vector2;

fn v2(x: i64, y: i64) -> Vector2 {
    Vector2 { x: Fixed { raw: x }, y: Fixed { raw: y } }
}

#[test]
fn has_is_false_before_any_add() {
    let cm = ComponentManager::new();
    assert!(!cm.entity_has_component(0, ComponentKind::Transform));
    assert!(!cm.entity_has_component(0, ComponentKind::Rigidbody));
    assert!(!cm.entity_has_component(0, ComponentKind::Gravity));
    assert!(!cm.entity_has_component(0, ComponentKind::Movement));
    assert!(!cm.entity_has_component(0, ComponentKind::Sprite));
    assert!(!cm.entity_has_component(0, ComponentKind::Aabb));
    assert!(!cm.entity_has_component(7, ComponentKind::Transform));
}

#[test]
fn has_is_true_immediately_after_add() {
    let mut cm = ComponentManager::new();
    cm.add_component(3, ComponentValue::Transform(Transform { pos: v2(1, 2) }));
    assert!(cm.entity_has_component(3, ComponentKind::Transform));
    // other entities and other kinds stay absent
    assert!(!cm.entity_has_component(2, ComponentKind::Transform));
    assert!(!cm.entity_has_component(3, ComponentKind::Gravity));
}

#[test]
fn get_after_add_round_trips() {
    let mut cm = ComponentManager::new();
    cm.add_component(5, ComponentValue::Transform(Transform { pos: v2(64_000, 64_000) }));
    let t = cm.get_transform(5).unwrap();
    assert_eq!(t.pos.x.raw, 64_000);
    assert_eq!(t.pos.y.raw, 64_000);
    assert!(cm.get_transform(4).is_none());
}

#[test]
fn second_add_overwrites_last_write_wins() {
    let mut cm = ComponentManager::new();
    cm.add_component(1, ComponentValue::Gravity(Gravity(Fixed { raw: 500 })));
    cm.add_component(1, ComponentValue::Gravity(Gravity(Fixed { raw: 900 })));
    let g = cm.get_gravity(1).unwrap();
    assert_eq!(g.0.raw, 900);
}

#[test]
fn register_twice_discards_prior_data() {
    let mut cm = ComponentManager::new();
    cm.add_component(0, ComponentValue::Gravity(Gravity(Fixed { raw: 500 })));
    cm.register_components(ComponentKind::Gravity);
    assert!(!cm.entity_has_component(0, ComponentKind::Gravity));
}

#[test]
fn component_list_add_get() {
    let mut list: ComponentList<u64> = ComponentList::new();
    assert!(list.get_entity_component(0).is_none());
    list.add_component(2, 77);
    assert_eq!(*list.get_entity_component(2).unwrap(), 77);
    assert!(list.get_entity_component(0).is_none());
    assert!(list.get_entity_component(1).is_none());
    assert!(list.contains_entity(2));
    assert!(!list.contains_entity(3));
}

#[test]
fn component_list_mut_borrow_writes_through() {
    let mut list: ComponentList<u64> = ComponentList::new();
    list.add_component(0, 5);
    if let Some(c) = list.get_entity_component_mut(0) {
        *c = 9;
    }
    assert_eq!(*list.get_entity_component(0).unwrap(), 9);
    assert!(list.get_entity_component_mut(1).is_none());
}

#[test]
fn manager_mut_list_borrow_writes_through() {
    let mut cm = ComponentManager::new();
    cm.add_component(0, ComponentValue::Transform(Transform { pos: v2(1, 1) }));
    assert!(cm.get_components(ComponentKind::Transform).is_some());
    assert!(cm.get_components(ComponentKind::Sprite).is_none());
    let list = cm.get_components_mut(ComponentKind::Transform).unwrap();
    list.add_component(9, ComponentValue::Transform(Transform { pos: v2(3, 4) }));
    assert_eq!(cm.get_transform(9).unwrap().pos.x.raw, 3);
    assert!(cm.get_components_mut(ComponentKind::Movement).is_none());
}

#[test]
fn set_pos_overwrites_position() {
    let mut t = Transform { pos: v2(1, 2) };
    t.set_pos(v2(9, 9));
    assert_eq!(t.pos.x.raw, 9);
    assert_eq!(t.pos.y.raw, 9);
}

#[test]
fn entity_allocator_is_monotonic() {
    let mut es = EntitySystem::new();
    assert_eq!(es.entities, 0);
    let e0 = es.create_entity();
    let e1 = es.create_entity();
    let e2 = es.create_entity();
    assert_eq!(e0.0, 0);
    assert_eq!(e1.0, 1);
    assert_eq!(e2.0, 2);
    assert_eq!(es.entities, 3);
}
