//! Fixed-point arithmetic and box-overlap behaviour.
use ecs_core::aabb::AABB;
use ecs_core::fixed::Fixed;
use ecs_core::vector2::Vector2;

fn boxed(x: i64, y: i64, w: i64, h: i64) -> AABB {
    AABB { x: Fixed { raw: x }, y: Fixed { raw: y }, w: Fixed { raw: w }, h: Fixed { raw: h } }
}

#[test]
fn fixed_add_sub_exact() {
    let a = Fixed { raw: 1500 };
    let b = Fixed { raw: 2500 };
    assert_eq!(a.add(b).raw, 4000);
    assert_eq!(a.sub(b).raw, -1000);
}

#[test]
fn fixed_add_saturates() {
    assert_eq!(Fixed { raw: i64::MAX }.add(Fixed { raw: 1 }).raw, i64::MAX);
    assert_eq!(Fixed { raw: i64::MIN }.sub(Fixed { raw: 1 }).raw, i64::MIN);
    assert_eq!(Fixed { raw: i64::MIN }.add(Fixed { raw: -1 }).raw, i64::MIN);
}

#[test]
fn fixed_mul_rescales_and_truncates_toward_zero() {
    assert_eq!(Fixed { raw: 1500 }.mul(Fixed { raw: 2500 }).raw, 3750);
    assert_eq!(Fixed { raw: -1500 }.mul(Fixed { raw: 2500 }).raw, -3750);
    // 0.007 * 0.009 = 0.000063, below one raw unit, truncated to zero
    assert_eq!(Fixed { raw: 7 }.mul(Fixed { raw: 9 }).raw, 0);
    assert_eq!(Fixed { raw: -7 }.mul(Fixed { raw: 9 }).raw, 0);
}

#[test]
fn fixed_div_rescales_and_truncates_toward_zero() {
    assert_eq!(Fixed { raw: 1000 }.div(Fixed { raw: 300 }).raw, 3333);
    assert_eq!(Fixed { raw: -1000 }.div(Fixed { raw: 300 }).raw, -3333);
    assert_eq!(Fixed { raw: 2000 }.div(Fixed { raw: 30 }).raw, 66_666);
}

#[test]
fn fixed_from_int_scales_and_saturates() {
    assert_eq!(Fixed::from_int(512).raw, 512_000);
    assert_eq!(Fixed::from_int(-3).raw, -3000);
    assert_eq!(Fixed::from_int(1 << 62).raw, i64::MAX);
}

#[test]
fn vector_ops_componentwise() {
    let a = Vector2 { x: Fixed { raw: 1000 }, y: Fixed { raw: -2000 } };
    let b = Vector2 { x: Fixed { raw: 500 }, y: Fixed { raw: 500 } };
    let s = a.add(b);
    assert_eq!(s.x.raw, 1500);
    assert_eq!(s.y.raw, -1500);
    let d = a.sub(b);
    assert_eq!(d.x.raw, 500);
    assert_eq!(d.y.raw, -2500);
    let m = a.scale(Fixed { raw: 2000 });
    assert_eq!(m.x.raw, 2000);
    assert_eq!(m.y.raw, -4000);
    let p = a.mul(Vector2 { x: Fixed { raw: 2500 }, y: Fixed { raw: 3000 } });
    assert_eq!(p.x.raw, 2500);
    assert_eq!(p.y.raw, -6000);
    let q = a.div(Vector2 { x: Fixed { raw: 300 }, y: Fixed { raw: 500 } });
    assert_eq!(q.x.raw, 3333);
    assert_eq!(q.y.raw, -4000);
    assert_eq!(Fixed::zero().raw, 0);
    assert_eq!(Vector2::default().x.raw, 0);
}

#[test]
fn lerp_blends_and_writes_back() {
    let mut out = Vector2::zero();
    let a = Vector2::zero();
    let b = Vector2 { x: Fixed { raw: 10_000 }, y: Fixed { raw: 0 } };
    let r = out.lerp(a, b, Fixed { raw: 250 });
    assert_eq!(r.x.raw, 2500);
    assert_eq!(r.y.raw, 0);
    assert_eq!(out.x.raw, 2500);
}

#[test]
fn overlap_is_symmetric() {
    let a = boxed(0, 0, 32_000, 32_000);
    let b = boxed(20_000, 10_000, 32_000, 32_000);
    let c = boxed(100_000, 0, 32_000, 32_000);
    assert!(a.check(b));
    assert!(b.check(a));
    assert!(!a.check(c));
    assert!(!c.check(a));
}

#[test]
fn touching_edges_do_not_overlap() {
    let a = boxed(0, 0, 32_000, 32_000);
    let b = boxed(32_000, 0, 32_000, 32_000);
    assert!(!a.check(b));
    assert!(!b.check(a));
    // one raw unit of penetration flips it
    let b2 = boxed(31_999, 0, 32_000, 32_000);
    assert!(a.check(b2));
    assert!(b2.check(a));
}

#[test]
fn translate_and_at_place_boxes() {
    let a = boxed(1000, 2000, 32_000, 32_000);
    let moved = a.translate(Vector2 { x: Fixed { raw: 500 }, y: Fixed { raw: -500 } });
    assert_eq!(moved.x.raw, 1500);
    assert_eq!(moved.y.raw, 1500);
    assert_eq!(moved.w.raw, 32_000);
    let placed = a.at(Vector2 { x: Fixed { raw: 9000 }, y: Fixed { raw: 8000 } });
    assert_eq!(placed.x.raw, 9000);
    assert_eq!(placed.y.raw, 8000);
    assert_eq!(placed.h.raw, 32_000);
}

#[test]
fn default_box_is_32_by_32() {
    let a = AABB::default();
    assert_eq!(a.x.raw, 0);
    assert_eq!(a.w.raw, 32_000);
    assert_eq!(a.h.raw, 32_000);
}
