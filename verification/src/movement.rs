//! The movement component and the input-driven movement system.
use vstd::prelude::*;

use crate::component::{ComponentKind, ComponentManager};
use crate::fixed::{fx_mul, fx_of_int, Fixed};
use crate::rigidbody::Rigidbody;
use crate::vector2::{spec_smooth_damp, Vector2};

verus! {

/// How fast input pushes an entity, in units per second.
#[derive(Clone, Copy, PartialEq, Eq, Structural, Debug)]
pub struct Movement {
    pub speed: Fixed,
}

impl Default for Movement {
    /// The stock input speed of 512 units per second.
    fn default() -> (r: Self)
        ensures
            r.speed.raw == 512 * 1000,
    {
        Self { speed: Fixed { raw: 512 * 1000 } }
    }
}

/// The keys the movement system reads, as sampled by the caller once per
/// frame. Each direction is satisfied by either of two bound keys.
#[derive(Clone, Copy, PartialEq, Eq, Structural, Debug)]
pub struct InputState {
    pub key_a: bool,
    pub key_d: bool,
    pub key_w: bool,
    pub key_s: bool,
    pub key_left: bool,
    pub key_right: bool,
    pub key_up: bool,
    pub key_down: bool,
}

impl InputState {
    /// No key held.
    pub fn released() -> (r: InputState)
        ensures
            r == (InputState {
                key_a: false,
                key_d: false,
                key_w: false,
                key_s: false,
                key_left: false,
                key_right: false,
                key_up: false,
                key_down: false,
            }),
    {
        InputState {
            key_a: false,
            key_d: false,
            key_w: false,
            key_s: false,
            key_left: false,
            key_right: false,
            key_up: false,
            key_down: false,
        }
    }
}

/// What one frame hands every system: the sampled keys and the elapsed frame
/// time in seconds.
#[derive(Clone, Copy, PartialEq, Eq, Structural, Debug)]
pub struct FrameInput {
    pub keys: InputState,
    pub dt: Fixed,
}

/// The horizontal axis the keys select, in -1, 0 or 1: left and right pulls
/// cancel.
pub open spec fn x_axis(keys: InputState) -> int {
    (if keys.key_a || keys.key_left {
        -1int
    } else {
        0int
    }) + (if keys.key_d || keys.key_right {
        1int
    } else {
        0int
    })
}

/// The vertical axis the keys select, in -1, 0 or 1: up is negative.
pub open spec fn y_axis(keys: InputState) -> int {
    (if keys.key_w || keys.key_up {
        -1int
    } else {
        0int
    }) + (if keys.key_s || keys.key_down {
        1int
    } else {
        0int
    })
}

/// The velocity the input steers toward: the axis pair scaled by the
/// entity's speed and the elapsed frame time.
pub open spec fn move_target(input: FrameInput, speed: Fixed) -> Vector2 {
    Vector2 {
        x: Fixed {
            raw: fx_mul(fx_mul(fx_of_int(x_axis(input.keys)), speed.raw as int), input.dt.raw as int) as i64,
        },
        y: Fixed {
            raw: fx_mul(fx_mul(fx_of_int(y_axis(input.keys)), speed.raw as int), input.dt.raw as int) as i64,
        },
    }
}

/// The damping time constant of the input response, 0.03 seconds.
pub const MOVE_SMOOTH_TIME_RAW: i64 = 30;

/// Whether the movement step acts on `entity`: it must carry a rigidbody and
/// a movement.
pub open spec fn move_subject(cm: ComponentManager, entity: int) -> bool {
    &&& cm.spec_has(ComponentKind::Rigidbody, entity)
    &&& cm.spec_has(ComponentKind::Movement, entity)
}

/// One damped-interpolation step from the current velocity toward the
/// input's target velocity.
pub open spec fn damped_vel(rb: Rigidbody, m: Movement, input: FrameInput) -> Vector2 {
    spec_smooth_damp(
        rb.vel,
        move_target(input, m.speed),
        Fixed { raw: MOVE_SMOOTH_TIME_RAW },
        input.dt,
    )
}

/// The velocity after one movement step for the entity as stored.
pub open spec fn move_new_vel(cm: ComponentManager, entity: int, input: FrameInput) -> Vector2 {
    damped_vel(cm.spec_rigidbody(entity), cm.spec_movement(entity), input)
}

/// Steers each movable entity's velocity toward what the held keys ask for,
/// through the critically-damped smoothing step.
pub struct MovementSystem {}

impl Default for MovementSystem {
    /// The system carries no configuration.
    fn default() -> Self {
        Self {  }
    }
}

impl MovementSystem {
    /// One movement step over entities `0 .. entities`: every entity with
    /// rigidbody and movement gets its velocity damped toward the input's
    /// target; everything else is untouched.
    pub fn update(&self, input: &FrameInput, entities: usize, cm: &mut ComponentManager)
        requires
            old(cm).wf(),
            input.dt.raw >= 0,
        ensures
            final(cm).wf(),
            forall|k: ComponentKind| final(cm).registered(k) <==> old(cm).registered(k),
            forall|k: ComponentKind, e: int|
                final(cm).spec_has(k, e) <==> old(cm).spec_has(k, e),
            forall|k: ComponentKind|
                k != ComponentKind::Rigidbody ==> #[trigger] final(cm).list_of(k) == old(
                    cm,
                ).list_of(k),
            forall|e: int|
                0 <= e < entities as int && move_subject(*old(cm), e) ==> final(cm).spec_rigidbody(
                    e,
                ) == (Rigidbody {
                    vel: move_new_vel(*old(cm), e, *input),
                    accel: old(cm).spec_rigidbody(e).accel,
                }),
            forall|e: int|
                !(0 <= e < entities as int && move_subject(*old(cm), e)) && old(cm).spec_has(
                    ComponentKind::Rigidbody,
                    e,
                ) ==> final(cm).spec_rigidbody(e) == old(cm).spec_rigidbody(e),
    {
        let mut entity: usize = 0;
        while entity < entities
            invariant
                cm.wf(),
                entity <= entities,
                input.dt.raw >= 0,
                forall|k: ComponentKind| cm.registered(k) <==> old(cm).registered(k),
                forall|k: ComponentKind, e: int| cm.spec_has(k, e) <==> old(cm).spec_has(k, e),
                forall|k: ComponentKind|
                    k != ComponentKind::Rigidbody ==> #[trigger] cm.list_of(k) == old(cm).list_of(
                        k,
                    ),
                forall|e: int|
                    0 <= e < entity as int && move_subject(*old(cm), e) ==> cm.spec_rigidbody(e)
                        == (Rigidbody {
                        vel: move_new_vel(*old(cm), e, *input),
                        accel: old(cm).spec_rigidbody(e).accel,
                    }),
                forall|e: int|
                    !(0 <= e < entity as int && move_subject(*old(cm), e)) && old(cm).spec_has(
                        ComponentKind::Rigidbody,
                        e,
                    ) ==> cm.spec_rigidbody(e) == old(cm).spec_rigidbody(e),
            decreases entities - entity,
        {
            let has_rigidbody_component = cm.entity_has_component(
                entity,
                ComponentKind::Rigidbody,
            );
            let has_movement_component = cm.entity_has_component(entity, ComponentKind::Movement);

            if has_rigidbody_component && has_movement_component {
                let movement = cm.get_movement(entity).unwrap();
                let rigidbody = cm.get_rigidbody(entity).unwrap();

                let mut x_axis_units: i64 = 0;
                let mut y_axis_units: i64 = 0;

                let pressed_left = input.keys.key_a || input.keys.key_left;
                let pressed_right = input.keys.key_d || input.keys.key_right;
                let pressed_up = input.keys.key_w || input.keys.key_up;
                let pressed_down = input.keys.key_s || input.keys.key_down;

                if pressed_left {
                    x_axis_units = x_axis_units - 1;
                }
                if pressed_right {
                    x_axis_units = x_axis_units + 1;
                }
                if pressed_up {
                    y_axis_units = y_axis_units - 1;
                }
                if pressed_down {
                    y_axis_units = y_axis_units + 1;
                }

                let x = Fixed::from_int(x_axis_units).mul(movement.speed).mul(input.dt);
                let y = Fixed::from_int(y_axis_units).mul(movement.speed).mul(input.dt);

                let mut vel = rigidbody.vel;
                let new_vel = vel.smooth_damp(
                    rigidbody.vel,
                    Vector2::new(x, y),
                    Fixed { raw: MOVE_SMOOTH_TIME_RAW },
                    input.dt,
                );
                cm.set_rigidbody(entity, Rigidbody { vel: new_vel, accel: rigidbody.accel });
            }
            entity = entity + 1;
        }
    }
}

} // verus!
