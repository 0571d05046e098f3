//! The sprite component and the render pass.
use vstd::prelude::*;

use crate::component::{ComponentKind, ComponentManager};
use crate::draw::{Color, DrawCmd, DrawMode, Rect};
use crate::fixed::{fx_sub, Fixed};
use crate::transform::Transform;
use crate::vector2::Vector2;

verus! {

/// A drawable rectangle of fixed size and colour, centred on the entity's
/// position.
#[derive(Clone, Copy, PartialEq, Eq, Structural, Debug)]
pub struct Sprite {
    pub w: u8,
    pub h: u8,
    pub color: Color,
}

impl Default for Sprite {
    /// A 32-by-32 white square.
    fn default() -> (r: Self)
        ensures
            r.w == 32,
            r.h == 32,
            r.color == (Color { r: 255, g: 255, b: 255, a: 255 }),
    {
        Self { w: 32, h: 32, color: Color::white() }
    }
}

/// The draw call for one sprite: a filled rectangle of the sprite's size and
/// colour, destined so the sprite is centred on the entity's position.
pub open spec fn sprite_cmd(s: Sprite, t: Transform) -> DrawCmd {
    DrawCmd {
        mode: DrawMode::Fill,
        rect: Rect {
            x: Fixed { raw: 0 },
            y: Fixed { raw: 0 },
            w: Fixed { raw: (s.w as int * 1000) as i64 },
            h: Fixed { raw: (s.h as int * 1000) as i64 },
        },
        color: s.color,
        dest: Vector2 {
            x: Fixed { raw: fx_sub(t.pos.x.raw as int, s.w as int * 500) as i64 },
            y: Fixed { raw: fx_sub(t.pos.y.raw as int, s.h as int * 500) as i64 },
        },
    }
}

/// The render pass over entities `0 .. n`: one sprite command per entity that
/// carries both a sprite and a transform, in entity order.
pub open spec fn render_draw_upto(cm: ComponentManager, n: int) -> Seq<DrawCmd>
    decreases n,
{
    if n <= 0 {
        Seq::empty()
    } else {
        let prefix = render_draw_upto(cm, n - 1);
        if cm.spec_has(ComponentKind::Sprite, n - 1) && cm.spec_has(
            ComponentKind::Transform,
            n - 1,
        ) {
            prefix.push(sprite_cmd(cm.spec_sprite(n - 1), cm.spec_transform(n - 1)))
        } else {
            prefix
        }
    }
}

/// Draws every entity that has a sprite and a position; it holds no state and
/// changes none.
pub struct RenderSystem {}

impl Default for RenderSystem {
    /// The system carries no configuration.
    fn default() -> Self {
        Self {  }
    }
}

impl RenderSystem {
    /// Rendering mutates nothing during the update pass.
    pub fn update(&self, entities: usize, cm: &mut ComponentManager)
        ensures
            *final(cm) == *old(cm),
    {
    }

    /// The render pass: the filled-rectangle commands for entities
    /// `0 .. entities`, in entity order.
    pub fn draw(&self, entities: usize, cm: &ComponentManager) -> (cmds: Vec<DrawCmd>)
        requires
            cm.wf(),
        ensures
            cmds@ == render_draw_upto(*cm, entities as int),
    {
        let mut cmds: Vec<DrawCmd> = Vec::new();
        let mut entity: usize = 0;
        while entity < entities
            invariant
                cm.wf(),
                entity <= entities,
                cmds@ == render_draw_upto(*cm, entity as int),
            decreases entities - entity,
        {
            let has_sprite_component = cm.entity_has_component(entity, ComponentKind::Sprite);
            let has_transform_component = cm.entity_has_component(
                entity,
                ComponentKind::Transform,
            );

            if has_sprite_component && has_transform_component {
                let sprite = cm.get_sprite(entity).unwrap();
                let player_position = cm.get_transform(entity).unwrap().pos;

                let rect = Rect {
                    x: Fixed { raw: 0 },
                    y: Fixed { raw: 0 },
                    w: Fixed { raw: (sprite.w as i64) * 1000 },
                    h: Fixed { raw: (sprite.h as i64) * 1000 },
                };
                let pos = Vector2 {
                    x: player_position.x.sub(Fixed { raw: (sprite.w as i64) * 500 }),
                    y: player_position.y.sub(Fixed { raw: (sprite.h as i64) * 500 }),
                };
                cmds.push(
                    DrawCmd { mode: DrawMode::Fill, rect, color: sprite.color, dest: pos },
                );
            }
            entity = entity + 1;
        }
        cmds
    }
}

} // verus!
