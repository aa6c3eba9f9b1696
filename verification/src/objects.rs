//! The renderable object list: rebuilt from scratch every render tick and
//! handed to the external renderer.

use vstd::prelude::*;
use crate::fxpt::Fxpt;
use crate::geom::Obstacle;
use crate::field::{FieldModel, GameField, rect_wf, GAME_FIELD_WIDTH, PLAYER_X, PLAYER_SIZE};

verus! {

/// A drawable shape descriptor in field coordinates.  Colors are chosen by
/// the renderer, which owns all color computation.
#[derive(Clone, Copy, PartialEq, Eq, Structural, Debug)]
pub enum Object {
    /// An axis-aligned rectangle.
    Rectangle { x: Fxpt, y: Fxpt, width: Fxpt, height: Fxpt },
    /// A regular polygon.
    Polygon { x: Fxpt, y: Fxpt, sides: u8, radius: Fxpt, rotation: Fxpt },
}

/// The drawable rectangle for a wall or obstacle, clipped horizontally so
/// nothing is drawn outside the field.
pub open spec fn clipped_rect(o: Obstacle) -> Object {
    let x = if o.x.0 > 0 {
        o.x.0 as int
    } else {
        0
    };
    let end = if o.x.0 + o.width.0 < GAME_FIELD_WIDTH {
        o.x.0 + o.width.0
    } else {
        GAME_FIELD_WIDTH as int
    };
    Object::Rectangle { x: Fxpt(x as i16), y: o.y, width: Fxpt((end - x) as i16), height: o.height }
}

/// The drawable player square at vertical position `py`.
pub open spec fn player_object(py: i16) -> Object {
    Object::Rectangle {
        x: Fxpt(PLAYER_X),
        y: Fxpt(py),
        width: Fxpt(PLAYER_SIZE),
        height: Fxpt(PLAYER_SIZE),
    }
}

/// The full object list for a state: floating obstacles, then walls, each
/// clipped to the field, then the player on top.
pub open spec fn render_list(m: FieldModel) -> Seq<Object> {
    (m.obstacles.map_values(|o: Obstacle| clipped_rect(o)) + m.walls.map_values(
        |o: Obstacle| clipped_rect(o),
    )).push(player_object(m.player_y))
}

/// Pushes the clipped form of every rectangle of `v` onto `out`.
fn push_clipped(out: &mut Vec<Object>, v: &Vec<Obstacle>)
    requires
        forall|i: int| 0 <= i < v@.len() ==> rect_wf(#[trigger] v@[i]),
    ensures
        final(out)@ == old(out)@ + v@.map_values(|o: Obstacle| clipped_rect(o)),
{
    let ghost base = out@;
    let mut i: usize = 0;
    while i < v.len()
        invariant
            i <= v@.len(),
            forall|i2: int| 0 <= i2 < v@.len() ==> rect_wf(#[trigger] v@[i2]),
            out@.len() == base.len() + i,
            forall|j: int| 0 <= j < base.len() ==> out@[j] == base[j],
            forall|j: int| 0 <= j < i ==> out@[base.len() + j] == clipped_rect(#[trigger] v@[j]),
        decreases v@.len() - i,
    {
        let o = v[i];
        let x = if o.x.0 > 0 {
            o.x.0
        } else {
            0
        };
        let right = o.x.0 + o.width.0;
        let end = if right < GAME_FIELD_WIDTH {
            right
        } else {
            GAME_FIELD_WIDTH
        };
        out.push(Object::Rectangle { x: Fxpt(x), y: o.y, width: Fxpt(end - x), height: o.height });
        i = i + 1;
    }
    proof {
        assert(out@ =~= base + v@.map_values(|o: Obstacle| clipped_rect(o)));
    }
}

impl GameField {
    /// Rebuilds the renderable object list from the current state.  The
    /// list is transient: nothing of it survives into the next frame.
    pub fn render_objects(&self) -> (objs: Vec<Object>)
        requires
            self@.wf(),
        ensures
            objs@ == render_list(self@),
    {
        let mut objs: Vec<Object> = Vec::new();
        proof {
            let m = self@;
            assert forall|i: int| 0 <= i < self.obstacles@.len() implies rect_wf(
                #[trigger] self.obstacles@[i],
            ) by {
                assert(rect_wf(m.obstacles[i]));
            }
            assert forall|i: int| 0 <= i < self.walls@.len() implies rect_wf(
                #[trigger] self.walls@[i],
            ) by {
                assert(rect_wf(m.walls[i]));
            }
        }
        push_clipped(&mut objs, &self.obstacles);
        push_clipped(&mut objs, &self.walls);
        objs.push(
            Object::Rectangle {
                x: Fxpt(PLAYER_X),
                y: self.player_y,
                width: Fxpt(PLAYER_SIZE),
                height: Fxpt(PLAYER_SIZE),
            },
        );
        proof {
            assert(objs@ =~= render_list(self@));
        }
        objs
    }
}

/// The player square's color channels for a physics frame: each channel is
/// the frame count folded to a byte and scaled with wrapping arithmetic.
pub fn player_color(physics_frames: u64) -> (rgb: (u8, u8, u8))
    ensures
        rgb.0 == ((physics_frames % 256) * 3) % 256,
        rgb.1 == ((physics_frames % 256) * 7) % 256,
        rgb.2 == ((physics_frames % 256) * 5) % 256,
{
    let b = #[verifier::truncate] (physics_frames as u8);
    proof {
        assert(physics_frames as u8 == physics_frames % 256) by (bit_vector);
    }
    (b.wrapping_mul(3), b.wrapping_mul(7), b.wrapping_mul(5))
}

} // verus!
