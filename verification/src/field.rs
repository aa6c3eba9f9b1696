//! The simulation state machine: player physics, wall and obstacle
//! generation, culling, collision, input recording and replay.

use vstd::prelude::*;
use std::collections::VecDeque;
use crate::fxpt::{Fxpt, FIXED_POINT_SHIFT, FIXED_POINT_DIVISOR, lemma_shr_is_div};
use crate::rng::{Rng, rng_step, RNG_SEED};
use crate::geom::{Obstacle, rects_overlap, rects_overlap_exec};

verus! {

/// Width of the game field, in scaled fixed-point units.
pub const GAME_FIELD_WIDTH: i16 = 400 * FIXED_POINT_DIVISOR;

/// Height of the game field, in scaled fixed-point units.
pub const GAME_FIELD_HEIGHT: i16 = 300 * FIXED_POINT_DIVISOR;

/// The player's fixed horizontal position.
pub const PLAYER_X: i16 = 100 * FIXED_POINT_DIVISOR;

/// Side length of the player's square collision footprint.
pub const PLAYER_SIZE: i16 = 48 * FIXED_POINT_DIVISOR;

/// Width shared by every wall segment and floating obstacle.
pub const OBSTACLE_WIDTH: i16 = 25 * FIXED_POINT_DIVISOR;

/// Gravity added to the player's speed each physics step: 1.6 whole units,
/// scaled by the divisor and truncated.
pub const GRAVITY: i16 = 51;

/// Fixed-point friction factor: 0.9 whole units, scaled and truncated.
pub const FRICTION: i16 = 28;

/// Upward speed change applied on a flying input.
pub const INPUT_IMPULSE: i16 = 2 * FIXED_POINT_DIVISOR;

/// Leftward translation of every wall and obstacle per physics step.
pub const SCROLL_STEP: i16 = 8 * FIXED_POINT_DIVISOR;

/// Height of a floating obstacle, and the margin kept between a floating
/// obstacle and the gap's edges.
pub const FLOAT_OBSTACLE_HEIGHT: i16 = 60 * FIXED_POINT_DIVISOR;

/// Bound on the per-spawn pseudo-random nudge of the wall skew.
pub const SKEW_STEP_RANGE: i16 = FIXED_POINT_DIVISOR * 8;

/// The gap between a wall pair starts at this many whole units.
pub const GAP_START_UNITS: i16 = 250;

/// Number of physics frames per difficulty tick.
pub const GAP_TICK_FRAMES: u64 = 32;

/// The gap stops shrinking after this many difficulty ticks.
pub const GAP_MAX_TICKS: u64 = 70;

/// Minimum number of physics frames between floating obstacle spawns.
pub const FLOAT_OBSTACLE_SPACING: u64 = 30;

/// Recorded input byte for a step with the fly input held (ASCII '1').
pub const INPUT_FLY_BYTE: u8 = 49;

/// Recorded input byte for a step without the fly input (ASCII '0').
pub const INPUT_FALL_BYTE: u8 = 48;

/// Bound on the player's speed that the physics step preserves.
pub const SPEED_BOUND: i16 = 2048;

/// Largest half-height a wall can have — half of what the narrowest gap
/// leaves of the field height; the wall skew is always clamped within it.
pub const WALL_SKEW_BOUND: i16 = 60 * FIXED_POINT_DIVISOR;

/// The mathematical state of a simulation: every field the step reads or
/// writes, with collections as sequences.
#[verifier::ext_equal]
pub ghost struct FieldModel {
    pub rng: u64,
    pub frames: u64,
    pub physics_frames: u64,
    pub player_y: i16,
    pub player_speed: i16,
    pub walls: Seq<Obstacle>,
    pub obstacles: Seq<Obstacle>,
    pub wall_skew: i16,
    pub last_obstacle: u64,
    pub dead: bool,
    pub replay: Option<Seq<u8>>,
    pub inputs: Seq<u8>,
}

/// Rust's truncating remainder on signed operands: the sign follows the
/// dividend.
pub open spec fn trunc_rem(x: int, d: int) -> int {
    if x >= 0 {
        x % d
    } else {
        -((-x) % d)
    }
}

/// Clamp `x` into `[lo, hi]`.
pub open spec fn clamp_int(x: int, lo: int, hi: int) -> int {
    if x < lo {
        lo
    } else if x > hi {
        hi
    } else {
        x
    }
}

/// The input bit a step resolves: the front of the replay queue when one is
/// attached (an exhausted queue and a byte other than '1' both mean "not
/// flying"), the live input signal otherwise.
pub open spec fn flying_input(replay: Option<Seq<u8>>, live: bool) -> bool {
    match replay {
        Option::None => live,
        Option::Some(q) => q.len() > 0 && q[0] == INPUT_FLY_BYTE,
    }
}

/// The replay queue after one step: one byte consumed when any is left.
pub open spec fn replay_after(replay: Option<Seq<u8>>) -> Option<Seq<u8>> {
    match replay {
        Option::None => Option::None,
        Option::Some(q) => if q.len() > 0 {
            Option::Some(q.subrange(1, q.len() as int))
        } else {
            Option::Some(q)
        },
    }
}

/// How many whole units the gap has shrunk by at physics frame `pf`: one per
/// difficulty tick, capped.
pub open spec fn gap_reduction(pf: u64) -> int {
    if pf as int / (GAP_TICK_FRAMES as int) < (GAP_MAX_TICKS as int) {
        pf as int / GAP_TICK_FRAMES as int
    } else {
        GAP_MAX_TICKS as int
    }
}

/// The vertical gap, in scaled units, of a wall pair spawned at physics
/// frame `pf`.
pub open spec fn gap_for(pf: u64) -> int {
    (GAP_START_UNITS - gap_reduction(pf)) * FIXED_POINT_DIVISOR
}

/// A rectangle translated one scroll step to the left.
pub open spec fn scrolled(o: Obstacle) -> Obstacle {
    Obstacle { x: Fxpt((o.x.0 - SCROLL_STEP) as i16), y: o.y, width: o.width, height: o.height }
}

/// Every rectangle of `s`, scrolled.
pub open spec fn scroll_all(s: Seq<Obstacle>) -> Seq<Obstacle> {
    s.map_values(|o: Obstacle| scrolled(o))
}

/// A rectangle whose right edge is still right of the field's left boundary.
pub open spec fn live_rect(o: Obstacle) -> bool {
    o.x.0 + o.width.0 > 0
}

/// The rectangles of `s` that are still at least partly in view.
pub open spec fn cull_all(s: Seq<Obstacle>) -> Seq<Obstacle> {
    s.filter(|o: Obstacle| live_rect(o))
}

/// The player's collision footprint at vertical position `py`.
pub open spec fn player_rect(py: i16) -> Obstacle {
    Obstacle {
        x: Fxpt(PLAYER_X),
        y: Fxpt(py),
        width: Fxpt(PLAYER_SIZE),
        height: Fxpt(PLAYER_SIZE),
    }
}

/// The rectangle `o` strictly overlaps the player footprint at `py`.
pub open spec fn player_hit(o: Obstacle, py: i16) -> bool {
    rects_overlap(o, player_rect(py))
}

/// Some rectangle of `s` strictly overlaps the player footprint at `py`.
pub open spec fn any_hit(s: Seq<Obstacle>, py: i16) -> bool {
    exists|i: int| 0 <= i < s.len() && player_hit(s[i], py)
}

/// Geometric bounds every wall and obstacle keeps between steps, apart from
/// the culling condition.
pub open spec fn rect_bounds(o: Obstacle) -> bool {
    &&& 0 < o.width.0 <= 2 * PLAYER_SIZE
    &&& -(2 * PLAYER_SIZE + SCROLL_STEP) <= o.x.0 <= GAME_FIELD_WIDTH
    &&& 0 <= o.y.0
    &&& 0 <= o.height.0
    &&& o.y.0 + o.height.0 <= 2 * GAME_FIELD_HEIGHT
}

/// A well-formed persistent rectangle: in bounds and not yet culled.
pub open spec fn rect_wf(o: Obstacle) -> bool {
    rect_bounds(o) && live_rect(o)
}

impl FieldModel {
    /// The invariant the constructor establishes and every step preserves.
    pub open spec fn wf(self) -> bool {
        &&& -SPEED_BOUND <= self.player_speed <= SPEED_BOUND
        &&& 0 <= self.player_y <= GAME_FIELD_HEIGHT - PLAYER_SIZE
        &&& -WALL_SKEW_BOUND <= self.wall_skew <= WALL_SKEW_BOUND
        &&& self.last_obstacle <= self.physics_frames
        &&& forall|i: int| 0 <= i < self.walls.len() ==> rect_wf(#[trigger] self.walls[i])
        &&& forall|i: int| 0 <= i < self.obstacles.len() ==> rect_wf(#[trigger] self.obstacles[i])
    }
}

/// The state a fresh simulation starts from.
pub open spec fn initial_model() -> FieldModel {
    FieldModel {
        rng: RNG_SEED,
        frames: 0,
        physics_frames: 0,
        player_y: (GAME_FIELD_HEIGHT / 2) as i16,
        player_speed: 0,
        walls: Seq::empty(),
        obstacles: Seq::empty(),
        wall_skew: 0,
        last_obstacle: 0,
        dead: false,
        replay: Option::None,
        inputs: Seq::empty(),
    }
}

/// One whole physics step, as a function of the previous state and the live
/// input signal.  The stages run in a fixed order: resolve and record the
/// input, apply the upward impulse, scroll the world, spawn walls and
/// perhaps a floating obstacle, cull what has left the field, apply gravity
/// then friction, integrate and clamp the player, test collisions, and
/// count the frame.
pub open spec fn step_model(m: FieldModel, live: bool) -> FieldModel {
    let flying = flying_input(m.replay, live);
    let replay1 = replay_after(m.replay);
    let inputs1 = m.inputs.push(if flying { INPUT_FLY_BYTE } else { INPUT_FALL_BYTE });
    let s1 = if flying { (m.player_speed - INPUT_IMPULSE) as int } else { m.player_speed as int };
    let walls1 = scroll_all(m.walls);
    let obstacles1 = scroll_all(m.obstacles);
    let last_x = if walls1.len() == 0 {
        (GAME_FIELD_WIDTH - OBSTACLE_WIDTH) as int
    } else {
        walls1.last().x.0 as int
    };
    let spawn = last_x <= GAME_FIELD_WIDTH - OBSTACLE_WIDTH;
    let gap = gap_for(m.physics_frames);
    let wall_size = (GAME_FIELD_HEIGHT - gap) / 2;
    let skew1 = if spawn {
        clamp_int(
            m.wall_skew + trunc_rem((m.rng as i16) as int, SKEW_STEP_RANGE as int),
            -wall_size,
            wall_size,
        )
    } else {
        m.wall_skew as int
    };
    let rng1 = if spawn {
        rng_step(m.rng)
    } else {
        m.rng
    };
    let walls2 = if spawn {
        walls1.push(
            Obstacle {
                x: Fxpt((last_x + OBSTACLE_WIDTH) as i16),
                y: Fxpt(0),
                width: Fxpt(OBSTACLE_WIDTH),
                height: Fxpt((wall_size + skew1) as i16),
            },
        ).push(
            Obstacle {
                x: Fxpt((last_x + OBSTACLE_WIDTH) as i16),
                y: Fxpt((GAME_FIELD_HEIGHT - (wall_size - skew1)) as i16),
                width: Fxpt(OBSTACLE_WIDTH),
                height: Fxpt((wall_size - skew1) as i16),
            },
        )
    } else {
        walls1
    };
    let spawn_float = spawn && m.physics_frames - m.last_obstacle >= FLOAT_OBSTACLE_SPACING;
    let rng2 = if spawn_float {
        rng_step(rng1)
    } else {
        rng1
    };
    let loc = ((rng1 as u16) as int) % (gap - FLOAT_OBSTACLE_HEIGHT);
    let obstacles2 = if spawn_float {
        obstacles1.push(
            Obstacle {
                x: Fxpt((last_x + OBSTACLE_WIDTH) as i16),
                y: Fxpt((wall_size + skew1 + loc) as i16),
                width: Fxpt(OBSTACLE_WIDTH),
                height: Fxpt(FLOAT_OBSTACLE_HEIGHT),
            },
        )
    } else {
        obstacles1
    };
    let last_obstacle1 = if spawn_float {
        m.physics_frames
    } else {
        m.last_obstacle
    };
    let walls3 = cull_all(walls2);
    let obstacles3 = cull_all(obstacles2);
    let s2 = ((s1 + GRAVITY) / FIXED_POINT_DIVISOR as int) * FRICTION;
    let y1 = clamp_int(m.player_y + s2, 0, (GAME_FIELD_HEIGHT - PLAYER_SIZE) as int);
    let dead1 = m.dead || any_hit(obstacles3, y1 as i16) || any_hit(walls3, y1 as i16);
    FieldModel {
        rng: rng2,
        frames: m.frames,
        physics_frames: (m.physics_frames + 1) as u64,
        player_y: y1 as i16,
        player_speed: s2 as i16,
        walls: walls3,
        obstacles: obstacles3,
        wall_skew: skew1 as i16,
        last_obstacle: last_obstacle1,
        dead: dead1,
        replay: replay1,
        inputs: inputs1,
    }
}

/// The simulation state: player, world, generator, counters, and the input
/// log with its optional replay source.
#[derive(Debug)]
pub struct GameField {
    /// Deterministic generator driving wall skew and obstacle placement.
    pub rng: Rng,
    /// Render frames seen so far; advanced by the renderer, not the step.
    pub frames: u64,
    /// Physics steps executed so far.
    pub physics_frames: u64,
    /// Player's vertical position (the top of its square footprint).
    pub player_y: Fxpt,
    /// Player's vertical speed.
    pub player_speed: Fxpt,
    /// Wall segments currently in the field, in spawn order.
    pub walls: Vec<Obstacle>,
    /// Floating obstacles currently in the field, in spawn order.
    pub obstacles: Vec<Obstacle>,
    /// Accumulating bias of the gap's vertical placement.
    pub wall_skew: Fxpt,
    /// Physics frame at which the last floating obstacle spawned.
    pub last_obstacle: u64,
    /// Set once the player has collided; the step refuses to run after it.
    pub dead: bool,
    /// When attached, replaces the live input signal until exhausted.
    pub replay: Option<VecDeque<u8>>,
    /// Every input byte resolved this session, in order.
    pub inputs: VecDeque<u8>,
}

impl View for GameField {
    type V = FieldModel;

    open spec fn view(&self) -> FieldModel {
        FieldModel {
            rng: self.rng.0,
            frames: self.frames,
            physics_frames: self.physics_frames,
            player_y: self.player_y.0,
            player_speed: self.player_speed.0,
            walls: self.walls@,
            obstacles: self.obstacles@,
            wall_skew: self.wall_skew.0,
            last_obstacle: self.last_obstacle,
            dead: self.dead,
            replay: match self.replay {
                Option::Some(ref q) => Option::Some(q@),
                Option::None => Option::None,
            },
            inputs: self.inputs@,
        }
    }
}

/// Every rectangle of `v`, translated one scroll step left.
fn scroll_rects(v: &Vec<Obstacle>) -> (r: Vec<Obstacle>)
    requires
        forall|i: int| 0 <= i < v@.len() ==> rect_wf(#[trigger] v@[i]),
    ensures
        r@ == scroll_all(v@),
        forall|i: int| 0 <= i < r@.len() ==> r@[i] == scrolled(#[trigger] v@[i]),
{
    let mut r: Vec<Obstacle> = Vec::new();
    let mut i: usize = 0;
    while i < v.len()
        invariant
            i <= v@.len(),
            r@.len() == i,
            forall|i2: int| 0 <= i2 < v@.len() ==> rect_wf(#[trigger] v@[i2]),
            forall|j: int| 0 <= j < i ==> r@[j] == scrolled(#[trigger] v@[j]),
        decreases v@.len() - i,
    {
        let o = v[i];
        r.push(Obstacle { x: Fxpt(o.x.0 - SCROLL_STEP), y: o.y, width: o.width, height: o.height });
        i = i + 1;
    }
    proof {
        assert(r@ =~= scroll_all(v@));
    }
    r
}

/// Every rectangle of `s` keeps the persistent geometric bounds; handy for
/// carrying them through a culling pass, which only keeps elements of `s`.
proof fn lemma_bounds_through_subset(s: Seq<Obstacle>, t: Seq<Obstacle>)
    requires
        forall|i: int| 0 <= i < s.len() ==> rect_bounds(#[trigger] s[i]),
        forall|j: int| 0 <= j < t.len() ==> s.contains(#[trigger] t[j]),
    ensures
        forall|j: int| 0 <= j < t.len() ==> rect_bounds(#[trigger] t[j]),
{
    assert forall|j: int| 0 <= j < t.len() implies rect_bounds(#[trigger] t[j]) by {
        let o = t[j];
        assert(s.contains(o));
        let k = choose|k: int| 0 <= k < s.len() && s[k] == o;
        assert(rect_bounds(s[k]));
    }
}

/// The rectangles of `v` that are still at least partly in view, in order.
fn cull_rects(v: &Vec<Obstacle>) -> (r: Vec<Obstacle>)
    requires
        forall|i: int| 0 <= i < v@.len() ==> i16::MIN <= (#[trigger] v@[i]).x.0 + v@[i].width.0
            <= i16::MAX,
    ensures
        r@ == cull_all(v@),
        forall|j: int| 0 <= j < r@.len() ==> v@.contains(#[trigger] r@[j]),
        forall|j: int| 0 <= j < r@.len() ==> live_rect(#[trigger] r@[j]),
{
    let mut r: Vec<Obstacle> = Vec::new();
    let mut i: usize = 0;
    proof {
        reveal(Seq::filter);
        assert(r@ =~= cull_all(v@.subrange(0, 0)));
    }
    while i < v.len()
        invariant
            i <= v@.len(),
            forall|i2: int| 0 <= i2 < v@.len() ==> i16::MIN <= (#[trigger] v@[i2]).x.0
                + v@[i2].width.0 <= i16::MAX,
            r@ == cull_all(v@.subrange(0, i as int)),
            forall|j: int| 0 <= j < r@.len() ==> v@.contains(#[trigger] r@[j]),
            forall|j: int| 0 <= j < r@.len() ==> live_rect(#[trigger] r@[j]),
        decreases v@.len() - i,
    {
        let o = v[i];
        proof {
            reveal(Seq::filter);
            assert(v@.subrange(0, i as int + 1).drop_last() =~= v@.subrange(0, i as int));
            assert(v@.subrange(0, i as int + 1).last() == o);
            assert(v@.contains(o)) by {
                assert(v@[i as int] == o);
            }
            assert(cull_all(v@.subrange(0, i as int + 1)) == if live_rect(o) {
                cull_all(v@.subrange(0, i as int)).push(o)
            } else {
                cull_all(v@.subrange(0, i as int))
            });
        }
        if o.x.0 + o.width.0 > 0 {
            r.push(o);
        }
        i = i + 1;
    }
    proof {
        assert(v@.subrange(0, v@.len() as int) =~= v@);
    }
    r
}

/// Whether any rectangle of `v` strictly overlaps the player footprint at
/// vertical position `py`.
fn any_player_hit(v: &Vec<Obstacle>, py: Fxpt) -> (r: bool)
    requires
        forall|i: int| 0 <= i < v@.len() ==> i16::MIN <= (#[trigger] v@[i]).x.0 + v@[i].width.0
            <= i16::MAX,
        forall|i: int| 0 <= i < v@.len() ==> 0 <= (#[trigger] v@[i]).y.0 + v@[i].height.0
            <= i16::MAX,
        0 <= py.0 <= GAME_FIELD_HEIGHT - PLAYER_SIZE,
    ensures
        r == any_hit(v@, py.0),
{
    let player = Obstacle {
        x: Fxpt(PLAYER_X),
        y: py,
        width: Fxpt(PLAYER_SIZE),
        height: Fxpt(PLAYER_SIZE),
    };
    let mut found = false;
    let mut i: usize = 0;
    while i < v.len()
        invariant
            i <= v@.len(),
            forall|i2: int| 0 <= i2 < v@.len() ==> i16::MIN <= (#[trigger] v@[i2]).x.0
                + v@[i2].width.0 <= i16::MAX,
            forall|i2: int| 0 <= i2 < v@.len() ==> 0 <= (#[trigger] v@[i2]).y.0 + v@[i2].height.0
                <= i16::MAX,
            0 <= py.0 <= GAME_FIELD_HEIGHT - PLAYER_SIZE,
            player == player_rect(py.0),
            found == exists|j: int| 0 <= j < i && player_hit(#[trigger] v@[j], py.0),
        decreases v@.len() - i,
    {
        let o = v[i];
        if rects_overlap_exec(&o, &player) {
            found = true;
            proof {
                assert(player_hit(v@[i as int], py.0));
            }
        }
        i = i + 1;
    }
    proof {
        assert(found == any_hit(v@, py.0));
    }
    found
}

impl GameField {
    /// A fresh simulation: fixed seed, player mid-field at rest, empty
    /// world, no replay attached, nothing recorded.
    pub fn new() -> (r: Self)
        ensures
            r@ == initial_model(),
            r@.wf(),
    {
        let r = GameField {
            rng: Rng::new(),
            frames: 0,
            physics_frames: 0,
            player_y: Fxpt(GAME_FIELD_HEIGHT / 2),
            player_speed: Fxpt(0),
            walls: Vec::new(),
            obstacles: Vec::new(),
            wall_skew: Fxpt(0),
            last_obstacle: 0,
            dead: false,
            replay: Option::None,
            inputs: VecDeque::new(),
        };
        proof {
            assert(r@ =~= initial_model());
        }
        r
    }

    /// Attaches a replay source: from the next step on, the given bytes are
    /// consumed front to back in place of the live input signal.
    pub fn attach_replay(&mut self, bytes: &Vec<u8>)
        ensures
            final(self)@ == (FieldModel { replay: Option::Some(bytes@), ..old(self)@ }),
    {
        let mut q: VecDeque<u8> = VecDeque::new();
        let mut i: usize = 0;
        while i < bytes.len()
            invariant
                i <= bytes@.len(),
                q@ == bytes@.subrange(0, i as int),
            decreases bytes@.len() - i,
        {
            q.push_back(bytes[i]);
            proof {
                assert(bytes@.subrange(0, i as int + 1) =~= bytes@.subrange(0, i as int).push(
                    bytes@[i as int],
                ));
            }
            i = i + 1;
        }
        proof {
            assert(bytes@.subrange(0, bytes@.len() as int) =~= bytes@);
        }
        self.replay = Option::Some(q);
        proof {
            assert(self@ =~= (FieldModel { replay: Option::Some(bytes@), ..old(self)@ }));
        }
    }

    /// Counts one rendered frame; rendering is outside the physics cadence.
    pub fn count_render_frame(&mut self)
        requires
            old(self).frames < u64::MAX,
        ensures
            final(self)@ == (FieldModel { frames: (old(self)@.frames + 1) as u64, ..old(self)@ }),
    {
        self.frames = self.frames + 1;
        proof {
            assert(self@ =~= (FieldModel {
                frames: (old(self)@.frames + 1) as u64,
                ..old(self)@
            }));
        }
    }

    /// One physics step.  The caller resolves the 60 Hz cadence and hands in
    /// the live input signal; everything else — replay, recording, impulse,
    /// scrolling, spawning, culling, gravity, friction, integration,
    /// clamping and collision — happens here, exactly as `step_model` says.
    #[verifier::rlimit(100)]
    pub fn step(&mut self, live_flying: bool)
        requires
            old(self)@.wf(),
            !old(self)@.dead,
            old(self)@.physics_frames < u64::MAX,
        ensures
            final(self)@ == step_model(old(self)@, live_flying),
            final(self)@.wf(),
            final(self)@.physics_frames == old(self)@.physics_frames + 1,
            final(self)@.frames == old(self)@.frames,
    {
        let ghost m0 = self@;

        // Resolve the input bit: replay queue first, live signal otherwise.
        let flying: bool;
        match &mut self.replay {
            Option::None => {
                flying = live_flying;
            },
            Option::Some(q) => {
                let b = q.pop_front();
                flying = match b {
                    Option::Some(c) => c == INPUT_FLY_BYTE,
                    Option::None => false,
                };
            },
        }
        proof {
            assert(flying == flying_input(m0.replay, live_flying));
            assert(self@.replay == replay_after(m0.replay));
        }

        // Record the resolved bit and apply the upward impulse.
        if flying {
            self.player_speed = Fxpt(self.player_speed.0 - INPUT_IMPULSE);
            self.inputs.push_back(INPUT_FLY_BYTE);
        } else {
            self.inputs.push_back(INPUT_FALL_BYTE);
        }
        let ghost s1 = self.player_speed.0 as int;

        // Scroll the world one step left.
        self.walls = scroll_rects(&self.walls);
        self.obstacles = scroll_rects(&self.obstacles);
        proof {
            assert(self@.walls == scroll_all(m0.walls));
            assert(self@.obstacles == scroll_all(m0.obstacles));
        }

        // Spawn a wall pair once the rightmost wall has scrolled far enough,
        // and, on its own cadence, a floating obstacle inside the gap.
        let last_x: i16 = if self.walls.len() == 0 {
            GAME_FIELD_WIDTH - OBSTACLE_WIDTH
        } else {
            self.walls[self.walls.len() - 1].x.0
        };
        proof {
            assert forall|i: int| 0 <= i < self.walls@.len() implies rect_bounds(
                #[trigger] self.walls@[i],
            ) by {
                assert(self.walls@[i] == scrolled(m0.walls[i]));
                assert(rect_wf(m0.walls[i]));
            }
            assert forall|i: int| 0 <= i < self.obstacles@.len() implies rect_bounds(
                #[trigger] self.obstacles@[i],
            ) by {
                assert(self.obstacles@[i] == scrolled(m0.obstacles[i]));
                assert(rect_wf(m0.obstacles[i]));
            }
        }
        if last_x <= GAME_FIELD_WIDTH - OBSTACLE_WIDTH {
            let ticks: u64 = self.physics_frames / GAP_TICK_FRAMES;
            let reduction: i16 = if ticks < GAP_MAX_TICKS {
                ticks as i16
            } else {
                GAP_MAX_TICKS as i16
            };
            let gap: i16 = Fxpt::from_units(GAP_START_UNITS - reduction).0;
            proof {
                assert(gap == gap_for(m0.physics_frames));
                assert(5760 <= gap <= 8000);
            }
            let wall_size: i16 = (GAME_FIELD_HEIGHT - gap) / 2;
            let r1 = self.rng.rand();
            let delta: i16 = (#[verifier::truncate] (r1 as i16)) % SKEW_STEP_RANGE;
            let mut skew: i16 = self.wall_skew.0 + delta;
            if skew < -wall_size {
                skew = -wall_size;
            }
            if skew > wall_size {
                skew = wall_size;
            }
            self.wall_skew = Fxpt(skew);
            self.walls.push(
                Obstacle {
                    x: Fxpt(last_x + OBSTACLE_WIDTH),
                    y: Fxpt(0),
                    width: Fxpt(OBSTACLE_WIDTH),
                    height: Fxpt(wall_size + skew),
                },
            );
            self.walls.push(
                Obstacle {
                    x: Fxpt(last_x + OBSTACLE_WIDTH),
                    y: Fxpt(GAME_FIELD_HEIGHT - (wall_size - skew)),
                    width: Fxpt(OBSTACLE_WIDTH),
                    height: Fxpt(wall_size - skew),
                },
            );
            if self.physics_frames - self.last_obstacle >= FLOAT_OBSTACLE_SPACING {
                let r2 = self.rng.rand();
                let location: i16 = ((#[verifier::truncate] (r2 as u16)) % ((gap
                    - FLOAT_OBSTACLE_HEIGHT) as u16)) as i16;
                self.obstacles.push(
                    Obstacle {
                        x: Fxpt(last_x + OBSTACLE_WIDTH),
                        y: Fxpt(wall_size + skew + location),
                        width: Fxpt(OBSTACLE_WIDTH),
                        height: Fxpt(FLOAT_OBSTACLE_HEIGHT),
                    },
                );
                self.last_obstacle = self.physics_frames;
            }
        }
        let ghost walls_pre = self.walls@;
        let ghost obstacles_pre = self.obstacles@;
        proof {
            assert forall|i: int| 0 <= i < walls_pre.len() implies rect_bounds(
                #[trigger] walls_pre[i],
            ) by {}
            assert forall|i: int| 0 <= i < obstacles_pre.len() implies rect_bounds(
                #[trigger] obstacles_pre[i],
            ) by {}
        }

        // Cull what has fully left the field.
        let culled_walls = cull_rects(&self.walls);
        self.walls = culled_walls;
        let culled_obstacles = cull_rects(&self.obstacles);
        self.obstacles = culled_obstacles;
        proof {
            lemma_bounds_through_subset(walls_pre, self.walls@);
            lemma_bounds_through_subset(obstacles_pre, self.obstacles@);
        }

        // Gravity, then friction as a shift-then-multiply, then integration.
        self.player_speed = Fxpt(self.player_speed.0 + GRAVITY);
        proof {
            lemma_shr_is_div(self.player_speed.0);
        }
        self.player_speed = Fxpt((self.player_speed.0 >> FIXED_POINT_SHIFT) * FRICTION);
        self.player_y = Fxpt(self.player_y.0 + self.player_speed.0);

        // Clamp the player into the field.
        if self.player_y.0 < 0 {
            self.player_y = Fxpt(0);
        }
        if self.player_y.0 > GAME_FIELD_HEIGHT - PLAYER_SIZE {
            self.player_y = Fxpt(GAME_FIELD_HEIGHT - PLAYER_SIZE);
        }

        // Collision: any strict overlap with a wall or obstacle kills.
        let hit_obstacles = any_player_hit(&self.obstacles, self.player_y);
        let hit_walls = any_player_hit(&self.walls, self.player_y);
        if hit_obstacles || hit_walls {
            self.dead = true;
        }

        self.physics_frames = self.physics_frames + 1;

        proof {
            assert(self@ =~= step_model(m0, live_flying));
        }
    }

    /// One render tick's worth of physics: steps unless the field is dead,
    /// in which case the state is left untouched.
    pub fn tick(&mut self, live_flying: bool)
        requires
            old(self)@.wf(),
            old(self)@.physics_frames < u64::MAX,
        ensures
            old(self)@.dead ==> final(self)@ == old(self)@,
            !old(self)@.dead ==> final(self)@ == step_model(old(self)@, live_flying),
            final(self)@.wf(),
    {
        if !self.dead {
            self.step(live_flying);
        }
    }
}

} // verus!
