use flappy_core::field::{
    GameField, FLOAT_OBSTACLE_HEIGHT, GAME_FIELD_HEIGHT, GAME_FIELD_WIDTH, GAP_MAX_TICKS,
    GAP_TICK_FRAMES, OBSTACLE_WIDTH, PLAYER_SIZE, PLAYER_X, SCROLL_STEP,
};
use flappy_core::fxpt::Fxpt;
use flappy_core::geom::Obstacle;
use flappy_core::rng::Rng;

fn snapshot(f: &GameField) -> (i16, i16, Vec<(i16, i16, i16, i16)>, Vec<(i16, i16, i16, i16)>, bool, u64, u64) {
    let rects = |v: &Vec<Obstacle>| {
        v.iter().map(|o| (o.x.0, o.y.0, o.width.0, o.height.0)).collect::<Vec<_>>()
    };
    (
        f.player_y.0,
        f.player_speed.0,
        rects(&f.walls),
        rects(&f.obstacles),
        f.dead,
        f.physics_frames,
        f.rng.0,
    )
}

#[test]
fn rng_is_reproducible_and_returns_pre_state() {
    let mut a = Rng::new();
    assert_eq!(a.rand(), 0x1337133713371337);
    // The recurrence, written out once by hand.
    let mut s: u64 = 0x1337133713371337;
    s ^= s << 13;
    s ^= s >> 17;
    s ^= s << 43;
    assert_eq!(a.rand(), s);
    // Two generators from the same seed agree draw for draw.
    let mut c = Rng::new();
    let mut d = Rng::new();
    for _ in 0..100 {
        assert_eq!(c.rand(), d.rand());
    }
}

#[test]
fn replay_runs_are_bit_identical() {
    // A replay long enough to see spawning, culling and a wall collision.
    let mut replay = Vec::new();
    for i in 0..400u32 {
        replay.push(if i % 3 == 0 { b'1' } else { b'0' });
    }
    let mut a = GameField::new();
    let mut b = GameField::new();
    a.attach_replay(&replay);
    b.attach_replay(&replay);
    for _ in 0..400 {
        if a.dead {
            break;
        }
        // Feed the two runs opposite live signals: under a replay the live
        // input must not matter.
        a.step(true);
        b.step(false);
        assert_eq!(snapshot(&a), snapshot(&b));
    }
    // Both runs agree on whether and when they ended.
    assert_eq!(a.dead, b.dead);
    assert_eq!(a.physics_frames, b.physics_frames);
}

#[test]
fn straight_fall_replay_dies_on_the_same_frame() {
    // Falling straight with no input ends on a wall; two copies of the run
    // must record the same death frame.
    let replay = vec![b'0'; 60];
    let mut a = GameField::new();
    let mut b = GameField::new();
    a.attach_replay(&replay);
    b.attach_replay(&replay);
    for _ in 0..60 {
        if a.dead {
            break;
        }
        a.step(true);
        b.step(false);
        assert_eq!(snapshot(&a), snapshot(&b));
    }
    assert!(a.dead && b.dead, "a straight fall must end on the bottom wall");
    assert_eq!(a.physics_frames, b.physics_frames);
}

#[test]
fn straight_fall_descends_then_clamps() {
    let mut f = GameField::new();
    assert_eq!(f.player_y.0, GAME_FIELD_HEIGHT / 2);
    let floor = GAME_FIELD_HEIGHT - PLAYER_SIZE;
    let mut prev = f.player_y.0;
    for _ in 0..30 {
        f.step(false);
        assert!(!f.dead);
        let y = f.player_y.0;
        if prev < floor {
            assert!(y > prev, "player must keep falling until clamped");
        } else {
            assert_eq!(y, floor, "player must stay clamped at the floor");
        }
        prev = y;
    }
    assert_eq!(prev, floor);
}

#[test]
fn replay_exhaustion_behaves_like_no_input() {
    let mut a = GameField::new();
    a.attach_replay(&vec![b'1'; 5]);
    let mut b = GameField::new();
    for step in 0..10 {
        // The replayed field ignores its live signal entirely.
        a.step(true);
        // The live field is flown by hand for five steps, then released.
        b.step(step < 5);
        assert_eq!(snapshot(&a), snapshot(&b));
    }
    let recorded: Vec<u8> = a.inputs.iter().copied().collect();
    assert_eq!(recorded, b"1111100000".to_vec());
    let recorded_live: Vec<u8> = b.inputs.iter().copied().collect();
    assert_eq!(recorded_live, recorded);
    // The exhausted queue is still attached and still harmless.
    assert!(a.replay.is_some());
    assert_eq!(a.physics_frames, 10);
}

#[test]
fn forced_collision_kills_and_freezes() {
    let mut f = GameField::new();
    // A box that fully contains the player footprint, even after one step
    // of scrolling and falling.
    f.obstacles.push(Obstacle {
        x: Fxpt(PLAYER_X - 100),
        y: Fxpt(GAME_FIELD_HEIGHT / 2 - 100),
        width: Fxpt(PLAYER_SIZE + 200),
        height: Fxpt(PLAYER_SIZE + 1600),
    });
    f.step(false);
    assert!(f.dead, "a contained player must die on the next collision check");
    assert_eq!(f.physics_frames, 1);
    let frozen = snapshot(&f);
    for _ in 0..5 {
        f.tick(true);
        assert_eq!(snapshot(&f), frozen, "a dead field must not step");
    }
}

#[test]
fn physics_frames_count_steps_exactly() {
    let mut f = GameField::new();
    for k in 1..=25u64 {
        f.step(false);
        assert_eq!(f.physics_frames, k);
        assert_eq!(f.frames, 0, "rendering is counted separately");
    }
    f.count_render_frame();
    assert_eq!(f.frames, 1);
    assert_eq!(f.physics_frames, 25);
}

#[test]
fn culling_keeps_only_visible_rects_and_gap_narrows() {
    let mut f = GameField::new();
    let total_steps = (GAP_MAX_TICKS * GAP_TICK_FRAMES + 300) as usize;
    let mut prev_gap: Option<i16> = None;
    let mut min_gap_seen: Option<i16> = None;
    for _ in 0..total_steps {
        // Keep the simulation going past collisions: culling and spawning
        // are what this test watches.
        f.dead = false;
        let spawn_expected = match f.walls.last() {
            None => true,
            Some(w) => w.x.0 - SCROLL_STEP <= GAME_FIELD_WIDTH - OBSTACLE_WIDTH,
        };
        f.step(false);
        // Culling correctness: nothing past the left boundary survives.
        for o in f.walls.iter().chain(f.obstacles.iter()) {
            assert!(o.x.0 + o.width.0 > 0);
        }
        if spawn_expected {
            let n = f.walls.len();
            assert!(n >= 2);
            let top = &f.walls[n - 2];
            let bottom = &f.walls[n - 1];
            assert_eq!(top.y.0, 0);
            assert_eq!(bottom.y.0 + bottom.height.0, GAME_FIELD_HEIGHT);
            let gap = GAME_FIELD_HEIGHT - (top.height.0 + bottom.height.0);
            assert!(gap > 0);
            if let Some(p) = prev_gap {
                assert!(gap <= p, "gap must never widen over successive spawns");
            }
            prev_gap = Some(gap);
            min_gap_seen = Some(gap);
        }
    }
    // After enough frames the gap sits at its fixed minimum: 180 whole
    // units, scaled.
    assert_eq!(min_gap_seen, Some(180 * 32));
}

#[test]
fn floating_obstacles_sit_inside_the_gap() {
    let mut f = GameField::new();
    let mut seen = 0;
    for _ in 0..600 {
        f.dead = false;
        let before = f.obstacles.len();
        f.step(false);
        if f.obstacles.len() > before {
            seen += 1;
            let o = f.obstacles.last().unwrap();
            assert_eq!(o.height.0, FLOAT_OBSTACLE_HEIGHT);
            assert_eq!(o.width.0, OBSTACLE_WIDTH);
            let n = f.walls.len();
            let top = &f.walls[n - 2];
            let bottom = &f.walls[n - 1];
            // Spawned within the gap of the wall pair it arrived with.
            assert!(o.y.0 >= top.height.0);
            assert!(o.y.0 + o.height.0 <= bottom.y.0);
        }
    }
    assert!(seen > 0, "the run must actually spawn floating obstacles");
}

#[test]
fn tick_steps_only_while_alive() {
    let mut f = GameField::new();
    f.tick(false);
    f.tick(false);
    assert_eq!(f.physics_frames, 2);
    f.dead = true;
    f.tick(false);
    assert_eq!(f.physics_frames, 2);
    f.dead = false;
    f.tick(false);
    assert_eq!(f.physics_frames, 3);
}
