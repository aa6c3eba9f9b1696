use flappy_core::field::{GameField, GAME_FIELD_HEIGHT, GAME_FIELD_WIDTH, PLAYER_SIZE, PLAYER_X};
use flappy_core::fxpt::Fxpt;
use flappy_core::geom::Obstacle;
use flappy_core::objects::{player_color, Object};

#[test]
fn fresh_field_renders_only_the_player() {
    let f = GameField::new();
    let objs = f.render_objects();
    assert_eq!(objs.len(), 1);
    match objs[0] {
        Object::Rectangle { x, y, width, height } => {
            assert_eq!(x, Fxpt(PLAYER_X));
            assert_eq!(y, Fxpt(GAME_FIELD_HEIGHT / 2));
            assert_eq!(width, Fxpt(PLAYER_SIZE));
            assert_eq!(height, Fxpt(PLAYER_SIZE));
        },
        _ => panic!("the player is drawn as a rectangle"),
    }
}

#[test]
fn object_list_is_rebuilt_each_call() {
    let mut f = GameField::new();
    f.step(false);
    let a = f.render_objects();
    let b = f.render_objects();
    assert_eq!(a, b);
    // Two wall segments spawned on the first step, plus the player.
    assert_eq!(a.len(), 3);
}

#[test]
fn rects_are_clipped_to_the_field() {
    let mut f = GameField::new();
    // Sticking out past the left boundary: drawn from 0, narrowed.
    f.obstacles.push(Obstacle {
        x: Fxpt(-400),
        y: Fxpt(0),
        width: Fxpt(800),
        height: Fxpt(100),
    });
    let objs = f.render_objects();
    match objs[0] {
        Object::Rectangle { x, y, width, height } => {
            assert_eq!(x, Fxpt(0));
            assert_eq!(y, Fxpt(0));
            assert_eq!(width, Fxpt(400));
            assert_eq!(height, Fxpt(100));
        },
        _ => panic!("obstacles are drawn as rectangles"),
    }
    // Never drawn past the right boundary either.
    let mut g = GameField::new();
    g.obstacles.push(Obstacle {
        x: Fxpt(GAME_FIELD_WIDTH - 100),
        y: Fxpt(50),
        width: Fxpt(800),
        height: Fxpt(100),
    });
    let objs = g.render_objects();
    match objs[0] {
        Object::Rectangle { x, width, .. } => {
            assert_eq!(x, Fxpt(GAME_FIELD_WIDTH - 100));
            assert_eq!(width, Fxpt(100));
        },
        _ => panic!("obstacles are drawn as rectangles"),
    }
}

#[test]
fn player_color_cycles_with_wrapping_arithmetic() {
    assert_eq!(player_color(0), (0, 0, 0));
    assert_eq!(player_color(1), (3, 7, 5));
    assert_eq!(player_color(100), (44, 188, 244));
    // The channels fold the frame count to a byte first.
    assert_eq!(player_color(256), player_color(0));
    assert_eq!(player_color(1000), player_color(1000 % 256));
}
