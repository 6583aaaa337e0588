//! Tests of the character state machine: input mapping, animation
//! sub-stepping, mode transitions and whole ticks against geometry.

use platformer_core::ferris::{
    advance_animation, character_input, character_move_state, do_accel_x, do_friction_x, react,
    think, CharacterState, Direction, Mode, Movement,
};
use platformer_core::geom::{Rect, Vec2};
use platformer_core::level::{CollisionShape, Level};

fn level_of(shapes: Vec<CollisionShape>) -> Level {
    Level { collision_shapes: shapes }
}

fn shape(left: i64, right: i64, bottom: i64, top: i64) -> CollisionShape {
    CollisionShape::Rect(Rect { left, right, bottom, top })
}

#[test]
fn input_left_and_right_cancel() {
    let mut s = CharacterState::default();
    character_input(&mut s, true, true, false);
    assert_eq!(s.input_state.xaxis, None);
    assert_eq!(s.face_dir, Direction::East);

    character_input(&mut s, true, false, false);
    assert_eq!(s.input_state.xaxis, Some(Movement::Left));
    assert_eq!(s.face_dir, Direction::West);

    character_input(&mut s, false, true, true);
    assert_eq!(s.input_state.xaxis, Some(Movement::Right));
    assert_eq!(s.face_dir, Direction::East);
    assert!(s.input_state.jump);

    character_input(&mut s, false, false, false);
    assert_eq!(s.input_state.xaxis, None);
    // face direction keeps its last value with nothing pressed
    assert_eq!(s.face_dir, Direction::East);
}

#[test]
fn animation_substepping_consumes_whole_frames() {
    // A 250 ms tick against 100 ms frames consumes two whole frames of
    // the Walk cycle: the index advances two steps and the countdown
    // ends strictly positive and at most one frame's duration.
    let mut s = CharacterState::default();
    s.mode = Mode::Walk;
    s.state_step = 0;
    s.state_time_left = 100;
    s.input_state.xaxis = Some(Movement::Right);

    let walked = advance_animation(&mut s, 250);
    assert_eq!(s.state_step, 2);
    assert_eq!(s.state_time_left, 50);
    assert!(0 < s.state_time_left && s.state_time_left <= 100);
    // two Walk frames of 4 pixels each were consumed
    assert_eq!(walked, 8);
}

#[test]
fn animation_wraps_through_the_walk_cycle() {
    // 440 ms consume four frames, wrapping through the four-frame table
    // back to frame 0.
    let mut s = CharacterState::default();
    s.mode = Mode::Walk;
    s.state_step = 0;
    s.state_time_left = 50;

    let walked = advance_animation(&mut s, 440);
    assert_eq!(s.state_step, 0);
    assert_eq!(s.state_time_left, 10);
    assert_eq!(walked, 16);
}

#[test]
fn stand_jump_transitions_to_air_with_impulse() {
    let mut s = CharacterState::default();
    s.mode = Mode::Stand;
    s.state_step = 0;
    s.state_time_left = 100;
    s.input_state.jump = true;

    let mv = think(&mut s, 100);
    assert_eq!(s.mode, Mode::Air);
    assert_eq!(s.speed.y, 100);
    assert_eq!(s.speed.x, 0);
    assert_eq!(s.state_step, 0);
    assert_eq!(s.state_time_left, 100);
    // the tick already rises by impulse x duration
    assert_eq!(mv.y, 100 * 100);
    assert_eq!(mv.x, 0);
}

#[test]
fn walk_jump_seeds_runjump_speed() {
    let mut s = CharacterState::default();
    s.mode = Mode::Walk;
    s.state_step = 0;
    s.state_time_left = 100;
    s.input_state.jump = true;
    s.input_state.xaxis = Some(Movement::Left);

    think(&mut s, 16);
    assert_eq!(s.mode, Mode::Air);
    assert_eq!(s.speed.y, 100);
    assert_eq!(s.speed.x, -32);
}

#[test]
fn air_landing_transitions_to_walk_with_zero_vertical_speed() {
    let mut s = CharacterState::default();
    s.mode = Mode::Air;
    s.speed = Vec2 { x: 10, y: -35 };

    react(&mut s, true);
    assert_eq!(s.mode, Mode::Walk);
    assert_eq!(s.speed.y, 0);
    assert_eq!(s.speed.x, 10);
    assert_eq!(s.state_step, 0);
    assert_eq!(s.state_time_left, 100);
}

#[test]
fn walk_losing_ground_transitions_to_air() {
    let mut s = CharacterState::default();
    s.mode = Mode::Walk;
    s.state_step = 2;
    s.state_time_left = 60;

    react(&mut s, false);
    assert_eq!(s.mode, Mode::Air);
    assert_eq!(s.state_step, 0);
    assert_eq!(s.state_time_left, 100);
}

#[test]
fn walk_without_input_stands_still() {
    let mut s = CharacterState::default();
    s.mode = Mode::Walk;
    s.state_step = 3;
    s.state_time_left = 70;

    let mv = think(&mut s, 16);
    assert_eq!(s.mode, Mode::Stand);
    assert_eq!(s.state_step, 0);
    assert_eq!(mv, Vec2 { x: 0, y: 0 });
}

#[test]
fn air_gravity_pulls_toward_terminal_fall() {
    let mut s = CharacterState::default();
    s.mode = Mode::Air;
    s.speed = Vec2 { x: 0, y: -49 };

    let mv = think(&mut s, 1000);
    assert_eq!(s.speed.y, -54);
    assert_eq!(mv.y, -54 * 1000);

    // at -54 the decrement no longer applies
    let mv2 = think(&mut s, 1000);
    assert_eq!(s.speed.y, -54);
    assert_eq!(mv2.y, -54 * 1000);
}

#[test]
fn friction_decays_toward_zero_without_overshoot() {
    let mut v = Vec2 { x: 5, y: 7 };
    do_friction_x(&mut v);
    assert_eq!(v, Vec2 { x: 4, y: 7 });

    let mut v = Vec2 { x: 1, y: 0 };
    do_friction_x(&mut v);
    assert_eq!(v.x, 0);

    let mut v = Vec2 { x: -3, y: 0 };
    do_friction_x(&mut v);
    assert_eq!(v.x, -2);

    let mut v = Vec2 { x: 0, y: 0 };
    do_friction_x(&mut v);
    assert_eq!(v.x, 0);
}

#[test]
fn accel_caps_at_max_air_speed() {
    let mut v = Vec2 { x: 30, y: 0 };
    do_accel_x(&mut v, &Movement::Right);
    assert_eq!(v.x, 32);

    let mut v = Vec2 { x: 0, y: 0 };
    do_accel_x(&mut v, &Movement::Left);
    assert_eq!(v.x, -4);

    let mut v = Vec2 { x: -30, y: 0 };
    do_accel_x(&mut v, &Movement::Left);
    assert_eq!(v.x, -32);
}

#[test]
fn sprite_index_follows_mode_frame_and_facing() {
    let mut s = CharacterState::default();
    s.mode = Mode::Walk;
    s.state_step = 1;
    s.face_dir = Direction::East;
    assert_eq!(s.sprite_index(), 5);
    s.face_dir = Direction::West;
    assert_eq!(s.sprite_index(), 1);

    s.mode = Mode::Air;
    s.state_step = 0;
    assert_eq!(s.sprite_index(), 8);
    s.face_dir = Direction::East;
    assert_eq!(s.sprite_index(), 9);
}

#[test]
fn direction_helpers() {
    assert_eq!(Direction::default(), Direction::East);
    assert_eq!(Direction::East.to_vec(), Vec2 { x: 1, y: 0 });
    assert_eq!(Direction::West.to_vec(), Vec2 { x: -1, y: 0 });
    let all = Direction::all();
    assert_eq!(all.len(), 4);
    assert_eq!(all[0].index(), 0);
    assert_eq!(all[1].index(), 1);
    assert_eq!(Direction::South.index(), 2);
    assert_eq!(Direction::North.index(), 3);
}

#[test]
fn tick_walks_along_the_floor() {
    // Standing on a floor whose top is at y = 16 pixels, walking right:
    // one 100 ms tick consumes one Walk frame (4 pixels) and stays
    // grounded.
    let level = level_of(vec![shape(0, 160000, 0, 16000)]);
    let mut s = CharacterState::default();
    s.mode = Mode::Walk;
    s.state_step = 0;
    s.state_time_left = 100;
    s.input_state.xaxis = Some(Movement::Right);
    s.pixel_coord = Vec2 { x: 8000, y: 24000 };

    let out = character_move_state(&mut s, &level, 100);
    assert_eq!(s.pixel_coord, Vec2 { x: 12000, y: 24000 });
    assert_eq!(s.mode, Mode::Walk);
    assert!(out.on_ground);
    assert!(!out.stuck);
    assert_eq!(out.render_pos, Vec2 { x: 12000, y: 24000 });
}

#[test]
fn tick_clamps_walk_against_a_wall() {
    // A wall 2 pixels ahead clamps the 4-pixel walk step to exactly the
    // contact distance.
    let level = level_of(vec![
        shape(0, 160000, 0, 16000),      // floor
        shape(18000, 34000, 0, 32000),   // wall ahead
    ]);
    let mut s = CharacterState::default();
    s.mode = Mode::Walk;
    s.state_step = 0;
    s.state_time_left = 100;
    s.input_state.xaxis = Some(Movement::Right);
    s.pixel_coord = Vec2 { x: 8000, y: 24000 };

    let out = character_move_state(&mut s, &level, 100);
    // mover right edge was at 16000; the wall starts at 18000
    assert_eq!(s.pixel_coord, Vec2 { x: 10000, y: 24000 });
    assert!(out.on_ground);
    assert!(!out.stuck);
}

#[test]
fn jump_arc_lands_back_on_the_floor() {
    // A full jump arc: the impulse carries the character up, gravity
    // brings it back, and the ground probe (which reaches 14 pixels
    // below center, 6 below the feet) flips it back to Walk with
    // vertical speed 0 once it is within reach of the floor.
    let level = level_of(vec![shape(0, 160000, 0, 16000)]);
    let mut s = CharacterState::default();
    s.mode = Mode::Stand;
    s.state_step = 0;
    s.state_time_left = 100;
    s.pixel_coord = Vec2 { x: 8000, y: 24000 };
    s.input_state.jump = true;

    let out = character_move_state(&mut s, &level, 100);
    assert_eq!(s.mode, Mode::Air);
    assert!(!out.on_ground);
    assert!(s.pixel_coord.y > 24000);
    s.input_state.jump = false;

    let mut landed = false;
    for _tick in 0..100 {
        let out = character_move_state(&mut s, &level, 100);
        if out.on_ground {
            landed = true;
            break;
        }
    }
    assert!(landed);
    assert_eq!(s.mode, Mode::Walk);
    assert_eq!(s.speed.y, 0);
    assert_eq!(s.pixel_coord.x, 8000);
    // never below geometric contact with the floor (center 8 pixels
    // above its top edge), and within the probe's reach of it
    assert!(24000 <= s.pixel_coord.y && s.pixel_coord.y <= 30000);
}

#[test]
fn tick_jump_leaves_the_ground() {
    // Jumping from stand with no geometry below: the character rises by
    // the impulse times the tick and stays airborne.
    let level = level_of(vec![]);
    let mut s = CharacterState::default();
    s.mode = Mode::Stand;
    s.state_step = 0;
    s.state_time_left = 100;
    s.input_state.jump = true;
    s.pixel_coord = Vec2 { x: 8000, y: 24000 };

    let out = character_move_state(&mut s, &level, 100);
    assert_eq!(s.mode, Mode::Air);
    assert_eq!(s.speed.y, 100);
    assert_eq!(s.pixel_coord, Vec2 { x: 8000, y: 24000 + 10000 });
    assert!(!out.on_ground);
}
