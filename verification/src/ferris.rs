//! The character finite-state machine: discrete behavior modes (Stand /
//! Walk / Air), a sub-frame animation clock, accumulated speed and face
//! direction, advanced once per simulation tick and clamped against the
//! level geometry.

use vstd::prelude::*;
use crate::geom::{Rect, Vec2};
use crate::level::{spec_any_stuck, spec_min_frac, spec_probe_hit, Level};
use crate::movement::{scale, scale1, Frac};
use crate::SUBPIXELS;

verus! {

/// Duration of every animation frame, in milliseconds.
pub const FRAME_MS: i64 = 100;

/// Upper bound on one tick's duration, in milliseconds.
pub const MAX_TICK_MS: i64 = 1000;

/// Vertical speed seeded by a jump, in pixels per second.
pub const JUMP_IMPULSE: i64 = 100;

/// Horizontal speed seeded by a running jump, in pixels per second.
pub const RUNJUMP_SPEED: i64 = 32;

/// Per-tick decrement of vertical speed while airborne.
pub const GRAVITY_DECREMENT: i64 = 5;

/// Most negative vertical speed at which gravity still applies.
pub const TERMINAL_FALL_SPEED: i64 = -50;

/// Per-tick horizontal acceleration while airborne with input held.
pub const AIR_ACCEL: i64 = 4;

/// Cap on horizontal speed while airborne.
pub const AIR_MAX_SPEED: i64 = 32;

/// Per-tick linear friction on horizontal speed while airborne with no
/// input held.
pub const AIR_DECEL: i64 = 1;

/// Vertical spawn coordinate, in subpixels (14 tile rows of 16 pixels).
pub const SPAWN_Y: i64 = 224 * SUBPIXELS;

/// A compass direction; the character faces East or West.
#[derive(Clone, Copy, Debug, PartialEq, Eq, Structural)]
pub enum Direction {
    East,
    West,
    North,
    South,
}

impl Default for Direction {
    fn default() -> (d: Self)
        ensures
            d == Direction::East,
    {
        Direction::East
    }
}

impl Direction {
    /// The unit vector of the direction.
    pub fn to_vec(&self) -> (v: Vec2)
        ensures
            *self == Direction::East ==> v == (Vec2 { x: 1i64, y: 0i64 }),
            *self == Direction::West ==> v == (Vec2 { x: -1i64, y: 0i64 }),
            *self == Direction::South ==> v == (Vec2 { x: 0i64, y: -1i64 }),
            *self == Direction::North ==> v == (Vec2 { x: 0i64, y: 1i64 }),
    {
        match self {
            Direction::East => Vec2 { x: 1, y: 0 },
            Direction::West => Vec2 { x: -1, y: 0 },
            Direction::South => Vec2 { x: 0, y: -1 },
            Direction::North => Vec2 { x: 0, y: 1 },
        }
    }

    /// All four directions, in a fixed order.
    pub fn all() -> (r: [Direction; 4])
        ensures
            r@ == seq![Direction::East, Direction::West, Direction::North, Direction::South],
    {
        [Direction::East, Direction::West, Direction::North, Direction::South]
    }

    /// A stable index for each direction.
    pub fn index(&self) -> (i: usize)
        ensures
            *self == Direction::East ==> i == 0,
            *self == Direction::West ==> i == 1,
            *self == Direction::South ==> i == 2,
            *self == Direction::North ==> i == 3,
    {
        match self {
            Direction::East => 0,
            Direction::West => 1,
            Direction::South => 2,
            Direction::North => 3,
        }
    }
}

/// A held movement key.
#[derive(Clone, Copy, Debug, PartialEq, Eq, Structural)]
pub enum Movement {
    Up,
    Down,
    Left,
    Right,
}

/// The per-tick discrete input intent.
#[derive(Clone, Copy, Debug, PartialEq, Eq, Structural)]
pub struct InputState {
    pub xaxis: Option<Movement>,
    pub yaxis: Option<Movement>,
    pub jump: bool,
}

impl Default for InputState {
    fn default() -> (s: Self)
        ensures
            s.xaxis is None,
            s.yaxis is None,
            !s.jump,
    {
        InputState { xaxis: None, yaxis: None, jump: false }
    }
}

/// The discrete behavior mode of a character.
#[derive(Clone, Copy, Debug, PartialEq, Eq, Structural)]
pub enum Mode {
    Stand,
    Walk,
    Air,
}

/// One animation frame: the sprite for each facing, the horizontal step
/// the frame contributes (pixels, signed by input), its duration and the
/// next frame of the cyclic table.
#[derive(Clone, Copy, Debug, PartialEq, Eq, Structural)]
pub struct Frame {
    pub sprite_west: u32,
    pub sprite_east: u32,
    pub step_x: i64,
    pub duration_ms: i64,
    pub next: usize,
}

/// How many frames the mode's animation table has: Stand and Air use a
/// single self-looping frame, Walk a four-frame cycle.
pub open spec fn spec_frame_count(mode: Mode) -> int {
    match mode {
        Mode::Stand => 1,
        Mode::Walk => 4,
        Mode::Air => 1,
    }
}

/// The mode's animation table, indexed by frame; out-of-range indices
/// give the table's first frame.
pub open spec fn spec_frame(mode: Mode, step: int) -> Frame {
    match mode {
        Mode::Stand => Frame { sprite_west: 0, sprite_east: 4, step_x: 0, duration_ms: FRAME_MS, next: 0 },
        Mode::Walk => if step == 1 {
            Frame { sprite_west: 1, sprite_east: 5, step_x: 4, duration_ms: FRAME_MS, next: 2 }
        } else if step == 2 {
            Frame { sprite_west: 2, sprite_east: 6, step_x: 4, duration_ms: FRAME_MS, next: 3 }
        } else if step == 3 {
            Frame { sprite_west: 3, sprite_east: 7, step_x: 4, duration_ms: FRAME_MS, next: 0 }
        } else {
            Frame { sprite_west: 0, sprite_east: 4, step_x: 4, duration_ms: FRAME_MS, next: 1 }
        },
        Mode::Air => Frame { sprite_west: 8, sprite_east: 9, step_x: 0, duration_ms: FRAME_MS, next: 0 },
    }
}

/// Look up one frame of a mode's animation table.
pub fn frame(mode: Mode, step: usize) -> (f: Frame)
    ensures
        f == spec_frame(mode, step as int),
{
    match mode {
        Mode::Stand => Frame { sprite_west: 0, sprite_east: 4, step_x: 0, duration_ms: FRAME_MS, next: 0 },
        Mode::Walk => if step == 1 {
            Frame { sprite_west: 1, sprite_east: 5, step_x: 4, duration_ms: FRAME_MS, next: 2 }
        } else if step == 2 {
            Frame { sprite_west: 2, sprite_east: 6, step_x: 4, duration_ms: FRAME_MS, next: 3 }
        } else if step == 3 {
            Frame { sprite_west: 3, sprite_east: 7, step_x: 4, duration_ms: FRAME_MS, next: 0 }
        } else {
            Frame { sprite_west: 0, sprite_east: 4, step_x: 4, duration_ms: FRAME_MS, next: 1 }
        },
        Mode::Air => Frame { sprite_west: 8, sprite_east: 9, step_x: 0, duration_ms: FRAME_MS, next: 0 },
    }
}

/// Per-character state, mutated once per tick by the state machine.
/// Positions are in subpixels, speeds in pixels per second.
#[derive(Clone, Copy, Debug, PartialEq, Eq, Structural)]
pub struct CharacterState {
    pub input_state: InputState,
    pub face_dir: Direction,
    pub mode: Mode,
    pub state_time_left: i64,
    pub state_step: usize,
    pub pixel_coord: Vec2,
    pub speed: Vec2,
}

impl CharacterState {
    /// The state machine's invariant: the frame index is inside the
    /// mode's table, the countdown is within one frame's duration, and
    /// speeds stay inside the bounds the physics rules enforce.
    pub open spec fn wf(self) -> bool {
        &&& 0 <= self.state_step < spec_frame_count(self.mode)
        &&& 0 <= self.state_time_left <= FRAME_MS
        &&& -AIR_MAX_SPEED <= self.speed.x <= AIR_MAX_SPEED
        &&& TERMINAL_FALL_SPEED - GRAVITY_DECREMENT < self.speed.y <= JUMP_IMPULSE
    }

    /// The sprite index the renderer shows: the current frame's sprite
    /// for the current facing.
    pub fn sprite_index(&self) -> (idx: u32)
        ensures
            idx == spec_sprite_index(*self),
    {
        let f = frame(self.mode, self.state_step);
        match self.face_dir {
            Direction::West => f.sprite_west,
            Direction::East => f.sprite_east,
            _ => 0,
        }
    }
}

/// The sprite shown for a state: West and East pick the frame's two
/// sprites, other facings fall back to sprite 0.
pub open spec fn spec_sprite_index(s: CharacterState) -> u32 {
    let f = spec_frame(s.mode, s.state_step as int);
    match s.face_dir {
        Direction::West => f.sprite_west,
        Direction::East => f.sprite_east,
        _ => 0u32,
    }
}

impl Default for CharacterState {
    /// A freshly spawned character: airborne over the spawn point.
    fn default() -> (s: Self)
        ensures
            s.mode == Mode::Air,
            s.state_step == 0,
            s.state_time_left == 0,
            s.pixel_coord == (Vec2 { x: 0i64, y: SPAWN_Y }),
            s.speed == (Vec2 { x: 0i64, y: 0i64 }),
            s.face_dir == Direction::East,
            s.input_state.xaxis is None,
            s.input_state.yaxis is None,
            !s.input_state.jump,
            s.wf(),
    {
        CharacterState {
            input_state: InputState::default(),
            face_dir: Direction::East,
            mode: Mode::Air,
            state_time_left: 0,
            state_step: 0,
            pixel_coord: Vec2 { x: 0, y: SPAWN_Y },
            speed: Vec2 { x: 0, y: 0 },
        }
    }
}

/// Map the held keys to this tick's intent: left and right held together
/// cancel to no horizontal intent, and the face direction follows the
/// pressed keys (right winning when both are held).
pub fn character_input(state: &mut CharacterState, left: bool, right: bool, jump: bool)
    ensures
        final(state).input_state.xaxis == (if left && !right {
            Some(Movement::Left)
        } else if right && !left {
            Some(Movement::Right)
        } else {
            None::<Movement>
        }),
        final(state).input_state.jump == jump,
        final(state).input_state.yaxis == old(state).input_state.yaxis,
        final(state).face_dir == (if right {
            Direction::East
        } else if left {
            Direction::West
        } else {
            old(state).face_dir
        }),
        final(state).mode == old(state).mode,
        final(state).state_time_left == old(state).state_time_left,
        final(state).state_step == old(state).state_step,
        final(state).pixel_coord == old(state).pixel_coord,
        final(state).speed == old(state).speed,
{
    state.input_state.xaxis = None;
    if left {
        state.face_dir = Direction::West;
        state.input_state.xaxis = Some(Movement::Left);
    }
    if right {
        state.face_dir = Direction::East;
        if state.input_state.xaxis.is_none() {
            state.input_state.xaxis = Some(Movement::Right);
        } else {
            // left and right cancel out
            state.input_state.xaxis = None;
        }
    }
    state.input_state.jump = jump;
}

/// The sign the horizontal intent applies to animation steps and seeded
/// speeds: left negates, right keeps, neutral zeroes.
pub open spec fn spec_input_sign(xaxis: Option<Movement>) -> int {
    match xaxis {
        Some(Movement::Left) => -1,
        Some(Movement::Right) => 1,
        _ => 0,
    }
}

/// Walked animation steps signed by the horizontal intent: left
/// negates, right keeps, neutral contributes zero.
pub open spec fn spec_signed_steps(xaxis: Option<Movement>, steps: int) -> int {
    match xaxis {
        Some(Movement::Left) => -steps,
        Some(Movement::Right) => steps,
        _ => 0,
    }
}

/// The animation clock after consuming elapsed time: while the countdown
/// is not positive, advance to the next frame of the cyclic table,
/// re-arm the countdown with that frame's duration, and accumulate that
/// frame's horizontal step. Returns (frame index, countdown, walked
/// pixels).
pub open spec fn spec_advance_anim(mode: Mode, step: int, time_left: int, walked: int) -> (
    int,
    int,
    int,
)
    decreases (if time_left > 0 {
        0int
    } else {
        1 - time_left
    }),
{
    if time_left > 0 {
        (step, time_left, walked)
    } else {
        let s2 = spec_frame(mode, step).next as int;
        let f2 = spec_frame(mode, s2);
        spec_advance_anim(mode, s2, time_left + f2.duration_ms, walked + f2.step_x)
    }
}

/// Advance the animation clock by one tick's elapsed milliseconds,
/// consuming as many whole frames as fit (animation sub-stepping).
/// Afterwards the countdown is strictly positive and at most one frame's
/// duration, and the walked distance is the sum of the consumed frames'
/// horizontal steps (unsigned; the caller applies the input sign).
pub fn advance_animation(state: &mut CharacterState, d_ms: i64) -> (walked_px: i64)
    requires
        old(state).wf(),
        0 <= d_ms <= MAX_TICK_MS,
    ensures
        ({
            let r = spec_advance_anim(
                old(state).mode,
                old(state).state_step as int,
                old(state).state_time_left - d_ms,
                0,
            );
            &&& final(state).state_step == r.0
            &&& final(state).state_time_left == r.1
            &&& walked_px == r.2
        }),
        0 < final(state).state_time_left <= FRAME_MS,
        0 <= final(state).state_step < spec_frame_count(final(state).mode),
        0 <= walked_px <= 44,
        final(state).mode == old(state).mode,
        final(state).input_state == old(state).input_state,
        final(state).face_dir == old(state).face_dir,
        final(state).pixel_coord == old(state).pixel_coord,
        final(state).speed == old(state).speed,
        final(state).wf(),
{
    let mode = state.mode;
    let ghost step0 = state.state_step as int;
    let ghost tl0 = state.state_time_left - d_ms as int;
    let mut step: usize = state.state_step;
    let mut tl: i64 = state.state_time_left - d_ms;
    let mut walked: i64 = 0;
    while tl <= 0
        invariant
            spec_advance_anim(mode, step as int, tl as int, walked as int) == spec_advance_anim(
                mode,
                step0,
                tl0,
                0,
            ),
            0 <= step < spec_frame_count(mode),
            tl <= FRAME_MS,
            -MAX_TICK_MS <= tl0 <= tl,
            0 <= walked,
            walked * FRAME_MS <= 4 * (tl - tl0),
        decreases FRAME_MS + 1 - tl,
    {
        let next = frame(mode, step).next;
        let f = frame(mode, next);
        step = next;
        tl = tl + f.duration_ms;
        walked = walked + f.step_x;
    }
    state.state_step = step;
    state.state_time_left = tl;
    walked
}

/// Half the character's square bounding box, in subpixels (a 16-pixel
/// sprite centered on its position).
pub const CHAR_HALF_EXTENT: i64 = 8 * SUBPIXELS;

/// Offset of the downward ground probe from the character's position.
pub const PROBE_OFFSET_X: i64 = 8 * SUBPIXELS;

/// Offset of the downward ground probe from the character's position.
pub const PROBE_OFFSET_Y: i64 = -14 * SUBPIXELS;

/// Bound on a character's position (half the coordinate limit) so that
/// one tick's geometry stays inside the coordinate limit.
pub const POS_LIMIT: i64 = 0x8000_0000;

/// The character's bounding rectangle at a position.
pub open spec fn spec_char_rect(pos: Vec2) -> Rect {
    Rect {
        left: (pos.x - CHAR_HALF_EXTENT) as i64,
        right: (pos.x + CHAR_HALF_EXTENT) as i64,
        bottom: (pos.y - CHAR_HALF_EXTENT) as i64,
        top: (pos.y + CHAR_HALF_EXTENT) as i64,
    }
}

/// The character's bounding rectangle at a position.
pub fn char_rect(pos: &Vec2) -> (r: Rect)
    requires
        -POS_LIMIT <= pos.x <= POS_LIMIT,
        -POS_LIMIT <= pos.y <= POS_LIMIT,
    ensures
        r == spec_char_rect(*pos),
        r.wf(),
{
    Rect {
        left: pos.x - CHAR_HALF_EXTENT,
        right: pos.x + CHAR_HALF_EXTENT,
        bottom: pos.y - CHAR_HALF_EXTENT,
        top: pos.y + CHAR_HALF_EXTENT,
    }
}

/// Horizontal speed after one tick of airborne friction: reduced by the
/// fixed decrement toward zero, never overshooting past zero.
pub open spec fn spec_friction_x(vx: int) -> int {
    if -AIR_DECEL <= vx <= AIR_DECEL {
        0
    } else if vx > 0 {
        vx - AIR_DECEL
    } else {
        vx + AIR_DECEL
    }
}

/// Apply one tick of airborne friction to the horizontal speed.
pub fn do_friction_x(speed: &mut Vec2)
    ensures
        final(speed).x == spec_friction_x(old(speed).x as int),
        final(speed).y == old(speed).y,
        old(speed).x >= 0 ==> 0 <= final(speed).x <= old(speed).x,
        old(speed).x <= 0 ==> old(speed).x <= final(speed).x <= 0,
{
    if -AIR_DECEL <= speed.x && speed.x <= AIR_DECEL {
        speed.x = 0;
    } else if speed.x > 0 {
        speed.x = speed.x - AIR_DECEL;
    } else {
        speed.x = speed.x + AIR_DECEL;
    }
}

/// Horizontal speed after one tick of airborne acceleration toward the
/// held direction, capped at the maximum air speed.
pub open spec fn spec_accel_x(vx: int, m: Movement) -> int {
    match m {
        Movement::Right => if vx + AIR_ACCEL > AIR_MAX_SPEED {
            AIR_MAX_SPEED as int
        } else {
            vx + AIR_ACCEL
        },
        Movement::Left => if vx - AIR_ACCEL < -AIR_MAX_SPEED {
            -AIR_MAX_SPEED as int
        } else {
            vx - AIR_ACCEL
        },
        _ => vx,
    }
}

/// Apply one tick of airborne acceleration toward the held direction.
pub fn do_accel_x(speed: &mut Vec2, movement: &Movement)
    requires
        -AIR_MAX_SPEED <= old(speed).x <= AIR_MAX_SPEED,
    ensures
        final(speed).x == spec_accel_x(old(speed).x as int, *movement),
        final(speed).y == old(speed).y,
        -AIR_MAX_SPEED <= final(speed).x <= AIR_MAX_SPEED,
{
    match movement {
        Movement::Right => {
            let x = speed.x + AIR_ACCEL;
            speed.x = if x > AIR_MAX_SPEED {
                AIR_MAX_SPEED
            } else {
                x
            };
        },
        Movement::Left => {
            let x = speed.x - AIR_ACCEL;
            speed.x = if x < -AIR_MAX_SPEED {
                -AIR_MAX_SPEED
            } else {
                x
            };
        },
        _ => (),
    }
}

/// The horizontal speed a jump seeds, signed by the held direction.
pub open spec fn spec_jump_speed_x(xaxis: Option<Movement>) -> int {
    spec_input_sign(xaxis) * RUNJUMP_SPEED
}

/// The state right after a jump launches: airborne, animation reset,
/// vertical speed seeded with the jump impulse and horizontal speed with
/// the run-jump speed signed by the held direction.
pub open spec fn spec_jump_state(s: CharacterState) -> CharacterState {
    CharacterState {
        mode: Mode::Air,
        state_step: 0,
        state_time_left: FRAME_MS,
        speed: Vec2 { x: spec_jump_speed_x(s.input_state.xaxis) as i64, y: JUMP_IMPULSE },
        ..s
    }
}

/// The mode-specific physics of one tick ("think"): the state after it
/// and the displacement it adds, in subpixels.
///
/// - `Walk`: a jump launches (`spec_jump_state`, rising by the impulse
///   times the tick); no horizontal input returns to `Stand`.
/// - `Air`: gravity pulls the vertical speed down to the terminal fall
///   speed; the horizontal speed accelerates toward the held direction
///   or decays by friction; the updated speed times the tick is added on
///   both axes.
/// - `Stand`: a jump launches exactly as from `Walk`; horizontal input
///   starts walking.
pub open spec fn spec_think(s: CharacterState, d_ms: int) -> (CharacterState, Vec2) {
    match s.mode {
        Mode::Walk => {
            if s.input_state.jump {
                (spec_jump_state(s), Vec2 { x: 0i64, y: (JUMP_IMPULSE * d_ms) as i64 })
            } else if s.input_state.xaxis is None {
                (
                    CharacterState { mode: Mode::Stand, state_step: 0, state_time_left: FRAME_MS, ..s },
                    Vec2 { x: 0i64, y: 0i64 },
                )
            } else {
                (s, Vec2 { x: 0i64, y: 0i64 })
            }
        },
        Mode::Air => {
            let vy = if s.speed.y > TERMINAL_FALL_SPEED {
                s.speed.y - GRAVITY_DECREMENT
            } else {
                s.speed.y as int
            };
            let vx = match s.input_state.xaxis {
                Some(m) => spec_accel_x(s.speed.x as int, m),
                None => spec_friction_x(s.speed.x as int),
            };
            (
                CharacterState { speed: Vec2 { x: vx as i64, y: vy as i64 }, ..s },
                Vec2 { x: (vx * d_ms) as i64, y: (vy * d_ms) as i64 },
            )
        },
        Mode::Stand => {
            if s.input_state.jump {
                (spec_jump_state(s), Vec2 { x: 0i64, y: (JUMP_IMPULSE * d_ms) as i64 })
            } else if s.input_state.xaxis is Some {
                (
                    CharacterState { mode: Mode::Walk, state_step: 0, state_time_left: FRAME_MS, ..s },
                    Vec2 { x: 0i64, y: 0i64 },
                )
            } else {
                (s, Vec2 { x: 0i64, y: 0i64 })
            }
        },
    }
}

/// A speed within the physics bounds times a tick duration stays small.
proof fn lemma_speed_times_ms(v: int, t: int)
    by (nonlinear_arith)
    requires
        -100 <= v <= 100,
        0 <= t <= 1000,
    ensures
        -100_000 <= v * t <= 100_000,
{
}

/// Apply the mode-specific physics of one tick and return the
/// displacement it adds. Asserting jump intent from `Stand` or `Walk`
/// launches into `Air` with the vertical speed set to the jump impulse.
pub fn think(state: &mut CharacterState, d_ms: i64) -> (mv: Vec2)
    requires
        old(state).wf(),
        0 <= d_ms <= MAX_TICK_MS,
    ensures
        ({
            let r = spec_think(*old(state), d_ms as int);
            &&& *final(state) == r.0
            &&& mv == r.1
        }),
        final(state).wf(),
        final(state).pixel_coord == old(state).pixel_coord,
        final(state).input_state == old(state).input_state,
        final(state).face_dir == old(state).face_dir,
        -100_000 <= mv.x <= 100_000,
        -100_000 <= mv.y <= 100_000,
        old(state).mode is Stand && old(state).input_state.jump ==> final(state).mode is Air
            && final(state).speed.y == JUMP_IMPULSE,
        old(state).mode is Walk && old(state).input_state.jump ==> final(state).mode is Air
            && final(state).speed.y == JUMP_IMPULSE,
{
    let mut s = *state;
    let mv: Vec2;
    match s.mode {
        Mode::Walk => {
            if s.input_state.jump {
                s.mode = Mode::Air;
                s.state_step = 0;
                s.state_time_left = FRAME_MS;
                let sx: i64 = match s.input_state.xaxis {
                    Some(Movement::Left) => -RUNJUMP_SPEED,
                    Some(Movement::Right) => RUNJUMP_SPEED,
                    _ => 0,
                };
                s.speed = Vec2 { x: sx, y: JUMP_IMPULSE };
                proof {
                    lemma_speed_times_ms(JUMP_IMPULSE as int, d_ms as int);
                }
                mv = Vec2 { x: 0, y: JUMP_IMPULSE * d_ms };
            } else if s.input_state.xaxis.is_none() {
                s.mode = Mode::Stand;
                s.state_step = 0;
                s.state_time_left = FRAME_MS;
                mv = Vec2 { x: 0, y: 0 };
            } else {
                mv = Vec2 { x: 0, y: 0 };
            }
        },
        Mode::Air => {
            if s.speed.y > TERMINAL_FALL_SPEED {
                s.speed = Vec2 { x: s.speed.x, y: s.speed.y - GRAVITY_DECREMENT };
            }
            let xa = s.input_state.xaxis;
            match xa {
                Some(m) => do_accel_x(&mut s.speed, &m),
                None => do_friction_x(&mut s.speed),
            }
            proof {
                lemma_speed_times_ms(s.speed.x as int, d_ms as int);
                lemma_speed_times_ms(s.speed.y as int, d_ms as int);
            }
            mv = Vec2 { x: s.speed.x * d_ms, y: s.speed.y * d_ms };
        },
        Mode::Stand => {
            if s.input_state.jump {
                s.mode = Mode::Air;
                s.state_step = 0;
                s.state_time_left = FRAME_MS;
                let sx: i64 = match s.input_state.xaxis {
                    Some(Movement::Left) => -RUNJUMP_SPEED,
                    Some(Movement::Right) => RUNJUMP_SPEED,
                    _ => 0,
                };
                s.speed = Vec2 { x: sx, y: JUMP_IMPULSE };
                proof {
                    lemma_speed_times_ms(JUMP_IMPULSE as int, d_ms as int);
                }
                mv = Vec2 { x: 0, y: JUMP_IMPULSE * d_ms };
            } else if s.input_state.xaxis.is_some() {
                s.mode = Mode::Walk;
                s.state_step = 0;
                s.state_time_left = FRAME_MS;
                mv = Vec2 { x: 0, y: 0 };
            } else {
                mv = Vec2 { x: 0, y: 0 };
            }
        },
    }
    *state = s;
    mv
}

/// The mode-exit reaction to this tick's ground contact: walking off an
/// edge starts falling; landing from the air starts walking with the
/// vertical speed zeroed. Standing has no automatic ground-loss
/// reaction.
pub open spec fn spec_react(s: CharacterState, on_ground: bool) -> CharacterState {
    match s.mode {
        Mode::Walk => if !on_ground {
            CharacterState { mode: Mode::Air, state_step: 0, state_time_left: FRAME_MS, ..s }
        } else {
            s
        },
        Mode::Air => if on_ground {
            CharacterState {
                mode: Mode::Walk,
                state_step: 0,
                state_time_left: FRAME_MS,
                speed: Vec2 { x: s.speed.x, y: 0i64 },
                ..s
            }
        } else {
            s
        },
        Mode::Stand => s,
    }
}

/// React to this tick's ground contact: `Walk` without ground becomes
/// `Air`; `Air` on ground becomes `Walk` with vertical speed exactly 0.
pub fn react(state: &mut CharacterState, on_ground: bool)
    requires
        old(state).wf(),
    ensures
        *final(state) == spec_react(*old(state), on_ground),
        final(state).wf(),
        final(state).pixel_coord == old(state).pixel_coord,
        old(state).mode is Walk && !on_ground ==> final(state).mode is Air,
        old(state).mode is Air && on_ground ==> final(state).mode is Walk
            && final(state).speed.y == 0,
{
    match state.mode {
        Mode::Walk => {
            if !on_ground {
                state.mode = Mode::Air;
                state.state_step = 0;
                state.state_time_left = FRAME_MS;
            }
        },
        Mode::Air => {
            if on_ground {
                state.mode = Mode::Walk;
                state.state_step = 0;
                state.state_time_left = FRAME_MS;
                state.speed = Vec2 { x: state.speed.x, y: 0 };
            }
        },
        Mode::Stand => {},
    }
}

/// The rendering-only intra-frame offset: the current frame's signed
/// horizontal step scaled by how far the frame has elapsed, so movement
/// appears continuous between discrete animation sub-steps.
pub open spec fn spec_intra_frame(s: CharacterState) -> int {
    let f = spec_frame(s.mode, s.state_step as int);
    let sx = spec_input_sign(s.input_state.xaxis) * f.step_x;
    scale1(sx * SUBPIXELS, f.duration_ms - s.state_time_left, f.duration_ms as int)
}

/// Compute the rendering-only intra-frame offset.
pub fn intra_frame_offset(state: &CharacterState) -> (off: Vec2)
    requires
        state.wf(),
    ensures
        off.x == spec_intra_frame(*state),
        off.y == 0,
        -4 * SUBPIXELS <= off.x <= 4 * SUBPIXELS,
{
    let f = frame(state.mode, state.state_step);
    let sxs: i64 = match state.input_state.xaxis {
        Some(Movement::Left) => -f.step_x,
        Some(Movement::Right) => f.step_x,
        _ => 0,
    };
    proof {
        assert(-4 <= sxs <= 4);
        assert(-4 * SUBPIXELS <= sxs * SUBPIXELS <= 4 * SUBPIXELS) by (nonlinear_arith)
            requires
                -4 <= sxs <= 4,
                SUBPIXELS == 1000,
        ;
    }
    let fr = Frac { num: f.duration_ms - state.state_time_left, den: f.duration_ms };
    let v = scale(&Vec2 { x: sxs * SUBPIXELS, y: 0 }, &fr);
    Vec2 { x: v.x, y: 0 }
}

/// Everything one tick of the state machine decides, as one value: used
/// only in contracts, to pin the whole tick down.
pub struct TickTrace {
    /// The character state after the tick.
    pub state: CharacterState,
    /// The committed position plus the intra-frame offset.
    pub render_pos: Vec2,
    /// The displacement the tick asked for before clamping.
    pub requested: Vec2,
    /// The minimum allowed fraction across all geometry candidates.
    pub fraction: Frac,
    /// The requested displacement scaled by that fraction.
    pub allowed: Vec2,
    /// Whether the downward ground probe hit geometry.
    pub on_ground: bool,
    /// Whether some candidate was already penetrating (degenerate).
    pub stuck: bool,
}

/// One full tick of the state machine:
/// 1. advance the animation clock, consuming whole frames;
/// 2. apply mode-specific physics ("think"), accumulating the requested
///    displacement (the walked animation steps signed by input, plus the
///    speed-driven move);
/// 3. clamp the requested displacement against the geometry by the
///    minimum allowed fraction across all candidates;
/// 4. commit the clamped displacement and probe for ground below;
/// 5. react to the ground-contact outcome.
pub open spec fn spec_tick(s: CharacterState, shapes: Seq<crate::level::CollisionShape>, d_ms: int) -> TickTrace {
    let a = spec_advance_anim(s.mode, s.state_step as int, s.state_time_left - d_ms, 0);
    let s1 = CharacterState { state_step: a.0 as usize, state_time_left: a.1 as i64, ..s };
    let intra = spec_intra_frame(s1);
    let tr = spec_think(s1, d_ms);
    let s2 = tr.0;
    let requested = Vec2 {
        x: (spec_signed_steps(s.input_state.xaxis, a.2) * SUBPIXELS + tr.1.x) as i64,
        y: tr.1.y,
    };
    let mover = spec_char_rect(s2.pixel_coord);
    let fr = spec_min_frac(shapes, mover, requested);
    let allowed = Vec2 {
        x: scale1(requested.x as int, fr.num as int, fr.den as int) as i64,
        y: scale1(requested.y as int, fr.num as int, fr.den as int) as i64,
    };
    let newpos = Vec2 {
        x: (s2.pixel_coord.x + allowed.x) as i64,
        y: (s2.pixel_coord.y + allowed.y) as i64,
    };
    let probe_p = Vec2 { x: (newpos.x + PROBE_OFFSET_X) as i64, y: (newpos.y + PROBE_OFFSET_Y) as i64 };
    let ground = spec_probe_hit(shapes, probe_p);
    let s3 = spec_react(CharacterState { pixel_coord: newpos, ..s2 }, ground);
    TickTrace {
        state: s3,
        render_pos: Vec2 { x: (newpos.x + intra) as i64, y: newpos.y },
        requested,
        fraction: fr,
        allowed,
        on_ground: ground,
        stuck: spec_any_stuck(shapes, mover),
    }
}

/// What one tick hands back to the caller: the position to render and
/// the tick's diagnostics.
#[derive(Clone, Copy, Debug, PartialEq, Eq, Structural)]
pub struct TickOutput {
    /// The committed position plus the intra-frame offset.
    pub render_pos: Vec2,
    /// Whether the downward ground probe hit geometry.
    pub on_ground: bool,
    /// A degenerate already-penetrating candidate was met this tick; the
    /// clamp treated it as allowing no movement and the caller should
    /// surface a diagnostic.
    pub stuck: bool,
}

/// Advance a character by one simulation tick of `d_ms` milliseconds
/// against the level's geometry, exactly as `spec_tick` describes.
pub fn character_move_state(state: &mut CharacterState, level: &Level, d_ms: i64) -> (out:
    TickOutput)
    requires
        old(state).wf(),
        -POS_LIMIT <= old(state).pixel_coord.x <= POS_LIMIT,
        -POS_LIMIT <= old(state).pixel_coord.y <= POS_LIMIT,
        level.wf(),
        0 <= d_ms <= MAX_TICK_MS,
    ensures
        ({
            let t = spec_tick(*old(state), level.collision_shapes@, d_ms as int);
            &&& *final(state) == t.state
            &&& out.render_pos == t.render_pos
            &&& out.on_ground == t.on_ground
            &&& out.stuck == t.stuck
        }),
        final(state).wf(),
        old(state).pixel_coord.x - 200_000 <= final(state).pixel_coord.x <= old(
            state,
        ).pixel_coord.x + 200_000,
        old(state).pixel_coord.y - 200_000 <= final(state).pixel_coord.y <= old(
            state,
        ).pixel_coord.y + 200_000,
{
    let ghost s0 = *state;
    let ghost shapes = level.collision_shapes@;

    let walked = advance_animation(state, d_ms);
    let intra = intra_frame_offset(state);
    let sign_walked: i64 = match state.input_state.xaxis {
        Some(Movement::Left) => -walked,
        Some(Movement::Right) => walked,
        _ => 0,
    };
    proof {
        let a = spec_advance_anim(s0.mode, s0.state_step as int, s0.state_time_left - d_ms, 0);
        assert(sign_walked == spec_signed_steps(s0.input_state.xaxis, a.2));
        assert(-44_000 <= sign_walked * SUBPIXELS <= 44_000) by (nonlinear_arith)
            requires
                -44 <= sign_walked <= 44,
                SUBPIXELS == 1000,
        ;
    }
    let anim_move_x: i64 = sign_walked * SUBPIXELS;

    let mv = think(state, d_ms);
    let requested = Vec2 { x: anim_move_x + mv.x, y: mv.y };

    let mover = char_rect(&state.pixel_coord);
    let clamp = level.clamp_move(&mover, &requested);

    state.pixel_coord = Vec2 {
        x: state.pixel_coord.x + clamp.allowed.x,
        y: state.pixel_coord.y + clamp.allowed.y,
    };
    let probe_p = Vec2 {
        x: state.pixel_coord.x + PROBE_OFFSET_X,
        y: state.pixel_coord.y + PROBE_OFFSET_Y,
    };
    let on_ground = level.probe(&probe_p);
    let render_pos = Vec2 { x: state.pixel_coord.x + intra.x, y: state.pixel_coord.y };

    react(state, on_ground);

    TickOutput { render_pos, on_ground, stuck: clamp.stuck }
}

} // verus!
