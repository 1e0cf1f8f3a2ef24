//! What one frame's input asks of the camera.
//!
//! The pointer turns the view, by a fixed number of ticks per pixel and against the
//! direction of its motion. The held movement keys ask for moves, in a fixed order. A newly
//! pressed escape key asks to quit. Carrying out a move needs the camera's position and
//! direction, which this crate does not hold, so the moves are handed back to the caller.
//!
//! The moves of a frame follow its turn: forward and right are those of the view as it looks
//! once the frame's turn is made. Each move is carried out on its own, one after the other.

use crate::camera::Angles;
use crate::camera::clamp_pitch;
use crate::camera::lemma_unwound;
use crate::camera::Orientation;
use crate::camera::FULL_TURN;
use crate::input::Input;
use crate::input::InputEvent;
use crate::input::InputState;
use crate::input::Scancode;
use crate::input::motion_fits;
use crate::input::lemma_motion_is_sum;
use crate::input::motion_sum;
use crate::input::KEY_A;
use crate::input::KEY_D;
use crate::input::KEY_ESCAPE;
use crate::input::KEY_LEFT_ALT;
use crate::input::KEY_S;
use crate::input::KEY_SPACE;
use crate::input::KEY_W;
use vstd::prelude::*;

verus! {

/// Ticks that one pixel of pointer motion turns the view by: 0.022 degrees scaled by 2.2,
/// which is 0.0484 degrees.
pub const TICKS_PER_PIXEL: i64 = 484;

/// World units that the camera moves per second, in every direction.
pub const MOVE_SPEED: u32 = 5;

/// A direction for the camera to move in, for the length of one frame at [`MOVE_SPEED`].
#[derive(Clone, Copy, Debug, PartialEq, Eq, Structural)]
pub enum Move {
    /// Along the view direction.
    Forward,
    /// Against the view direction.
    Backward,
    /// Against the view's right-hand direction.
    Left,
    /// Along the view's right-hand direction.
    Right,
    /// Along the world's up direction.
    Up,
    /// Against the world's up direction.
    Down,
}

/// The move `direction` if the key in slot `key` is held, else no move.
pub open spec fn move_if_held(state: InputState, key: int, direction: Move) -> Seq<Move> {
    if state.keys_down.contains(key) {
        seq![direction]
    } else {
        Seq::empty()
    }
}

/// The moves that the held keys ask for, in the order in which they are carried out.
pub open spec fn held_moves(state: InputState) -> Seq<Move> {
    move_if_held(state, KEY_W as int, Move::Forward) + move_if_held(
        state,
        KEY_S as int,
        Move::Backward,
    ) + move_if_held(state, KEY_A as int, Move::Left) + move_if_held(
        state,
        KEY_D as int,
        Move::Right,
    ) + move_if_held(state, KEY_SPACE as int, Move::Up) + move_if_held(
        state,
        KEY_LEFT_ALT as int,
        Move::Down,
    )
}

/// The turn, as yaw and pitch deltas in ticks, that a pointer motion asks for.
pub open spec fn turn(motion: (int, int)) -> (int, int) {
    (-motion.0 * TICKS_PER_PIXEL, -motion.1 * TICKS_PER_PIXEL)
}

/// The angles after the turn that a pointer motion asks for.
pub open spec fn turned(angles: Angles, motion: (int, int)) -> Angles {
    angles.rotate(turn(motion).0, turn(motion).1).held()
}

/// The pointer turns the view against its motion, by [`TICKS_PER_PIXEL`] for each pixel,
/// once per frame: the pitch changes by exactly that or as far as its limit, and the yaw by
/// exactly that wherever it can be held, and else to a yaw that differs from it by whole
/// turns.
pub proof fn lemma_pointer_turns_the_view(angles: Angles, motion: (int, int))
    requires
        angles.valid(),
    ensures
        turned(angles, motion).pitch == clamp_pitch(angles.pitch - TICKS_PER_PIXEL * motion.1),
        i64::MIN <= angles.yaw - TICKS_PER_PIXEL * motion.0 <= i64::MAX ==> turned(
            angles,
            motion,
        ).yaw == angles.yaw - TICKS_PER_PIXEL * motion.0,
        (angles.yaw - TICKS_PER_PIXEL * motion.0 - turned(angles, motion).yaw) % (
        FULL_TURN as int) == 0,
        turned(angles, motion).valid(),
{
    lemma_unwound(angles.yaw - TICKS_PER_PIXEL * motion.0);
}

/// A pointer that does not move turns nothing.
pub proof fn lemma_still_pointer_turns_nothing(angles: Angles)
    requires
        angles.valid(),
    ensures
        turned(angles, (0, 0)) == angles,
{
}

/// Adds the move to the list if the key is held.
fn push_if_held(moves: &mut Vec<Move>, input: &Input, key: Scancode, direction: Move)
    ensures
        final(moves)@ == old(moves)@ + move_if_held(input@, key.index(), direction),
{
    if input.is_key_down(key) {
        moves.push(direction);
    }
}

/// Applies one frame's input to the camera's orientation, and returns the moves that the
/// held keys ask for, in the order in which to carry them out.
///
/// A newly pressed escape key is recorded in the snapshot as a request to quit; the frame's
/// turn and moves still take place.
pub fn process_input(input: &mut Input, orientation: &mut Orientation) -> (moves: Vec<Move>)
    ensures
        final(input)@ == (InputState {
            exit: old(input)@.exit || old(input)@.keys_pressed.contains(KEY_ESCAPE as int),
            ..old(input)@
        }),
        final(orientation)@ == turned(old(orientation)@, old(input)@.mouse_rel),
        moves@ == held_moves(old(input)@),
{
    if input.was_key_pressed(Scancode::escape()) {
        input.request_exit();
    }
    let (dx, dy) = input.mouse_rel();
    let delta_yaw: i64 = -(dx as i64) * TICKS_PER_PIXEL;
    let delta_pitch: i64 = -(dy as i64) * TICKS_PER_PIXEL;
    orientation.rotate(delta_yaw, delta_pitch);

    let mut moves: Vec<Move> = Vec::new();
    push_if_held(&mut moves, input, Scancode::w(), Move::Forward);
    push_if_held(&mut moves, input, Scancode::s(), Move::Backward);
    push_if_held(&mut moves, input, Scancode::a(), Move::Left);
    push_if_held(&mut moves, input, Scancode::d(), Move::Right);
    push_if_held(&mut moves, input, Scancode::space(), Move::Up);
    push_if_held(&mut moves, input, Scancode::left_alt(), Move::Down);
    moves
}

/// What the run loop is to do with a frame.
#[derive(Debug)]
pub struct Frame {
    /// The moves to carry out, in order.
    pub moves: Vec<Move>,
    /// Whether to leave the loop once the moves are carried out.
    pub exit: bool,
}

/// The snapshot after the events of a frame have been taken in.
pub open spec fn polled(state: InputState, events: Seq<InputEvent>) -> InputState {
    state.begin_frame().apply_all(events)
}

/// Takes one step of the run loop: takes in the events that arrived since the previous
/// frame, and, unless the user has asked to quit by then, applies the frame's input to the
/// camera's orientation.
///
/// The loop is to end where a quit event has arrived, in this frame or an earlier one, and
/// then nothing moves; and where the escape key was newly pressed, after the frame's turn
/// and moves.
pub fn advance_frame(
    input: &mut Input,
    orientation: &mut Orientation,
    events: Vec<InputEvent>,
) -> (frame: Frame)
    requires
        motion_fits(events@),
    ensures
        polled(old(input)@, events@).exit ==> {
            &&& final(input)@ == polled(old(input)@, events@)
            &&& final(orientation)@ == old(orientation)@
            &&& frame.moves@ == Seq::<Move>::empty()
            &&& frame.exit
        },
        !polled(old(input)@, events@).exit ==> {
            &&& final(input)@ == (InputState { exit: frame.exit, ..polled(old(input)@, events@) })
            &&& final(orientation)@ == turned(old(orientation)@, motion_sum(events@))
            &&& frame.moves@ == held_moves(polled(old(input)@, events@))
            &&& frame.exit == polled(old(input)@, events@).keys_pressed.contains(
                KEY_ESCAPE as int,
            )
        },
{
    proof {
        lemma_motion_is_sum(old(input)@, events@);
    }
    input.update(events);
    if input.exit_requested() {
        return Frame { moves: Vec::new(), exit: true };
    }
    let moves = process_input(input, orientation);
    Frame { moves, exit: input.exit_requested() }
}

} // verus!
