//! The view angles of the camera.
//!
//! Angles are whole numbers of ticks, ten thousand to the degree, so that turning the view is
//! exact: the pointer turns it by a whole number of ticks per pixel. Pitch is kept within
//! 89.9 degrees of the horizon, which keeps the view from flipping over at the poles. Yaw is
//! neither clamped nor wrapped by a turn; whole turns are taken off it, which leaves the view
//! looking the same way, only where it has run so far that it could not be held otherwise.
//!
//! The position of the camera, its direction and its matrices are for the caller to keep,
//! and to bring up to date after every change of the angles.

use vstd::prelude::*;

verus! {

/// Ticks in one degree.
pub const TICKS_PER_DEGREE: i64 = 10_000;

/// The steepest pitch, up or down: 89.9 degrees.
pub const PITCH_LIMIT: i64 = 899_000;

/// Ticks in a full turn.
pub const FULL_TURN: i64 = 3_600_000;

/// The yaw a camera starts with: -90 degrees, which looks along the negative z axis.
pub const INITIAL_YAW: i64 = -900_000;

/// The pitch nearest to `pitch` that the camera can take.
pub open spec fn clamp_pitch(pitch: int) -> int {
    if pitch < -PITCH_LIMIT {
        -PITCH_LIMIT as int
    } else if pitch > PITCH_LIMIT {
        PITCH_LIMIT as int
    } else {
        pitch
    }
}

/// The yaw with whole turns taken off: the yaw within one full turn of zero, on the side of
/// zero on which `yaw` lies, that differs from `yaw` by whole turns.
pub open spec fn unwound(yaw: int) -> int {
    if yaw >= 0 {
        yaw % (FULL_TURN as int)
    } else {
        -((-yaw) % (FULL_TURN as int))
    }
}

/// A pair of view angles, in ticks.
pub struct Angles {
    pub yaw: int,
    pub pitch: int,
}

impl Angles {
    /// The angles a camera starts with.
    pub open spec fn initial() -> Angles {
        Angles { yaw: INITIAL_YAW as int, pitch: 0 }
    }

    /// Whether these are angles that a camera can have: the yaw is one that can be held, and
    /// the pitch is within its limits.
    pub open spec fn valid(self) -> bool {
        &&& i64::MIN <= self.yaw <= i64::MAX
        &&& -PITCH_LIMIT <= self.pitch <= PITCH_LIMIT
    }

    /// The angles with whole turns taken off the yaw.
    pub open spec fn unwind(self) -> Angles {
        Angles { yaw: unwound(self.yaw), ..self }
    }

    /// These angles as a camera holds them: as they are where the yaw can be held, and else
    /// with whole turns taken off the yaw, which look the same way.
    pub open spec fn held(self) -> Angles {
        if i64::MIN <= self.yaw <= i64::MAX {
            self
        } else {
            self.unwind()
        }
    }

    /// The angles after a turn: both deltas are added, and the new pitch is clamped.
    pub open spec fn rotate(self, delta_yaw: int, delta_pitch: int) -> Angles {
        Angles { yaw: self.yaw + delta_yaw, pitch: clamp_pitch(self.pitch + delta_pitch) }
    }
}

/// Whatever the turn, the camera can have the angles that it holds after it.
pub proof fn lemma_rotate_keeps_angles_valid(angles: Angles, delta_yaw: int, delta_pitch: int)
    ensures
        angles.rotate(delta_yaw, delta_pitch).held().valid(),
{
    lemma_unwound(angles.yaw + delta_yaw);
}

/// A turn by nothing leaves the angles as they are.
pub proof fn lemma_rotate_by_nothing(angles: Angles)
    requires
        angles.valid(),
    ensures
        angles.rotate(0, 0).held() == angles,
{
}

/// The pitch is clamped on every turn, not once at the end: whatever the turn, the new pitch
/// is the old pitch plus the turn's delta, clamped. So the second of two turns starts from
/// the clamped pitch that the first one left, and a turn that overshoots the limit is undone
/// by less than its own size.
pub proof fn lemma_pitch_is_clamped_on_each_turn(
    angles: Angles,
    first: (int, int),
    second: (int, int),
)
    requires
        angles.valid(),
    ensures
        angles.rotate(first.0, first.1).held().pitch == clamp_pitch(angles.pitch + first.1),
        angles.rotate(first.0, first.1).held().rotate(second.0, second.1).held().pitch
            == clamp_pitch(clamp_pitch(angles.pitch + first.1) + second.1),
        angles.pitch + first.1 >= PITCH_LIMIT ==> angles.rotate(first.0, first.1).held().rotate(
            second.0,
            second.1,
        ).held().pitch == clamp_pitch(PITCH_LIMIT + second.1),
        angles.pitch + first.1 <= -PITCH_LIMIT ==> angles.rotate(first.0, first.1).held().rotate(
            second.0,
            second.1,
        ).held().pitch == clamp_pitch(-PITCH_LIMIT + second.1),
{
}

/// Yaw is neither clamped nor wrapped by a turn: the new yaw is the old yaw plus the turn's
/// delta wherever that can be held, and else differs from it by whole turns.
pub proof fn lemma_yaw_adds_up(angles: Angles, delta_yaw: int, delta_pitch: int)
    ensures
        i64::MIN <= angles.yaw + delta_yaw <= i64::MAX ==> angles.rotate(
            delta_yaw,
            delta_pitch,
        ).held().yaw == angles.yaw + delta_yaw,
        (angles.yaw + delta_yaw - angles.rotate(delta_yaw, delta_pitch).held().yaw) % (
        FULL_TURN as int) == 0,
{
    lemma_unwound(angles.yaw + delta_yaw);
}

/// Taking whole turns off the yaw leaves it within one full turn of zero, on the side of
/// zero on which it lay, and changes it by whole turns only.
pub proof fn lemma_unwound(yaw: int)
    ensures
        -FULL_TURN < unwound(yaw) < FULL_TURN,
        (yaw - unwound(yaw)) % (FULL_TURN as int) == 0,
        yaw >= 0 ==> unwound(yaw) >= 0,
        yaw <= 0 ==> unwound(yaw) <= 0,
        -FULL_TURN < yaw < FULL_TURN ==> unwound(yaw) == yaw,
{
    let turn = FULL_TURN as int;
    if yaw >= 0 {
        assert(yaw == turn * (yaw / turn) + yaw % turn) by (nonlinear_arith)
            requires
                turn > 0,
        ;
        assert((turn * (yaw / turn)) % turn == 0) by (nonlinear_arith)
            requires
                turn > 0,
        ;
    } else {
        let back = -yaw;
        assert(back == turn * (back / turn) + back % turn) by (nonlinear_arith)
            requires
                turn > 0,
        ;
        assert((turn * (-(back / turn))) % turn == 0) by (nonlinear_arith)
            requires
                turn > 0,
        ;
        assert(yaw - unwound(yaw) == turn * (-(back / turn))) by (nonlinear_arith)
            requires
                back == turn * (back / turn) + back % turn,
                yaw == -back,
                unwound(yaw) == -(back % turn),
        ;
    }
}

/// The view angles of a camera. The pitch is always within [`PITCH_LIMIT`] of the horizon.
#[derive(Clone, Copy, Debug)]
pub struct Orientation {
    yaw: i64,
    pitch: i64,
}

impl View for Orientation {
    type V = Angles;

    closed spec fn view(&self) -> Angles {
        Angles { yaw: self.yaw as int, pitch: self.pitch as int }
    }
}

impl Orientation {
    #[verifier::type_invariant]
    spec fn pitch_in_range(self) -> bool {
        -PITCH_LIMIT <= self.pitch <= PITCH_LIMIT
    }

    /// The orientation a camera starts with.
    pub fn new() -> (orientation: Orientation)
        ensures
            orientation@ == Angles::initial(),
    {
        Orientation { yaw: INITIAL_YAW, pitch: 0 }
    }

    /// The yaw, in ticks.
    pub fn yaw(&self) -> (yaw: i64)
        ensures
            yaw == self@.yaw,
            self@.valid(),
    {
        proof {
            use_type_invariant(self);
        }
        self.yaw
    }

    /// The pitch, in ticks.
    pub fn pitch(&self) -> (pitch: i64)
        ensures
            pitch == self@.pitch,
            self@.valid(),
    {
        proof {
            use_type_invariant(self);
        }
        self.pitch
    }

    /// Sets the yaw.
    pub fn set_yaw(&mut self, yaw: i64)
        ensures
            final(self)@ == (Angles { yaw: yaw as int, ..old(self)@ }),
    {
        proof {
            use_type_invariant(&*self);
        }
        self.yaw = yaw;
    }

    /// Sets the pitch to the nearest one that the camera can take.
    pub fn set_pitch(&mut self, pitch: i64)
        ensures
            final(self)@ == (Angles { pitch: clamp_pitch(pitch as int), ..old(self)@ }),
    {
        self.pitch = if pitch < -PITCH_LIMIT {
            -PITCH_LIMIT
        } else if pitch > PITCH_LIMIT {
            PITCH_LIMIT
        } else {
            pitch
        };
    }

    /// Takes whole turns off the yaw. The view looks the same way as before.
    pub fn unwind(&mut self)
        ensures
            final(self)@ == old(self)@.unwind(),
    {
        proof {
            use_type_invariant(&*self);
        }
        let yaw: i64 = self.yaw;
        let turns: i64 = yaw / FULL_TURN;
        self.yaw = yaw - turns * FULL_TURN;
    }

    /// Turns the view. The pitch is clamped after the delta is added, on every call. The yaw
    /// is not clamped; where it has run so far that the turned yaw cannot be held, whole
    /// turns are taken off it.
    pub fn rotate(&mut self, delta_yaw: i64, delta_pitch: i64)
        ensures
            final(self)@ == old(self)@.rotate(delta_yaw as int, delta_pitch as int).held(),
    {
        proof {
            use_type_invariant(&*self);
        }
        let yaw: i128 = self.yaw as i128 + delta_yaw as i128;
        let pitch: i128 = self.pitch as i128 + delta_pitch as i128;
        self.yaw = if yaw < i64::MIN as i128 || yaw > i64::MAX as i128 {
            proof {
                lemma_unwound(yaw as int);
            }
            let turns: i128 = yaw / FULL_TURN as i128;
            (yaw - turns * FULL_TURN as i128) as i64
        } else {
            yaw as i64
        };
        self.pitch = if pitch < -PITCH_LIMIT as i128 {
            -PITCH_LIMIT
        } else if pitch > PITCH_LIMIT as i128 {
            PITCH_LIMIT
        } else {
            pitch as i64
        };
    }
}

} // verus!
