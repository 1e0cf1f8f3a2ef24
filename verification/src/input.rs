//! The per-frame input snapshot: which keys and mouse buttons are held, which were newly
//! pressed, how far the pointer moved, and whether the user asked to quit.
//!
//! The snapshot is rebuilt once per frame from the batch of events that arrived since the
//! previous frame. Its meaning is given by [`InputState`], a mathematical record that
//! [`InputState::apply`] advances one event at a time.

use vstd::prelude::*;

verus! {

/// Number of key positions a snapshot tracks.
pub const NUM_SCANCODES: usize = 512;

/// Code of the `A` key.
pub const KEY_A: u16 = 4;

/// Code of the `D` key.
pub const KEY_D: u16 = 7;

/// Code of the `S` key.
pub const KEY_S: u16 = 22;

/// Code of the `W` key.
pub const KEY_W: u16 = 26;

/// Code of the escape key.
pub const KEY_ESCAPE: u16 = 41;

/// Code of the space bar.
pub const KEY_SPACE: u16 = 44;

/// Code of the left alt key.
pub const KEY_LEFT_ALT: u16 = 226;

/// A physical key position. Its code is always below [`NUM_SCANCODES`].
#[derive(Clone, Copy, Debug, PartialEq, Eq, Structural, Hash)]
pub struct Scancode {
    code: u16,
}

impl Scancode {
    #[verifier::type_invariant]
    spec fn in_range(self) -> bool {
        self.code < NUM_SCANCODES
    }

    /// The slot of this key in the snapshot's key tables.
    pub closed spec fn index(self) -> int {
        self.code as int
    }

    /// The scancode with the given code, if there is one.
    pub fn new(code: u16) -> (r: Option<Scancode>)
        ensures
            code < NUM_SCANCODES <==> r is Some,
            r matches Some(s) ==> s.index() == code,
    {
        if (code as usize) < NUM_SCANCODES {
            Some(Scancode { code })
        } else {
            None
        }
    }

    /// The code this scancode was made from.
    pub fn code(self) -> (c: u16)
        ensures
            c == self.index(),
            c < NUM_SCANCODES,
    {
        proof {
            use_type_invariant(self);
        }
        self.code
    }

    /// The `A` key.
    pub fn a() -> (s: Scancode)
        ensures
            s.index() == KEY_A,
    {
        Scancode { code: KEY_A }
    }

    /// The `D` key.
    pub fn d() -> (s: Scancode)
        ensures
            s.index() == KEY_D,
    {
        Scancode { code: KEY_D }
    }

    /// The `S` key.
    pub fn s() -> (s: Scancode)
        ensures
            s.index() == KEY_S,
    {
        Scancode { code: KEY_S }
    }

    /// The `W` key.
    pub fn w() -> (s: Scancode)
        ensures
            s.index() == KEY_W,
    {
        Scancode { code: KEY_W }
    }

    /// The escape key.
    pub fn escape() -> (s: Scancode)
        ensures
            s.index() == KEY_ESCAPE,
    {
        Scancode { code: KEY_ESCAPE }
    }

    /// The space bar.
    pub fn space() -> (s: Scancode)
        ensures
            s.index() == KEY_SPACE,
    {
        Scancode { code: KEY_SPACE }
    }

    /// The left alt key.
    pub fn left_alt() -> (s: Scancode)
        ensures
            s.index() == KEY_LEFT_ALT,
    {
        Scancode { code: KEY_LEFT_ALT }
    }
}

/// A mouse button.
#[derive(Clone, Copy, Debug, PartialEq, Eq, Structural, Hash)]
pub enum MouseButton {
    Unknown,
    Left,
    Middle,
    Right,
    X1,
    X2,
}

impl MouseButton {
    /// The bit that stands for this button in a button mask.
    pub open spec fn bit(self) -> int {
        match self {
            MouseButton::Unknown => 0,
            MouseButton::Left => 1,
            MouseButton::Middle => 2,
            MouseButton::Right => 3,
            MouseButton::X1 => 4,
            MouseButton::X2 => 5,
        }
    }

    /// Computes [`MouseButton::bit`].
    pub fn bit_index(self) -> (b: u8)
        ensures
            b == self.bit(),
    {
        match self {
            MouseButton::Unknown => 0,
            MouseButton::Left => 1,
            MouseButton::Middle => 2,
            MouseButton::Right => 3,
            MouseButton::X1 => 4,
            MouseButton::X2 => 5,
        }
    }
}

/// One platform event, reduced to what the snapshot reads from it.
#[derive(Clone, Copy, Debug, PartialEq, Eq, Structural)]
pub enum InputEvent {
    /// The user asked to quit.
    Quit,
    /// The pointer moved to `(x, y)`, by `(xrel, yrel)`.
    MouseMotion { x: i32, y: i32, xrel: i32, yrel: i32 },
    /// A key went down. Keys without a scancode are ignored.
    KeyDown { scancode: Option<Scancode> },
    /// A key went up. Keys without a scancode are ignored.
    KeyUp { scancode: Option<Scancode> },
    /// A mouse button went down.
    MouseButtonDown { button: MouseButton },
    /// A mouse button went up.
    MouseButtonUp { button: MouseButton },
    /// Any other event; it leaves the snapshot as it is.
    Other,
}

/// The mathematical content of a snapshot.
pub struct InputState {
    /// Slots of the keys that are held.
    pub keys_down: Set<int>,
    /// Slots of the keys that went down during the current frame.
    pub keys_pressed: Set<int>,
    /// The mouse buttons that are held.
    pub buttons_down: Set<MouseButton>,
    /// The mouse buttons that went down during the current frame.
    pub buttons_pressed: Set<MouseButton>,
    /// Where the pointer was last seen.
    pub mouse_pos: (int, int),
    /// How far the pointer moved during the current frame.
    pub mouse_rel: (int, int),
    /// The events of the current frame, in order of arrival.
    pub events: Seq<InputEvent>,
    /// Whether the user asked to quit.
    pub exit: bool,
}

impl InputState {
    /// The state before any event: nothing held, the pointer at the origin.
    pub open spec fn initial() -> InputState {
        InputState {
            keys_down: Set::empty(),
            keys_pressed: Set::empty(),
            buttons_down: Set::empty(),
            buttons_pressed: Set::empty(),
            mouse_pos: (0, 0),
            mouse_rel: (0, 0),
            events: Seq::empty(),
            exit: false,
        }
    }

    /// The state at the start of a frame: what is edge-triggered or accumulated per frame is
    /// cleared, what is held stays held, and a request to quit stays in force.
    pub open spec fn begin_frame(self) -> InputState {
        InputState {
            keys_pressed: Set::empty(),
            buttons_pressed: Set::empty(),
            mouse_rel: (0, 0),
            events: Seq::empty(),
            ..self
        }
    }

    /// This state with another record of the frame's events.
    spec fn with_events(self, events: Seq<InputEvent>) -> InputState {
        InputState { events, ..self }
    }

    /// The state after one more event.
    pub open spec fn apply(self, event: InputEvent) -> InputState {
        let next = match event {
            InputEvent::Quit => InputState { exit: true, ..self },
            InputEvent::MouseMotion { x, y, xrel, yrel } => InputState {
                mouse_pos: (x as int, y as int),
                mouse_rel: (self.mouse_rel.0 + xrel, self.mouse_rel.1 + yrel),
                ..self
            },
            InputEvent::KeyDown { scancode: Some(key) } => InputState {
                keys_pressed: self.keys_pressed.insert(key.index()),
                keys_down: self.keys_down.insert(key.index()),
                ..self
            },
            InputEvent::KeyUp { scancode: Some(key) } => InputState {
                keys_down: self.keys_down.remove(key.index()),
                ..self
            },
            InputEvent::MouseButtonDown { button } => InputState {
                buttons_pressed: self.buttons_pressed.insert(button),
                buttons_down: self.buttons_down.insert(button),
                ..self
            },
            InputEvent::MouseButtonUp { button } => InputState {
                buttons_down: self.buttons_down.remove(button),
                ..self
            },
            _ => self,
        };
        InputState { events: self.events.push(event), ..next }
    }

    /// The state after a batch of events, applied in order.
    pub open spec fn apply_all(self, events: Seq<InputEvent>) -> InputState
        decreases events.len(),
    {
        if events.len() == 0 {
            self
        } else {
            self.apply_all(events.drop_last()).apply(events.last())
        }
    }
}

/// The pointer motion that a batch of events adds up to.
pub open spec fn motion_sum(events: Seq<InputEvent>) -> (int, int)
    decreases events.len(),
{
    if events.len() == 0 {
        (0, 0)
    } else {
        let before = motion_sum(events.drop_last());
        match events.last() {
            InputEvent::MouseMotion { xrel, yrel, .. } => (before.0 + xrel, before.1 + yrel),
            _ => before,
        }
    }
}

/// Whether both parts of a motion fit the snapshot's pointer counters.
pub open spec fn motion_in_range(motion: (int, int)) -> bool {
    &&& i32::MIN <= motion.0 <= i32::MAX
    &&& i32::MIN <= motion.1 <= i32::MAX
}

/// Whether the pointer motion of a batch stays within the snapshot's counters at every event.
pub open spec fn motion_fits(events: Seq<InputEvent>) -> bool {
    forall|k: int| 0 <= k <= events.len() ==> motion_in_range(#[trigger] motion_sum(events.take(k)))
}

/// Whether bit `bit` of a button mask is set.
spec fn mask_has(mask: u8, bit: u8) -> bool {
    mask & (1u8 << bit) != 0
}

/// Setting a bit of a mask sets that bit and leaves the others as they are.
proof fn lemma_mask_set(mask: u8, bit: u8, other: u8)
    requires
        bit < 8,
        other < 8,
    ensures
        mask_has(mask | (1u8 << bit), other) == (other == bit || mask_has(mask, other)),
{
    assert((mask | (1u8 << bit)) & (1u8 << other) != 0 <==> (other == bit || mask & (1u8 << other)
        != 0)) by (bit_vector)
        requires
            bit < 8,
            other < 8,
    ;
}

/// Clearing a bit of a mask clears that bit and leaves the others as they are.
proof fn lemma_mask_clear(mask: u8, bit: u8, other: u8)
    requires
        bit < 8,
        other < 8,
    ensures
        mask_has(mask & !(1u8 << bit), other) == (other != bit && mask_has(mask, other)),
{
    assert((mask & !(1u8 << bit)) & (1u8 << other) != 0 <==> (other != bit && mask & (1u8
        << other) != 0)) by (bit_vector)
        requires
            bit < 8,
            other < 8,
    ;
}

/// The empty mask has no bit set.
proof fn lemma_mask_empty(bit: u8)
    requires
        bit < 8,
    ensures
        !mask_has(0, bit),
{
    assert(0u8 & (1u8 << bit) == 0) by (bit_vector);
}

/// The input snapshot of the current frame.
#[derive(Clone, Debug)]
pub struct Input {
    keys_down: [bool; 512],
    keys_pressed: [bool; 512],
    mouse_down: u8,
    mouse_pressed: u8,
    mouse_x: i32,
    mouse_y: i32,
    rel_x: i32,
    rel_y: i32,
    events: Vec<InputEvent>,
    exit: bool,
}

impl View for Input {
    type V = InputState;

    closed spec fn view(&self) -> InputState {
        InputState {
            keys_down: Set::new(|k: int| 0 <= k < NUM_SCANCODES && self.keys_down@[k]),
            keys_pressed: Set::new(|k: int| 0 <= k < NUM_SCANCODES && self.keys_pressed@[k]),
            buttons_down: Set::new(|b: MouseButton| mask_has(self.mouse_down, b.bit() as u8)),
            buttons_pressed: Set::new(|b: MouseButton| mask_has(self.mouse_pressed, b.bit() as u8)),
            mouse_pos: (self.mouse_x as int, self.mouse_y as int),
            mouse_rel: (self.rel_x as int, self.rel_y as int),
            events: self.events@,
            exit: self.exit,
        }
    }
}

impl Input {
    /// A snapshot in which nothing has happened yet.
    pub fn new() -> (input: Input)
        ensures
            input@ == InputState::initial(),
    {
        let input = Input {
            keys_down: [false; 512],
            keys_pressed: [false; 512],
            mouse_down: 0,
            mouse_pressed: 0,
            mouse_x: 0,
            mouse_y: 0,
            rel_x: 0,
            rel_y: 0,
            events: Vec::new(),
            exit: false,
        };
        proof {
            assert forall|b: MouseButton| !mask_has(0, b.bit() as u8) by {
                lemma_mask_empty(b.bit() as u8);
            }
            assert(input@.keys_pressed =~= Set::empty());
            assert(input@.buttons_pressed =~= Set::empty());
        }
        input
    }

    /// Rebuilds the snapshot from the events that arrived since the previous frame.
    ///
    /// Held keys and buttons carry over, and so does a request to quit; what was newly
    /// pressed and how far the pointer moved are counted from nothing again.
    pub fn update(&mut self, events: Vec<InputEvent>)
        requires
            motion_fits(events@),
        ensures
            final(self)@ == old(self)@.begin_frame().apply_all(events@),
    {
        let ghost start = old(self)@.begin_frame();
        self.rel_x = 0;
        self.rel_y = 0;
        self.keys_pressed = [false; 512];
        self.mouse_pressed = 0;
        self.events = Vec::new();
        proof {
            assert forall|b: MouseButton| !mask_has(0, b.bit() as u8) by {
                lemma_mask_empty(b.bit() as u8);
            }
            assert(self@.keys_pressed =~= Set::empty());
            assert(self@.buttons_pressed =~= Set::empty());
            assert(events@.take(0) =~= Seq::empty());
        }
        let mut i: usize = 0;
        while i < events.len()
            invariant
                i <= events.len(),
                motion_fits(events@),
                self.events@ == Seq::<InputEvent>::empty(),
                (self.rel_x as int, self.rel_y as int) == motion_sum(events@.take(i as int)),
                self@.with_events(events@.take(i as int)) == start.apply_all(
                    events@.take(i as int),
                ),
            decreases events.len() - i,
        {
            let event = events[i];
            let ghost before = self@;
            let ghost seen = events@.take(i as int);
            let ghost now = events@.take(i + 1);
            proof {
                assert(now.drop_last() =~= seen);
                assert(motion_in_range(motion_sum(now)));
            }
            match event {
                InputEvent::Quit => {
                    self.exit = true;
                },
                InputEvent::MouseMotion { x, y, xrel, yrel } => {
                    self.mouse_x = x;
                    self.mouse_y = y;
                    self.rel_x = self.rel_x + xrel;
                    self.rel_y = self.rel_y + yrel;
                },
                InputEvent::KeyDown { scancode: Some(key) } => {
                    let slot: usize = key.code() as usize;
                    self.keys_pressed[slot] = true;
                    self.keys_down[slot] = true;
                },
                InputEvent::KeyUp { scancode: Some(key) } => {
                    let slot: usize = key.code() as usize;
                    self.keys_down[slot] = false;
                },
                InputEvent::MouseButtonDown { button } => {
                    let bit: u8 = button.bit_index();
                    let ghost pressed = self.mouse_pressed;
                    let ghost down = self.mouse_down;
                    self.mouse_pressed = self.mouse_pressed | (1u8 << bit);
                    self.mouse_down = self.mouse_down | (1u8 << bit);
                    proof {
                        assert forall|b: MouseButton|
                            mask_has(self.mouse_pressed, b.bit() as u8) == (b == button
                                || mask_has(pressed, b.bit() as u8)) by {
                            lemma_mask_set(pressed, bit, b.bit() as u8);
                        }
                        assert forall|b: MouseButton|
                            mask_has(self.mouse_down, b.bit() as u8) == (b == button || mask_has(
                                down,
                                b.bit() as u8,
                            )) by {
                            lemma_mask_set(down, bit, b.bit() as u8);
                        }
                    }
                },
                InputEvent::MouseButtonUp { button } => {
                    let bit: u8 = button.bit_index();
                    let ghost down = self.mouse_down;
                    self.mouse_down = self.mouse_down & !(1u8 << bit);
                    proof {
                        assert forall|b: MouseButton|
                            mask_has(self.mouse_down, b.bit() as u8) == (b != button && mask_has(
                                down,
                                b.bit() as u8,
                            )) by {
                            lemma_mask_clear(down, bit, b.bit() as u8);
                        }
                    }
                },
                _ => {},
            }
            i = i + 1;
            proof {
                let next = before.with_events(seen).apply(event);
                assert(now =~= seen.push(event));
                assert(self@.keys_down =~= next.keys_down);
                assert(self@.keys_pressed =~= next.keys_pressed);
                assert(self@.buttons_down =~= next.buttons_down);
                assert(self@.buttons_pressed =~= next.buttons_pressed);
            }
        }
        self.events = events;
        proof {
            assert(events@.take(events@.len() as int) =~= events@);
        }
    }

    /// Whether the key is held.
    pub fn is_key_down(&self, scancode: Scancode) -> (held: bool)
        ensures
            held == self@.keys_down.contains(scancode.index()),
    {
        self.keys_down[scancode.code() as usize]
    }

    /// Whether the key went down during the current frame.
    pub fn was_key_pressed(&self, scancode: Scancode) -> (pressed: bool)
        ensures
            pressed == self@.keys_pressed.contains(scancode.index()),
    {
        self.keys_pressed[scancode.code() as usize]
    }

    /// Whether the mouse button is held.
    pub fn is_mouse_down(&self, button: MouseButton) -> (held: bool)
        ensures
            held == self@.buttons_down.contains(button),
    {
        (self.mouse_down & (1u8 << button.bit_index())) != 0
    }

    /// Whether the mouse button went down during the current frame.
    pub fn was_mouse_pressed(&self, button: MouseButton) -> (pressed: bool)
        ensures
            pressed == self@.buttons_pressed.contains(button),
    {
        (self.mouse_pressed & (1u8 << button.bit_index())) != 0
    }

    /// Where the pointer was last seen.
    pub fn mouse_pos(&self) -> (pos: (i32, i32))
        ensures
            (pos.0 as int, pos.1 as int) == self@.mouse_pos,
    {
        (self.mouse_x, self.mouse_y)
    }

    /// How far the pointer moved during the current frame.
    pub fn mouse_rel(&self) -> (rel: (i32, i32))
        ensures
            (rel.0 as int, rel.1 as int) == self@.mouse_rel,
    {
        (self.rel_x, self.rel_y)
    }

    /// The events of the current frame, in order of arrival.
    pub fn events(&self) -> (events: &Vec<InputEvent>)
        ensures
            events@ == self@.events,
    {
        &self.events
    }

    /// Whether the user asked to quit.
    pub fn exit_requested(&self) -> (exit: bool)
        ensures
            exit == self@.exit,
    {
        self.exit
    }

    /// Records that the user asked to quit. Nothing else in the snapshot changes.
    pub fn request_exit(&mut self)
        ensures
            final(self)@ == (InputState { exit: true, ..old(self)@ }),
    {
        self.exit = true;
    }
}

/// Whether the event is the key in slot `key` going down.
pub open spec fn is_key_down_event(event: InputEvent, key: int) -> bool {
    event matches InputEvent::KeyDown { scancode: Some(code) } && code.index() == key
}

/// Whether the event is the key in slot `key` going up.
pub open spec fn is_key_up_event(event: InputEvent, key: int) -> bool {
    event matches InputEvent::KeyUp { scancode: Some(code) } && code.index() == key
}

/// A batch of events leaves a record of itself behind what was recorded before.
pub proof fn lemma_events_recorded(state: InputState, events: Seq<InputEvent>)
    ensures
        state.apply_all(events).events == state.events + events,
        state.begin_frame().apply_all(events).events == events,
    decreases events.len(),
{
    if events.len() > 0 {
        lemma_events_recorded(state, events.drop_last());
        lemma_events_recorded(state.begin_frame(), events.drop_last());
    }
}

/// The pointer motion of a frame is the sum of the motions of its events.
pub proof fn lemma_motion_is_sum(state: InputState, events: Seq<InputEvent>)
    ensures
        state.apply_all(events).mouse_rel == (
            state.mouse_rel.0 + motion_sum(events).0,
            state.mouse_rel.1 + motion_sum(events).1,
        ),
        state.begin_frame().apply_all(events).mouse_rel == motion_sum(events),
    decreases events.len(),
{
    if events.len() > 0 {
        lemma_motion_is_sum(state, events.drop_last());
        lemma_motion_is_sum(state.begin_frame(), events.drop_last());
    }
}

/// A request to quit is sticky: the user has asked to quit after a batch exactly if they had
/// asked before, or the batch holds a quit event.
pub proof fn lemma_exit_is_sticky(state: InputState, events: Seq<InputEvent>)
    ensures
        state.apply_all(events).exit == (state.exit || exists|i: int|
            0 <= i < events.len() && events[i] is Quit),
        state.begin_frame().exit == state.exit,
    decreases events.len(),
{
    if events.len() > 0 {
        let front = events.drop_last();
        lemma_exit_is_sticky(state, front);
        assert forall|i: int| 0 <= i < front.len() implies front[i] == events[i] by {}
    }
}

/// Key presses are edge-triggered: a key counts as pressed in a frame exactly if one of the
/// frame's events is that key going down.
pub proof fn lemma_pressed_this_frame(state: InputState, events: Seq<InputEvent>, key: int)
    ensures
        state.begin_frame().apply_all(events).keys_pressed.contains(key) <==> exists|i: int|
            0 <= i < events.len() && is_key_down_event(events[i], key),
    decreases events.len(),
{
    if events.len() > 0 {
        let front = events.drop_last();
        lemma_pressed_this_frame(state, front, key);
        assert forall|i: int| 0 <= i < front.len() implies front[i] == events[i] by {}
    }
}

/// Held keys are level-triggered: a key is held after a batch exactly if it went down in the
/// batch and did not go up afterwards, or was held before and did not go up in the batch.
pub proof fn lemma_held_after(state: InputState, events: Seq<InputEvent>, key: int)
    ensures
        state.begin_frame().keys_down == state.keys_down,
        state.apply_all(events).keys_down.contains(key) <==> {
            ||| exists|i: int|
                0 <= i < events.len() && is_key_down_event(events[i], key) && forall|j: int|
                    i < j < events.len() ==> !is_key_up_event(events[j], key)
            ||| state.keys_down.contains(key) && forall|j: int|
                0 <= j < events.len() ==> !is_key_up_event(events[j], key)
        },
    decreases events.len(),
{
    if events.len() > 0 {
        let front = events.drop_last();
        lemma_held_after(state, front, key);
        assert forall|j: int| 0 <= j < front.len() implies front[j] == events[j] by {}
    }
}

/// Adds up the pointer motion of a batch of events. There is a sum exactly where
/// [`Input::update`] can take the batch: where the motion stays within the snapshot's
/// counters at every event.
pub fn total_motion(events: &Vec<InputEvent>) -> (total: Option<(i32, i32)>)
    ensures
        match total {
            Some(motion) => motion_fits(events@) && (motion.0 as int, motion.1 as int)
                == motion_sum(events@),
            None => !motion_fits(events@),
        },
{
    let mut x: i32 = 0;
    let mut y: i32 = 0;
    let mut i: usize = 0;
    while i < events.len()
        invariant
            i <= events.len(),
            (x as int, y as int) == motion_sum(events@.take(i as int)),
            forall|k: int| 0 <= k <= i ==> motion_in_range(#[trigger] motion_sum(events@.take(k))),
        decreases events.len() - i,
    {
        let ghost now = events@.take(i + 1);
        proof {
            assert(now.drop_last() =~= events@.take(i as int));
        }
        match events[i] {
            InputEvent::MouseMotion { xrel, yrel, .. } => {
                match (x.checked_add(xrel), y.checked_add(yrel)) {
                    (Some(next_x), Some(next_y)) => {
                        x = next_x;
                        y = next_y;
                    },
                    _ => {
                        proof {
                            assert(!motion_in_range(motion_sum(events@.take(i + 1))));
                        }
                        return None;
                    },
                }
            },
            _ => {},
        }
        i = i + 1;
    }
    proof {
        assert(events@.take(events@.len() as int) =~= events@);
    }
    Some((x, y))
}

} // verus!
