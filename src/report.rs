use vstd::prelude::*;

verus! {

/// Cursor movement per cycle for one active cursor key.
pub const MOUSE_CURSOR_SPEED: i8 = 3;

/// Wheel or pan movement per cycle for one active wheel key.
pub const MOUSE_WHEEL_SPEED: i8 = 1;

/// Key slots of a boot-protocol keyboard report.
pub const KEYBOARD_KEY_SLOTS: usize = 6;

/// Gamepad payload: a 16-button mask and a hat switch.
///
/// The hat is 0 when centred, else 1 to 8 clockwise from up:
/// 1 up, 2 up-right, 3 right, 4 down-right, 5 down, 6 down-left, 7 left,
/// 8 up-left.
#[derive(Clone, Copy, Debug, PartialEq, Eq, Structural)]
pub struct GamepadReport {
    pub buttons: u16,
    pub hat: u8,
}

/// Mouse payload: a button mask and signed deltas.
#[derive(Clone, Copy, Debug, PartialEq, Eq, Structural)]
pub struct MouseReport {
    pub buttons: u8,
    pub x: i8,
    pub y: i8,
    pub wheel: i8,
    pub pan: i8,
}

/// Boot-protocol keyboard payload: a modifier mask and up to six scancodes.
#[derive(Clone, Copy, Debug)]
pub struct KeyboardReport {
    pub modifier: u8,
    pub keycodes: [u8; KEYBOARD_KEY_SLOTS],
}

/// A virtual direction applied to the hat switch.
#[derive(Clone, Copy, Debug, PartialEq, Eq, Structural)]
pub enum HatDirection {
    Up,
    Down,
    Left,
    Right,
}

/// The hat state after applying `dir` to hat state `h`.
///
/// From the centre a direction moves to its own octant; next to the
/// perpendicular octant it moves to the diagonal between them; where the
/// state already points that way it stays; any other state (one that points
/// the opposite way) goes back to the centre.
pub open spec fn hat_next(dir: HatDirection, h: int) -> int {
    match dir {
        HatDirection::Up => if h == 0 {
            1
        } else if h == 1 || h == 2 || h == 8 {
            h
        } else if h == 7 {
            8
        } else if h == 3 {
            2
        } else {
            0
        },
        HatDirection::Down => if h == 0 {
            5
        } else if 4 <= h <= 6 {
            h
        } else if h == 7 {
            6
        } else if h == 3 {
            4
        } else {
            0
        },
        HatDirection::Left => if h == 0 {
            7
        } else if 6 <= h <= 8 {
            h
        } else if h == 1 {
            8
        } else if h == 5 {
            6
        } else {
            0
        },
        HatDirection::Right => if h == 0 {
            3
        } else if 2 <= h <= 4 {
            h
        } else if h == 1 {
            2
        } else if h == 5 {
            4
        } else {
            0
        },
    }
}

/// Once a direction has taken hold, applying it again changes nothing.
pub proof fn lemma_hat_idempotent(dir: HatDirection, h: u8)
    ensures
        hat_next(dir, h as int) != 0 ==> hat_next(dir, hat_next(dir, h as int)) == hat_next(
            dir,
            h as int,
        ),
{
}

/// Every hat state stays within 0 to 8.
pub proof fn lemma_hat_in_range(dir: HatDirection, h: u8)
    ensures
        0 <= hat_next(dir, h as int) <= 8,
{
}

/// Accumulates one gamepad report.
pub struct GamepadInputBuilder {
    report: GamepadReport,
}

impl View for GamepadInputBuilder {
    type V = GamepadReport;

    closed spec fn view(&self) -> GamepadReport {
        self.report
    }
}

impl Default for GamepadInputBuilder {
    fn default() -> (r: Self)
        ensures
            r@ == (GamepadReport { buttons: 0, hat: 0 }),
    {
        GamepadInputBuilder { report: GamepadReport { buttons: 0, hat: 0 } }
    }
}

impl GamepadInputBuilder {
    /// Presses button `n` (0 for the first).
    pub fn button(&mut self, n: u8)
        requires
            n < 16,
        ensures
            final(self)@ == (GamepadReport {
                buttons: old(self)@.buttons | (1u16 << n),
                ..old(self)@
            }),
    {
        self.report.buttons = self.report.buttons | (1u16 << n);
    }

    /// Applies a direction to the hat switch.
    pub fn dpad(&mut self, dir: HatDirection)
        ensures
            final(self)@ == (GamepadReport {
                hat: hat_next(dir, old(self)@.hat as int) as u8,
                ..old(self)@
            }),
    {
        let h = self.report.hat;
        self.report.hat = match dir {
            HatDirection::Up => if h == 0 {
                1
            } else if h == 1 || h == 2 || h == 8 {
                h
            } else if h == 7 {
                8
            } else if h == 3 {
                2
            } else {
                0
            },
            HatDirection::Down => if h == 0 {
                5
            } else if 4 <= h && h <= 6 {
                h
            } else if h == 7 {
                6
            } else if h == 3 {
                4
            } else {
                0
            },
            HatDirection::Left => if h == 0 {
                7
            } else if 6 <= h && h <= 8 {
                h
            } else if h == 1 {
                8
            } else if h == 5 {
                6
            } else {
                0
            },
            HatDirection::Right => if h == 0 {
                3
            } else if 2 <= h && h <= 4 {
                h
            } else if h == 1 {
                2
            } else if h == 5 {
                4
            } else {
                0
            },
        };
    }

    /// Applies "up" to the hat switch.
    pub fn dpad_up(&mut self)
        ensures
            final(self)@ == (GamepadReport {
                hat: hat_next(HatDirection::Up, old(self)@.hat as int) as u8,
                ..old(self)@
            }),
    {
        self.dpad(HatDirection::Up);
    }

    /// Applies "down" to the hat switch.
    pub fn dpad_down(&mut self)
        ensures
            final(self)@ == (GamepadReport {
                hat: hat_next(HatDirection::Down, old(self)@.hat as int) as u8,
                ..old(self)@
            }),
    {
        self.dpad(HatDirection::Down);
    }

    /// Applies "left" to the hat switch.
    pub fn dpad_left(&mut self)
        ensures
            final(self)@ == (GamepadReport {
                hat: hat_next(HatDirection::Left, old(self)@.hat as int) as u8,
                ..old(self)@
            }),
    {
        self.dpad(HatDirection::Left);
    }

    /// Applies "right" to the hat switch.
    pub fn dpad_right(&mut self)
        ensures
            final(self)@ == (GamepadReport {
                hat: hat_next(HatDirection::Right, old(self)@.hat as int) as u8,
                ..old(self)@
            }),
    {
        self.dpad(HatDirection::Right);
    }

    /// The accumulated report.
    pub fn build(self) -> (r: GamepadReport)
        ensures
            r == self@,
    {
        self.report
    }
}

/// `v` clamped to the range of `i8`.
pub open spec fn clamp_i8(v: int) -> int {
    if v < -128 {
        -128
    } else if v > 127 {
        127
    } else {
        v
    }
}

/// `v + d`, saturated at the bounds of `i8`.
fn saturating_offset(v: i8, d: i8) -> (r: i8)
    ensures
        r == clamp_i8(v + d),
{
    let s: i16 = v as i16 + d as i16;
    if s < -128 {
        -128
    } else if s > 127 {
        127
    } else {
        s as i8
    }
}

/// Accumulates one mouse report. Movement saturates at the bounds of a
/// report field.
pub struct MouseInputBuilder {
    report: MouseReport,
}

impl View for MouseInputBuilder {
    type V = MouseReport;

    closed spec fn view(&self) -> MouseReport {
        self.report
    }
}

impl Default for MouseInputBuilder {
    fn default() -> (r: Self)
        ensures
            r@ == (MouseReport { buttons: 0, x: 0, y: 0, wheel: 0, pan: 0 }),
    {
        MouseInputBuilder { report: MouseReport { buttons: 0, x: 0, y: 0, wheel: 0, pan: 0 } }
    }
}

impl MouseInputBuilder {
    /// Moves the cursor up by one step.
    pub fn cursor_up(&mut self)
        ensures
            final(self)@ == (MouseReport {
                y: clamp_i8(old(self)@.y - MOUSE_CURSOR_SPEED) as i8,
                ..old(self)@
            }),
    {
        self.report.y = saturating_offset(self.report.y, -MOUSE_CURSOR_SPEED);
    }

    /// Moves the cursor down by one step.
    pub fn cursor_down(&mut self)
        ensures
            final(self)@ == (MouseReport {
                y: clamp_i8(old(self)@.y + MOUSE_CURSOR_SPEED) as i8,
                ..old(self)@
            }),
    {
        self.report.y = saturating_offset(self.report.y, MOUSE_CURSOR_SPEED);
    }

    /// Moves the cursor left by one step.
    pub fn cursor_left(&mut self)
        ensures
            final(self)@ == (MouseReport {
                x: clamp_i8(old(self)@.x - MOUSE_CURSOR_SPEED) as i8,
                ..old(self)@
            }),
    {
        self.report.x = saturating_offset(self.report.x, -MOUSE_CURSOR_SPEED);
    }

    /// Moves the cursor right by one step.
    pub fn cursor_right(&mut self)
        ensures
            final(self)@ == (MouseReport {
                x: clamp_i8(old(self)@.x + MOUSE_CURSOR_SPEED) as i8,
                ..old(self)@
            }),
    {
        self.report.x = saturating_offset(self.report.x, MOUSE_CURSOR_SPEED);
    }

    /// Scrolls up by one step.
    pub fn wheel_up(&mut self)
        ensures
            final(self)@ == (MouseReport {
                wheel: clamp_i8(old(self)@.wheel + MOUSE_WHEEL_SPEED) as i8,
                ..old(self)@
            }),
    {
        self.report.wheel = saturating_offset(self.report.wheel, MOUSE_WHEEL_SPEED);
    }

    /// Scrolls down by one step.
    pub fn wheel_down(&mut self)
        ensures
            final(self)@ == (MouseReport {
                wheel: clamp_i8(old(self)@.wheel - MOUSE_WHEEL_SPEED) as i8,
                ..old(self)@
            }),
    {
        self.report.wheel = saturating_offset(self.report.wheel, -MOUSE_WHEEL_SPEED);
    }

    /// Pans left by one step.
    pub fn wheel_left(&mut self)
        ensures
            final(self)@ == (MouseReport {
                pan: clamp_i8(old(self)@.pan + MOUSE_WHEEL_SPEED) as i8,
                ..old(self)@
            }),
    {
        self.report.pan = saturating_offset(self.report.pan, MOUSE_WHEEL_SPEED);
    }

    /// Pans right by one step.
    pub fn wheel_right(&mut self)
        ensures
            final(self)@ == (MouseReport {
                pan: clamp_i8(old(self)@.pan - MOUSE_WHEEL_SPEED) as i8,
                ..old(self)@
            }),
    {
        self.report.pan = saturating_offset(self.report.pan, -MOUSE_WHEEL_SPEED);
    }

    /// Presses mouse button `n` (0 for the first).
    pub fn button(&mut self, n: u8)
        requires
            n < 8,
        ensures
            final(self)@ == (MouseReport { buttons: old(self)@.buttons | (1u8 << n), ..old(self)@ }),
    {
        self.report.buttons = self.report.buttons | (1u8 << n);
    }

    /// The accumulated report.
    pub fn build(self) -> (r: MouseReport)
        ensures
            r == self@,
    {
        self.report
    }
}

/// The abstract content of a [`KeyboardInputBuilder`].
pub struct KeyboardState {
    pub modifier: u8,
    /// Scancodes in the order they were added; at most six.
    pub keys: Seq<u8>,
}

/// Accumulates one keyboard report. Scancodes beyond the sixth are dropped.
pub struct KeyboardInputBuilder {
    inner: KeyboardReport,
    next_key_index: usize,
}

impl View for KeyboardInputBuilder {
    type V = KeyboardState;

    closed spec fn view(&self) -> KeyboardState {
        KeyboardState {
            modifier: self.inner.modifier,
            keys: self.inner.keycodes@.take(self.next_key_index as int),
        }
    }
}

impl KeyboardInputBuilder {
    #[verifier::type_invariant]
    closed spec fn inv(&self) -> bool {
        &&& self.next_key_index <= KEYBOARD_KEY_SLOTS
        &&& forall|i: int|
            self.next_key_index <= i < KEYBOARD_KEY_SLOTS ==> self.inner.keycodes[i] == 0
    }

    /// Adds a scancode, unless all six slots are taken.
    pub fn key(&mut self, code: u8)
        ensures
            final(self)@.modifier == old(self)@.modifier,
            old(self)@.keys.len() < KEYBOARD_KEY_SLOTS ==> final(self)@.keys == old(
                self,
            )@.keys.push(code),
            old(self)@.keys.len() >= KEYBOARD_KEY_SLOTS ==> final(self)@.keys == old(self)@.keys,
    {
        proof {
            use_type_invariant(&*self);
        }
        let index = self.next_key_index;
        if index >= KEYBOARD_KEY_SLOTS {
            return;
        }
        self.next_key_index = index + 1;
        self.inner.keycodes[index] = code;
        assert(self@.keys =~= old(self)@.keys.push(code));
    }

    /// Sets modifier bit `n` (0 for left control).
    pub fn modifier(&mut self, n: u8)
        requires
            n < 8,
        ensures
            final(self)@.modifier == old(self)@.modifier | (1u8 << n),
            final(self)@.keys == old(self)@.keys,
    {
        proof {
            use_type_invariant(&*self);
        }
        self.inner.modifier = self.inner.modifier | (1u8 << n);
    }

    /// The accumulated report: the scancodes in order, then zeros.
    pub fn build(self) -> (r: KeyboardReport)
        ensures
            r.modifier == self@.modifier,
            self@.keys.len() <= KEYBOARD_KEY_SLOTS,
            forall|i: int|
                0 <= i < KEYBOARD_KEY_SLOTS ==> #[trigger] r.keycodes[i] == if i < self@.keys.len() {
                    self@.keys[i]
                } else {
                    0
                },
    {
        proof {
            use_type_invariant(&self);
        }
        self.inner
    }
}

impl Default for KeyboardInputBuilder {
    fn default() -> (r: Self)
        ensures
            r@.modifier == 0,
            r@.keys == Seq::<u8>::empty(),
    {
        let r = KeyboardInputBuilder {
            inner: KeyboardReport { modifier: 0, keycodes: [0u8; KEYBOARD_KEY_SLOTS] },
            next_key_index: 0,
        };
        assert(r@.keys =~= Seq::<u8>::empty());
        r
    }
}

} // verus!
