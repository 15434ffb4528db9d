use vstd::prelude::*;
use crate::keymap::{default_keymap, Keycode, Keymap, DPAD_DOWN, DPAD_LEFT, DPAD_RIGHT, DPAD_UP, JOY_BTN1, JOY_BTN16};
use crate::knob::KnobTurn;
use crate::reader::InputSnapshot;
use crate::report::{
    clamp_i8, hat_next, GamepadInputBuilder, GamepadReport, HatDirection, KeyboardInputBuilder,
    KeyboardReport, KeyboardState, MouseInputBuilder, MouseReport, KEYBOARD_KEY_SLOTS,
    MOUSE_CURSOR_SPEED, MOUSE_WHEEL_SPEED,
};

verus! {

/// Keycodes handled as keyboard keys: the basic range below the mouse keys
/// and above them (where the modifiers are).
pub open spec fn is_keyboard_code(code: u16) -> bool {
    code <= Keycode::RANGE_QK_BASIC_END && !is_mouse_code(code)
}

/// Keycodes handled as mouse actions.
pub open spec fn is_mouse_code(code: u16) -> bool {
    Keycode::QK_MOUSE_CURSOR_UP <= code <= Keycode::QK_MOUSE_ACCELERATION_2
}

/// Keycodes handled as gamepad buttons or hat directions.
pub open spec fn is_gamepad_code(code: u16) -> bool {
    JOY_BTN1 <= code <= DPAD_RIGHT
}

/// The abstract content of [`InputReports`]: each report that a keycode of
/// its class has touched this cycle.
pub struct ReportsState {
    pub gamepad: Option<GamepadReport>,
    pub keyboard: Option<KeyboardState>,
    pub mouse: Option<MouseReport>,
}

pub open spec fn empty_reports() -> ReportsState {
    ReportsState { gamepad: None, keyboard: None, mouse: None }
}

pub open spec fn gamepad_or_empty(g: Option<GamepadReport>) -> GamepadReport {
    match g {
        Some(r) => r,
        None => GamepadReport { buttons: 0, hat: 0 },
    }
}

pub open spec fn keyboard_or_empty(k: Option<KeyboardState>) -> KeyboardState {
    match k {
        Some(r) => r,
        None => KeyboardState { modifier: 0, keys: Seq::empty() },
    }
}

pub open spec fn mouse_or_empty(m: Option<MouseReport>) -> MouseReport {
    match m {
        Some(r) => r,
        None => MouseReport { buttons: 0, x: 0, y: 0, wheel: 0, pan: 0 },
    }
}

/// A pressed gamepad keycode applied to a gamepad report.
pub open spec fn gamepad_press(r: GamepadReport, code: u16) -> GamepadReport {
    if code == DPAD_UP {
        GamepadReport { hat: hat_next(HatDirection::Up, r.hat as int) as u8, ..r }
    } else if code == DPAD_LEFT {
        GamepadReport { hat: hat_next(HatDirection::Left, r.hat as int) as u8, ..r }
    } else if code == DPAD_DOWN {
        GamepadReport { hat: hat_next(HatDirection::Down, r.hat as int) as u8, ..r }
    } else if code == DPAD_RIGHT {
        GamepadReport { hat: hat_next(HatDirection::Right, r.hat as int) as u8, ..r }
    } else if JOY_BTN1 <= code <= JOY_BTN16 {
        GamepadReport { buttons: r.buttons | (1u16 << (code - JOY_BTN1) as u16), ..r }
    } else {
        r
    }
}

/// A pressed mouse keycode applied to a mouse report.
pub open spec fn mouse_press(r: MouseReport, code: u16) -> MouseReport {
    if code == Keycode::QK_MOUSE_CURSOR_UP {
        MouseReport { y: clamp_i8(r.y - MOUSE_CURSOR_SPEED) as i8, ..r }
    } else if code == Keycode::QK_MOUSE_CURSOR_DOWN {
        MouseReport { y: clamp_i8(r.y + MOUSE_CURSOR_SPEED) as i8, ..r }
    } else if code == Keycode::QK_MOUSE_CURSOR_LEFT {
        MouseReport { x: clamp_i8(r.x - MOUSE_CURSOR_SPEED) as i8, ..r }
    } else if code == Keycode::QK_MOUSE_CURSOR_RIGHT {
        MouseReport { x: clamp_i8(r.x + MOUSE_CURSOR_SPEED) as i8, ..r }
    } else if code == Keycode::QK_MOUSE_WHEEL_UP {
        MouseReport { wheel: clamp_i8(r.wheel + MOUSE_WHEEL_SPEED) as i8, ..r }
    } else if code == Keycode::QK_MOUSE_WHEEL_DOWN {
        MouseReport { wheel: clamp_i8(r.wheel - MOUSE_WHEEL_SPEED) as i8, ..r }
    } else if code == Keycode::QK_MOUSE_WHEEL_LEFT {
        MouseReport { pan: clamp_i8(r.pan + MOUSE_WHEEL_SPEED) as i8, ..r }
    } else if code == Keycode::QK_MOUSE_WHEEL_RIGHT {
        MouseReport { pan: clamp_i8(r.pan - MOUSE_WHEEL_SPEED) as i8, ..r }
    } else if Keycode::QK_MOUSE_BUTTON_1 <= code <= Keycode::QK_MOUSE_BUTTON_8 {
        MouseReport {
            buttons: r.buttons | (1u8 << (code - Keycode::QK_MOUSE_BUTTON_1) as u8),
            ..r
        }
    } else {
        r
    }
}

/// A pressed keyboard keycode applied to a keyboard report: a scancode takes
/// the next free slot (dropped when all six are taken), a modifier sets its bit.
pub open spec fn keyboard_press(k: KeyboardState, code: u16) -> KeyboardState {
    if Keycode::KC_A <= code <= Keycode::KC_EXSEL {
        if k.keys.len() < KEYBOARD_KEY_SLOTS {
            KeyboardState { keys: k.keys.push(code as u8), ..k }
        } else {
            k
        }
    } else if Keycode::KC_LEFT_CTRL <= code <= Keycode::KC_RIGHT_GUI {
        KeyboardState {
            modifier: k.modifier | (1u8 << (code - Keycode::KC_LEFT_CTRL) as u8),
            ..k
        }
    } else {
        k
    }
}

/// One control's keycode and level applied to the reports of a cycle.
///
/// A keycode of a handled class brings its report into the cycle whether or
/// not the control is active, so that a release is reported too; only an
/// active control changes the report. Keycodes of no class are ignored.
pub open spec fn key_step(st: ReportsState, code: u16, pressed: bool) -> ReportsState {
    if is_keyboard_code(code) {
        let k = keyboard_or_empty(st.keyboard);
        ReportsState {
            keyboard: Some(
                if pressed {
                    keyboard_press(k, code)
                } else {
                    k
                },
            ),
            ..st
        }
    } else if is_mouse_code(code) {
        let m = mouse_or_empty(st.mouse);
        ReportsState {
            mouse: Some(
                if pressed {
                    mouse_press(m, code)
                } else {
                    m
                },
            ),
            ..st
        }
    } else if is_gamepad_code(code) {
        let g = gamepad_or_empty(st.gamepad);
        ReportsState {
            gamepad: Some(
                if pressed {
                    gamepad_press(g, code)
                } else {
                    g
                },
            ),
            ..st
        }
    } else {
        st
    }
}

/// The reports of one cycle, accumulated keycode by keycode.
pub struct InputReports {
    gamepad: Option<GamepadInputBuilder>,
    keyboard: Option<KeyboardInputBuilder>,
    mouse: Option<MouseInputBuilder>,
}

impl View for InputReports {
    type V = ReportsState;

    closed spec fn view(&self) -> ReportsState {
        ReportsState {
            gamepad: match self.gamepad {
                Some(b) => Some(b@),
                None => None,
            },
            keyboard: match self.keyboard {
                Some(b) => Some(b@),
                None => None,
            },
            mouse: match self.mouse {
                Some(b) => Some(b@),
                None => None,
            },
        }
    }
}

/// The finished payloads of one cycle; a class that no keycode touched has none.
pub struct EncodedReports {
    pub gamepad: Option<GamepadReport>,
    pub keyboard: Option<KeyboardReport>,
    pub mouse: Option<MouseReport>,
}

impl Default for InputReports {
    fn default() -> (r: Self)
        ensures
            r@ == empty_reports(),
    {
        InputReports { gamepad: None, keyboard: None, mouse: None }
    }
}

impl InputReports {
    /// Applies one control's keycode, dispatched by its numeric range.
    pub fn key(&mut self, code: Keycode, pressed: bool)
        ensures
            final(self)@ == key_step(old(self)@, code.0, pressed),
    {
        if code.0 <= Keycode::RANGE_QK_BASIC_END && !(Keycode::QK_MOUSE_CURSOR_UP <= code.0
            && code.0 <= Keycode::QK_MOUSE_ACCELERATION_2) {
            self.keyboard(code, pressed);
        } else if Keycode::QK_MOUSE_CURSOR_UP <= code.0 && code.0
            <= Keycode::QK_MOUSE_ACCELERATION_2 {
            self.mouse(code, pressed);
        } else if JOY_BTN1 <= code.0 && code.0 <= DPAD_RIGHT {
            self.gamepad(code, pressed);
        }
    }

    fn gamepad(&mut self, code: Keycode, pressed: bool)
        requires
            is_gamepad_code(code.0),
        ensures
            final(self)@ == key_step(old(self)@, code.0, pressed),
    {
        let mut gamepad = match self.gamepad.take() {
            Some(g) => g,
            None => GamepadInputBuilder::default(),
        };
        if pressed {
            let c = code.0;
            if c == DPAD_UP {
                gamepad.dpad_up();
            } else if c == DPAD_LEFT {
                gamepad.dpad_left();
            } else if c == DPAD_DOWN {
                gamepad.dpad_down();
            } else if c == DPAD_RIGHT {
                gamepad.dpad_right();
            } else if JOY_BTN1 <= c && c <= JOY_BTN16 {
                gamepad.button((c - JOY_BTN1) as u8);
            }
        }
        self.gamepad = Some(gamepad);
    }

    fn mouse(&mut self, code: Keycode, pressed: bool)
        requires
            is_mouse_code(code.0),
        ensures
            final(self)@ == key_step(old(self)@, code.0, pressed),
    {
        let mut mouse = match self.mouse.take() {
            Some(m) => m,
            None => MouseInputBuilder::default(),
        };
        if pressed {
            let c = code.0;
            if c == Keycode::QK_MOUSE_CURSOR_UP {
                mouse.cursor_up();
            } else if c == Keycode::QK_MOUSE_CURSOR_DOWN {
                mouse.cursor_down();
            } else if c == Keycode::QK_MOUSE_CURSOR_LEFT {
                mouse.cursor_left();
            } else if c == Keycode::QK_MOUSE_CURSOR_RIGHT {
                mouse.cursor_right();
            } else if c == Keycode::QK_MOUSE_WHEEL_UP {
                mouse.wheel_up();
            } else if c == Keycode::QK_MOUSE_WHEEL_DOWN {
                mouse.wheel_down();
            } else if c == Keycode::QK_MOUSE_WHEEL_LEFT {
                mouse.wheel_left();
            } else if c == Keycode::QK_MOUSE_WHEEL_RIGHT {
                mouse.wheel_right();
            } else if Keycode::QK_MOUSE_BUTTON_1 <= c && c <= Keycode::QK_MOUSE_BUTTON_8 {
                mouse.button((c - Keycode::QK_MOUSE_BUTTON_1) as u8);
            }
        }
        self.mouse = Some(mouse);
    }

    fn keyboard(&mut self, code: Keycode, pressed: bool)
        requires
            is_keyboard_code(code.0),
        ensures
            final(self)@ == key_step(old(self)@, code.0, pressed),
    {
        let mut keyboard = match self.keyboard.take() {
            Some(k) => k,
            None => KeyboardInputBuilder::default(),
        };
        if pressed {
            let c = code.0;
            if Keycode::KC_A <= c && c <= Keycode::KC_EXSEL {
                keyboard.key(c as u8);
            } else if Keycode::KC_LEFT_CTRL <= c && c <= Keycode::KC_RIGHT_GUI {
                keyboard.modifier((c - Keycode::KC_LEFT_CTRL) as u8);
            }
        }
        self.keyboard = Some(keyboard);
    }

    /// The payloads to hand to the transports: one per class that a keycode
    /// touched this cycle.
    pub fn finish(self) -> (r: EncodedReports)
        ensures
            r.gamepad == self@.gamepad,
            r.mouse == self@.mouse,
            r.keyboard is Some <==> self@.keyboard is Some,
            self@.keyboard is Some ==> r.keyboard.unwrap().modifier
                == self@.keyboard.unwrap().modifier,
            self@.keyboard is Some ==> forall|i: int|
                0 <= i < KEYBOARD_KEY_SLOTS ==> #[trigger] r.keyboard.unwrap().keycodes[i] == if i
                    < self@.keyboard.unwrap().keys.len() {
                    self@.keyboard.unwrap().keys[i]
                } else {
                    0
                },
    {
        let gamepad = match self.gamepad {
            Some(g) => Some(g.build()),
            None => None,
        };
        let keyboard = match self.keyboard {
            Some(k) => Some(k.build()),
            None => None,
        };
        let mouse = match self.mouse {
            Some(m) => Some(m.build()),
            None => None,
        };
        EncodedReports { gamepad, keyboard, mouse }
    }
}

/// Every bindable action in encoding order, with its keycode and whether
/// it is active in the snapshot.
pub open spec fn bindings(s: InputSnapshot, m: Keymap) -> Seq<(Keycode, bool)> {
    seq![
        (m.left_knob_left, s.left_knob == KnobTurn::Left),
        (m.left_knob_right, s.left_knob == KnobTurn::Right),
        (m.start, s.buttons.start),
        (m.right_knob_left, s.right_knob == KnobTurn::Left),
        (m.right_knob_right, s.right_knob == KnobTurn::Right),
        (m.button1, s.buttons.button1),
        (m.button2, s.buttons.button2),
        (m.button3, s.buttons.button3),
        (m.button4, s.buttons.button4),
        (m.fx1, s.buttons.fx1),
        (m.fx2, s.buttons.fx2),
    ]
}

/// The reports after applying a sequence of keycodes in order.
pub open spec fn apply_keys(st: ReportsState, keys: Seq<(Keycode, bool)>) -> ReportsState
    decreases keys.len(),
{
    if keys.len() == 0 {
        st
    } else {
        let k = keys.last();
        key_step(apply_keys(st, keys.drop_last()), k.0.0, k.1)
    }
}

/// The reports that encode a snapshot under a keymap.
pub open spec fn encoded(s: InputSnapshot, m: Keymap) -> ReportsState {
    apply_keys(empty_reports(), bindings(s, m))
}

/// Encodes a snapshot: every bindable action's keycode is applied in a fixed
/// order, active or not.
pub fn encode(snapshot: &InputSnapshot, keymap: &Keymap) -> (r: InputReports)
    ensures
        r@ == encoded(*snapshot, *keymap),
{
    let keys: [(Keycode, bool); 11] = [
        (keymap.left_knob_left, snapshot.left_knob == KnobTurn::Left),
        (keymap.left_knob_right, snapshot.left_knob == KnobTurn::Right),
        (keymap.start, snapshot.buttons.start),
        (keymap.right_knob_left, snapshot.right_knob == KnobTurn::Left),
        (keymap.right_knob_right, snapshot.right_knob == KnobTurn::Right),
        (keymap.button1, snapshot.buttons.button1),
        (keymap.button2, snapshot.buttons.button2),
        (keymap.button3, snapshot.buttons.button3),
        (keymap.button4, snapshot.buttons.button4),
        (keymap.fx1, snapshot.buttons.fx1),
        (keymap.fx2, snapshot.buttons.fx2),
    ];
    let ghost all = bindings(*snapshot, *keymap);
    assert(keys@ =~= all);
    let mut reports = InputReports::default();
    let mut i: usize = 0;
    while i < 11
        invariant
            i <= 11,
            keys@ == all,
            all.len() == 11,
            reports@ == apply_keys(empty_reports(), all.take(i as int)),
        decreases 11 - i,
    {
        let (code, active) = keys[i];
        assert(all.take(i + 1).drop_last() =~= all.take(i as int));
        reports.key(code, active);
        i = i + 1;
    }
    assert(all.take(11) =~= all);
    reports
}

pub open spec fn bit(on: bool, mask: u16) -> u16 {
    if on {
        mask
    } else {
        0
    }
}

/// The factory gamepad layout: A to D on buttons 7, 5, 6 and 8, FX-R on
/// button 2, start on button 10, the right knob on buttons 1 (left turn)
/// and 3 (right turn); FX-L pushes the hat down and the left knob pushes
/// it left or right, combining into a diagonal.
pub open spec fn fixed_layout(s: InputSnapshot) -> GamepadReport {
    let b = s.buttons;
    GamepadReport {
        buttons: bit(b.button1, 0x40) | bit(b.button2, 0x10) | bit(b.button3, 0x20) | bit(
            b.button4,
            0x80,
        ) | bit(b.fx2, 0x2) | bit(b.start, 0x200) | bit(s.right_knob == KnobTurn::Left, 0x1)
            | bit(s.right_knob == KnobTurn::Right, 0x4),
        hat: if b.fx1 {
            if s.left_knob == KnobTurn::Left {
                6
            } else if s.left_knob == KnobTurn::Right {
                4
            } else {
                5
            }
        } else if s.left_knob == KnobTurn::Left {
            7
        } else if s.left_knob == KnobTurn::Right {
            3
        } else {
            0
        },
    }
}

fn mask_if(on: bool, mask: u16) -> (r: u16)
    ensures
        r == bit(on, mask),
{
    if on {
        mask
    } else {
        0
    }
}

/// The gamepad report of the factory layout, without a keymap.
pub fn input_report(input: &InputSnapshot) -> (r: GamepadReport)
    ensures
        r == fixed_layout(*input),
{
    let b = input.buttons;
    let buttons: u16 = mask_if(b.button1, 0x40) | mask_if(b.button2, 0x10) | mask_if(
        b.button3,
        0x20,
    ) | mask_if(b.button4, 0x80) | mask_if(b.fx2, 0x2) | mask_if(b.start, 0x200) | mask_if(
        input.right_knob == KnobTurn::Left,
        0x1,
    ) | mask_if(input.right_knob == KnobTurn::Right, 0x4);
    let hat: u8 = if b.fx1 {
        if input.left_knob == KnobTurn::Left {
            6
        } else if input.left_knob == KnobTurn::Right {
            4
        } else {
            5
        }
    } else if input.left_knob == KnobTurn::Left {
        7
    } else if input.left_knob == KnobTurn::Right {
        3
    } else {
        0
    };
    GamepadReport { buttons, hat }
}

proof fn lemma_apply_take(st: ReportsState, ks: Seq<(Keycode, bool)>, k: int)
    requires
        0 <= k < ks.len(),
    ensures
        apply_keys(st, ks.take(k + 1)) == key_step(apply_keys(st, ks.take(k)), ks[k].0.0, ks[k].1),
{
    assert(ks.take(k + 1).drop_last() =~= ks.take(k));
}

/// Reports holding only a gamepad report.
pub open spec fn gamepad_only(g: GamepadReport) -> ReportsState {
    ReportsState { gamepad: Some(g), keyboard: None, mouse: None }
}

proof fn lemma_gamepad_key(st: ReportsState, code: u16, pressed: bool)
    requires
        is_gamepad_code(code),
        (st.keyboard is None),
        (st.mouse is None),
    ensures
        key_step(st, code, pressed) == gamepad_only(
            if pressed {
                gamepad_press(gamepad_or_empty(st.gamepad), code)
            } else {
                gamepad_or_empty(st.gamepad)
            },
        ),
{
}

/// A pressed-or-not gamepad button keycode sets its bit or nothing.
proof fn lemma_button_bit(g: GamepadReport, n: u16, pressed: bool)
    requires
        n < 16,
    ensures
        (if pressed {
            gamepad_press(g, (JOY_BTN1 + n) as u16)
        } else {
            g
        }) == (GamepadReport { buttons: g.buttons | bit(pressed, 1u16 << n), ..g }),
{
    let x = g.buttons;
    assert(x | 0 == x) by (bit_vector);
    assert(((JOY_BTN1 + n) as u16 - JOY_BTN1) as u16 == n);
}

proof fn lemma_first_half(s: InputSnapshot) -> (g: GamepadReport)
    ensures
        apply_keys(empty_reports(), bindings(s, default_keymap()).take(5)) == gamepad_only(g),
        g.hat == (if s.left_knob == KnobTurn::Left {
            7u8
        } else if s.left_knob == KnobTurn::Right {
            3u8
        } else {
            0u8
        }),
        g.buttons == 0u16 | bit(s.buttons.start, 0x200) | bit(s.right_knob == KnobTurn::Left, 0x1)
            | bit(s.right_knob == KnobTurn::Right, 0x4),
{
    let ks = bindings(s, default_keymap());
    let e = empty_reports();
    assert(1u16 << 9u16 == 0x200) by (bit_vector);
    assert(1u16 << 0u16 == 0x1) by (bit_vector);
    assert(1u16 << 2u16 == 0x4) by (bit_vector);
    assert(ks.take(0) =~= Seq::<(Keycode, bool)>::empty());
    lemma_apply_take(e, ks, 0);
    lemma_gamepad_key(e, DPAD_LEFT, ks[0].1);
    let g1 = gamepad_or_empty(apply_keys(e, ks.take(1)).gamepad);
    lemma_apply_take(e, ks, 1);
    lemma_gamepad_key(apply_keys(e, ks.take(1)), DPAD_RIGHT, ks[1].1);
    let g2 = gamepad_or_empty(apply_keys(e, ks.take(2)).gamepad);
    lemma_apply_take(e, ks, 2);
    lemma_gamepad_key(apply_keys(e, ks.take(2)), (JOY_BTN1 + 9) as u16, ks[2].1);
    lemma_button_bit(g2, 9, ks[2].1);
    let g3 = gamepad_or_empty(apply_keys(e, ks.take(3)).gamepad);
    lemma_apply_take(e, ks, 3);
    lemma_gamepad_key(apply_keys(e, ks.take(3)), (JOY_BTN1 + 0) as u16, ks[3].1);
    lemma_button_bit(g3, 0, ks[3].1);
    let g4 = gamepad_or_empty(apply_keys(e, ks.take(4)).gamepad);
    lemma_apply_take(e, ks, 4);
    lemma_gamepad_key(apply_keys(e, ks.take(4)), (JOY_BTN1 + 2) as u16, ks[4].1);
    lemma_button_bit(g4, 2, ks[4].1);
    gamepad_or_empty(apply_keys(e, ks.take(5)).gamepad)
}

proof fn lemma_second_half(s: InputSnapshot, g: GamepadReport)
    requires
        apply_keys(empty_reports(), bindings(s, default_keymap()).take(5)) == gamepad_only(g),
    ensures
        apply_keys(empty_reports(), bindings(s, default_keymap())) == gamepad_only(
            GamepadReport {
                buttons: g.buttons | bit(s.buttons.button1, 0x40) | bit(s.buttons.button2, 0x10)
                    | bit(s.buttons.button3, 0x20) | bit(s.buttons.button4, 0x80) | bit(
                    s.buttons.fx2,
                    0x2,
                ),
                hat: if s.buttons.fx1 {
                    hat_next(HatDirection::Down, g.hat as int) as u8
                } else {
                    g.hat
                },
            },
        ),
{
    let ks = bindings(s, default_keymap());
    let e = empty_reports();
    assert(1u16 << 6u16 == 0x40) by (bit_vector);
    assert(1u16 << 4u16 == 0x10) by (bit_vector);
    assert(1u16 << 5u16 == 0x20) by (bit_vector);
    assert(1u16 << 7u16 == 0x80) by (bit_vector);
    assert(1u16 << 1u16 == 0x2) by (bit_vector);
    lemma_apply_take(e, ks, 5);
    lemma_gamepad_key(apply_keys(e, ks.take(5)), (JOY_BTN1 + 6) as u16, ks[5].1);
    lemma_button_bit(g, 6, ks[5].1);
    let g6 = gamepad_or_empty(apply_keys(e, ks.take(6)).gamepad);
    lemma_apply_take(e, ks, 6);
    lemma_gamepad_key(apply_keys(e, ks.take(6)), (JOY_BTN1 + 4) as u16, ks[6].1);
    lemma_button_bit(g6, 4, ks[6].1);
    let g7 = gamepad_or_empty(apply_keys(e, ks.take(7)).gamepad);
    lemma_apply_take(e, ks, 7);
    lemma_gamepad_key(apply_keys(e, ks.take(7)), (JOY_BTN1 + 5) as u16, ks[7].1);
    lemma_button_bit(g7, 5, ks[7].1);
    let g8 = gamepad_or_empty(apply_keys(e, ks.take(8)).gamepad);
    lemma_apply_take(e, ks, 8);
    lemma_gamepad_key(apply_keys(e, ks.take(8)), (JOY_BTN1 + 7) as u16, ks[8].1);
    lemma_button_bit(g8, 7, ks[8].1);
    lemma_apply_take(e, ks, 9);
    lemma_gamepad_key(apply_keys(e, ks.take(9)), DPAD_DOWN, ks[9].1);
    let g10 = gamepad_or_empty(apply_keys(e, ks.take(10)).gamepad);
    lemma_apply_take(e, ks, 10);
    lemma_gamepad_key(apply_keys(e, ks.take(10)), (JOY_BTN1 + 1) as u16, ks[10].1);
    lemma_button_bit(g10, 1, ks[10].1);
    assert(ks.take(11) =~= ks);
}

/// Under the factory keymap the encoder yields exactly the factory gamepad
/// report, and no keyboard or mouse report.
pub proof fn lemma_default_keymap_is_fixed_layout(s: InputSnapshot)
    ensures
        encoded(s, default_keymap()) == gamepad_only(fixed_layout(s)),
{
    let b = s.buttons;
    let g = lemma_first_half(s);
    lemma_second_half(s, g);
    lemma_or_masks(
        b.start,
        s.right_knob == KnobTurn::Left,
        s.right_knob == KnobTurn::Right,
        b.button1,
        b.button2,
        b.button3,
        b.button4,
        b.fx2,
    );
}

proof fn lemma_or_masks(c1: bool, c2: bool, c3: bool, c4: bool, c5: bool, c6: bool, c7: bool, c8: bool)
    ensures
        (((((((0u16 | bit(c1, 0x200)) | bit(c2, 0x1)) | bit(c3, 0x4)) | bit(c4, 0x40)) | bit(
            c5,
            0x10,
        )) | bit(c6, 0x20)) | bit(c7, 0x80)) | bit(c8, 0x2) == bit(c4, 0x40) | bit(c5, 0x10)
            | bit(c6, 0x20) | bit(c7, 0x80) | bit(c8, 0x2) | bit(c1, 0x200) | bit(c2, 0x1) | bit(
            c3,
            0x4,
        ),
{
    let (m1, m2, m3, m4, m5, m6, m7, m8) = (
        bit(c1, 0x200),
        bit(c2, 0x1),
        bit(c3, 0x4),
        bit(c4, 0x40),
        bit(c5, 0x10),
        bit(c6, 0x20),
        bit(c7, 0x80),
        bit(c8, 0x2),
    );
    assert((((((((0u16 | m1) | m2) | m3) | m4) | m5) | m6) | m7) | m8 == m4 | m5 | m6 | m7 | m8 | m1
        | m2 | m3) by (bit_vector);
}

} // verus!
