use vstd::prelude::*;

verus! {

/// A 16-bit keycode in the QMK numbering.
#[derive(Clone, Copy, Debug, PartialEq, Eq, Hash, Structural)]
pub struct Keycode(pub u16);

impl Keycode {
    pub const KC_NO: u16 = 0x0000;
    pub const KC_A: u16 = 0x0004;
    pub const KC_EXSEL: u16 = 0x00A4;
    pub const QK_MOUSE_CURSOR_UP: u16 = 0x00CD;
    pub const QK_MOUSE_CURSOR_DOWN: u16 = 0x00CE;
    pub const QK_MOUSE_CURSOR_LEFT: u16 = 0x00CF;
    pub const QK_MOUSE_CURSOR_RIGHT: u16 = 0x00D0;
    pub const QK_MOUSE_BUTTON_1: u16 = 0x00D1;
    pub const QK_MOUSE_BUTTON_8: u16 = 0x00D8;
    pub const QK_MOUSE_WHEEL_UP: u16 = 0x00D9;
    pub const QK_MOUSE_WHEEL_DOWN: u16 = 0x00DA;
    pub const QK_MOUSE_WHEEL_LEFT: u16 = 0x00DB;
    pub const QK_MOUSE_WHEEL_RIGHT: u16 = 0x00DC;
    pub const QK_MOUSE_ACCELERATION_2: u16 = 0x00DF;
    pub const KC_LEFT_CTRL: u16 = 0x00E0;
    pub const KC_RIGHT_GUI: u16 = 0x00E7;
    pub const RANGE_QK_BASIC_START: u16 = 0x0000;
    pub const RANGE_QK_BASIC_END: u16 = 0x00FF;
}

impl From<u16> for Keycode {
    fn from(value: u16) -> (r: Self)
        ensures
            r == Keycode(value),
    {
        Keycode(value)
    }
}

impl vstd::std_specs::convert::FromSpecImpl<u16> for Keycode {
    open spec fn obeys_from_spec() -> bool {
        true
    }

    open spec fn from_spec(v: u16) -> Keycode {
        Keycode(v)
    }
}

impl Default for Keycode {
    fn default() -> (r: Self)
        ensures
            r == Keycode(Keycode::KC_NO),
    {
        Keycode(Keycode::KC_NO)
    }
}

/// Gamepad button 1; buttons 2 to 16 follow in order.
pub const JOY_BTN1: u16 = 0x7E00;
pub const JOY_BTN2: u16 = 0x7E01;
pub const JOY_BTN3: u16 = 0x7E02;
pub const JOY_BTN5: u16 = 0x7E04;
pub const JOY_BTN6: u16 = 0x7E05;
pub const JOY_BTN7: u16 = 0x7E06;
pub const JOY_BTN8: u16 = 0x7E07;
pub const JOY_BTN10: u16 = 0x7E09;
pub const JOY_BTN16: u16 = 0x7E0F;
pub const DPAD_UP: u16 = 0x7E10;
pub const DPAD_LEFT: u16 = 0x7E11;
pub const DPAD_DOWN: u16 = 0x7E12;
pub const DPAD_RIGHT: u16 = 0x7E13;

/// The binding of every control of the controller to a keycode.
#[derive(Clone, Copy, Debug, PartialEq, Eq, Structural)]
pub struct Keymap {
    pub left_knob_left: Keycode,
    pub left_knob_right: Keycode,
    pub start: Keycode,
    pub right_knob_left: Keycode,
    pub right_knob_right: Keycode,
    pub button1: Keycode,
    pub button2: Keycode,
    pub button3: Keycode,
    pub button4: Keycode,
    pub fx1: Keycode,
    pub fx2: Keycode,
}

/// The factory bindings: a gamepad whose left knob and FX-L drive the hat.
pub open spec fn default_keymap() -> Keymap {
    Keymap {
        left_knob_left: Keycode(DPAD_LEFT),
        left_knob_right: Keycode(DPAD_RIGHT),
        start: Keycode(JOY_BTN10),
        right_knob_left: Keycode(JOY_BTN1),
        right_knob_right: Keycode(JOY_BTN3),
        button1: Keycode(JOY_BTN7),
        button2: Keycode(JOY_BTN5),
        button3: Keycode(JOY_BTN6),
        button4: Keycode(JOY_BTN8),
        fx1: Keycode(DPAD_DOWN),
        fx2: Keycode(JOY_BTN2),
    }
}

impl Default for Keymap {
    fn default() -> (r: Self)
        ensures
            r == default_keymap(),
    {
        Keymap {
            left_knob_left: Keycode(DPAD_LEFT),
            left_knob_right: Keycode(DPAD_RIGHT),
            start: Keycode(JOY_BTN10),
            right_knob_left: Keycode(JOY_BTN1),
            right_knob_right: Keycode(JOY_BTN3),
            button1: Keycode(JOY_BTN7),
            button2: Keycode(JOY_BTN5),
            button3: Keycode(JOY_BTN6),
            button4: Keycode(JOY_BTN8),
            fx1: Keycode(DPAD_DOWN),
            fx2: Keycode(JOY_BTN2),
        }
    }
}

/// The binding at a (row, col) position of the configuration matrix:
/// start at (0, 1), the four buttons at (1, 0..=3), the FX buttons at (2, 0..=1).
pub open spec fn matrix_slot(map: Keymap, row: u8, col: u8) -> Option<Keycode> {
    if row == 0 && col == 1 {
        Some(map.start)
    } else if row == 1 && col == 0 {
        Some(map.button1)
    } else if row == 1 && col == 1 {
        Some(map.button2)
    } else if row == 1 && col == 2 {
        Some(map.button3)
    } else if row == 1 && col == 3 {
        Some(map.button4)
    } else if row == 2 && col == 0 {
        Some(map.fx1)
    } else if row == 2 && col == 1 {
        Some(map.fx2)
    } else {
        None
    }
}

/// `map` with the binding at (row, col) replaced; unchanged where there is none.
pub open spec fn matrix_with(map: Keymap, row: u8, col: u8, code: Keycode) -> Keymap {
    if row == 0 && col == 1 {
        Keymap { start: code, ..map }
    } else if row == 1 && col == 0 {
        Keymap { button1: code, ..map }
    } else if row == 1 && col == 1 {
        Keymap { button2: code, ..map }
    } else if row == 1 && col == 2 {
        Keymap { button3: code, ..map }
    } else if row == 1 && col == 3 {
        Keymap { button4: code, ..map }
    } else if row == 2 && col == 0 {
        Keymap { fx1: code, ..map }
    } else if row == 2 && col == 1 {
        Keymap { fx2: code, ..map }
    } else {
        map
    }
}

/// The binding of a knob direction: knob 1 is the left knob, knob 2 the
/// right one; `clockwise` selects the right turn.
pub open spec fn encoder_slot(map: Keymap, id: u8, clockwise: bool) -> Option<Keycode> {
    if id == 1 && !clockwise {
        Some(map.left_knob_left)
    } else if id == 1 && clockwise {
        Some(map.left_knob_right)
    } else if id == 2 && !clockwise {
        Some(map.right_knob_left)
    } else if id == 2 && clockwise {
        Some(map.right_knob_right)
    } else {
        None
    }
}

/// `map` with the binding of a knob direction replaced; unchanged where
/// there is none.
pub open spec fn encoder_with(map: Keymap, id: u8, clockwise: bool, code: Keycode) -> Keymap {
    if id == 1 && !clockwise {
        Keymap { left_knob_left: code, ..map }
    } else if id == 1 && clockwise {
        Keymap { left_knob_right: code, ..map }
    } else if id == 2 && !clockwise {
        Keymap { right_knob_left: code, ..map }
    } else if id == 2 && clockwise {
        Keymap { right_knob_right: code, ..map }
    } else {
        map
    }
}

/// Gets the key at a (row, col) position of the configuration matrix.
pub fn get_keymap_keycode(map: &Keymap, row: u8, col: u8) -> (r: Option<Keycode>)
    ensures
        r == matrix_slot(*map, row, col),
{
    match (row, col) {
        (0, 1) => Some(map.start),
        (1, 0) => Some(map.button1),
        (1, 1) => Some(map.button2),
        (1, 2) => Some(map.button3),
        (1, 3) => Some(map.button4),
        (2, 0) => Some(map.fx1),
        (2, 1) => Some(map.fx2),
        _ => None,
    }
}

/// Sets the key at a (row, col) position of the configuration matrix.
pub fn set_keymap_keycode(map: &mut Keymap, row: u8, col: u8, code: Keycode)
    ensures
        *final(map) == matrix_with(*old(map), row, col, code),
{
    match (row, col) {
        (0, 1) => {
            map.start = code;
        },
        (1, 0) => {
            map.button1 = code;
        },
        (1, 1) => {
            map.button2 = code;
        },
        (1, 2) => {
            map.button3 = code;
        },
        (1, 3) => {
            map.button4 = code;
        },
        (2, 0) => {
            map.fx1 = code;
        },
        (2, 1) => {
            map.fx2 = code;
        },
        _ => {},
    }
}

/// Gets the key bound to a knob direction.
pub fn get_encoder_keycode(map: &Keymap, id: u8, clockwise: bool) -> (r: Option<Keycode>)
    ensures
        r == encoder_slot(*map, id, clockwise),
{
    match (id, clockwise) {
        (1, false) => Some(map.left_knob_left),
        (1, true) => Some(map.left_knob_right),
        (2, false) => Some(map.right_knob_left),
        (2, true) => Some(map.right_knob_right),
        _ => None,
    }
}

/// Sets the key bound to a knob direction.
pub fn set_encoder_keycode(map: &mut Keymap, id: u8, clockwise: bool, code: Keycode)
    ensures
        *final(map) == encoder_with(*old(map), id, clockwise, code),
{
    match (id, clockwise) {
        (1, false) => {
            map.left_knob_left = code;
        },
        (1, true) => {
            map.left_knob_right = code;
        },
        (2, false) => {
            map.right_knob_left = code;
        },
        (2, true) => {
            map.right_knob_right = code;
        },
        _ => {},
    }
}

/// Setting a matrix key and reading it back gives the key set, and leaves
/// every other position as it was.
pub proof fn lemma_matrix_set_get(map: Keymap, row: u8, col: u8, code: Keycode, r2: u8, c2: u8)
    ensures
        matrix_slot(map, row, col) is Some ==> matrix_slot(matrix_with(map, row, col, code), row, col)
            == Some(code),
        matrix_slot(map, row, col) is None ==> matrix_with(map, row, col, code) == map,
        !(r2 == row && c2 == col) ==> matrix_slot(matrix_with(map, row, col, code), r2, c2)
            == matrix_slot(map, r2, c2),
{
}

/// Setting a knob binding and reading it back gives the key set, and leaves
/// every other binding as it was.
pub proof fn lemma_encoder_set_get(
    map: Keymap,
    id: u8,
    clockwise: bool,
    code: Keycode,
    id2: u8,
    cw2: bool,
)
    ensures
        encoder_slot(map, id, clockwise) is Some ==> encoder_slot(
            encoder_with(map, id, clockwise, code),
            id,
            clockwise,
        ) == Some(code),
        encoder_slot(map, id, clockwise) is None ==> encoder_with(map, id, clockwise, code) == map,
        !(id2 == id && cw2 == clockwise) ==> encoder_slot(
            encoder_with(map, id, clockwise, code),
            id2,
            cw2,
        ) == encoder_slot(map, id2, cw2),
{
}

} // verus!
