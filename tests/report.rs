use controller_input::encoder::{encode, input_report, InputReports};
use controller_input::keymap::{Keycode, Keymap, DPAD_DOWN, DPAD_LEFT, DPAD_RIGHT, DPAD_UP, JOY_BTN1};
use controller_input::knob::KnobTurn;
use controller_input::reader::{ButtonInputRead, InputSnapshot};
use controller_input::report::{GamepadInputBuilder, HatDirection, KeyboardInputBuilder, MouseInputBuilder};

fn hat_after(start: &[HatDirection]) -> u8 {
    let mut g = GamepadInputBuilder::default();
    for &d in start {
        g.dpad(d);
    }
    g.build().hat
}

#[test]
fn hat_single_directions() {
    assert_eq!(hat_after(&[]), 0);
    assert_eq!(hat_after(&[HatDirection::Up]), 1);
    assert_eq!(hat_after(&[HatDirection::Right]), 3);
    assert_eq!(hat_after(&[HatDirection::Down]), 5);
    assert_eq!(hat_after(&[HatDirection::Left]), 7);
}

#[test]
fn hat_diagonals_and_conflicts() {
    assert_eq!(hat_after(&[HatDirection::Up, HatDirection::Left]), 8);
    assert_eq!(hat_after(&[HatDirection::Up, HatDirection::Right]), 2);
    assert_eq!(hat_after(&[HatDirection::Down, HatDirection::Left]), 6);
    assert_eq!(hat_after(&[HatDirection::Down, HatDirection::Right]), 4);
    assert_eq!(hat_after(&[HatDirection::Left, HatDirection::Up]), 8);
    assert_eq!(hat_after(&[HatDirection::Right, HatDirection::Down]), 4);
    assert_eq!(hat_after(&[HatDirection::Up, HatDirection::Down]), 0);
    assert_eq!(hat_after(&[HatDirection::Left, HatDirection::Right]), 0);
}

#[test]
fn hat_same_direction_twice_is_idempotent() {
    for first in [HatDirection::Up, HatDirection::Down, HatDirection::Left, HatDirection::Right] {
        for d in [HatDirection::Up, HatDirection::Down, HatDirection::Left, HatDirection::Right] {
            let once = hat_after(&[first, d]);
            let twice = hat_after(&[first, d, d]);
            if once != 0 {
                assert_eq!(once, twice);
            }
        }
    }
    let mut g = GamepadInputBuilder::default();
    g.dpad_up();
    g.dpad_up();
    assert_eq!(g.build().hat, 1);
}

#[test]
fn gamepad_buttons() {
    let mut g = GamepadInputBuilder::default();
    g.button(0);
    g.button(15);
    g.dpad_left();
    g.dpad_down();
    let r = g.build();
    assert_eq!(r.buttons, 0x8001);
    assert_eq!(r.hat, 6);
}

#[test]
fn mouse_builder_steps_and_saturates() {
    let mut m = MouseInputBuilder::default();
    m.cursor_up();
    m.cursor_right();
    m.cursor_right();
    m.wheel_up();
    m.wheel_left();
    m.button(2);
    let r = m.build();
    assert_eq!((r.x, r.y, r.wheel, r.pan, r.buttons), (6, -3, 1, 1, 4));
    let mut m = MouseInputBuilder::default();
    for _ in 0..50 {
        m.cursor_down();
        m.cursor_left();
        m.wheel_down();
        m.wheel_right();
    }
    let r = m.build();
    assert_eq!((r.x, r.y, r.wheel, r.pan), (-128, 127, -50, -50));
}

#[test]
fn keyboard_builder_drops_seventh_key() {
    let mut k = KeyboardInputBuilder::default();
    for code in 4u8..11 {
        k.key(code);
    }
    k.modifier(1);
    let r = k.build();
    assert_eq!(r.keycodes, [4, 5, 6, 7, 8, 9]);
    assert_eq!(r.modifier, 2);
}

#[test]
fn dispatch_by_range() {
    let mut reports = InputReports::default();
    reports.key(Keycode(Keycode::KC_A), true);
    reports.key(Keycode(Keycode::KC_LEFT_CTRL + 2), true);
    reports.key(Keycode(Keycode::QK_MOUSE_WHEEL_UP), true);
    reports.key(Keycode(Keycode::QK_MOUSE_BUTTON_1 + 1), true);
    reports.key(Keycode(JOY_BTN1 + 3), true);
    reports.key(Keycode(DPAD_UP), true);
    reports.key(Keycode(DPAD_RIGHT), true);
    // Unrecognised codes are ignored.
    reports.key(Keycode(0x5000), true);
    let out = reports.finish();
    let k = out.keyboard.unwrap();
    assert_eq!(k.keycodes, [0x04, 0, 0, 0, 0, 0]);
    assert_eq!(k.modifier, 0b100);
    let m = out.mouse.unwrap();
    assert_eq!((m.wheel, m.buttons), (1, 0b10));
    let g = out.gamepad.unwrap();
    assert_eq!((g.buttons, g.hat), (0b1000, 2));
}

#[test]
fn untouched_classes_produce_nothing() {
    let mut reports = InputReports::default();
    reports.key(Keycode(0x5000), true);
    let out = reports.finish();
    assert!(out.gamepad.is_none() && out.keyboard.is_none() && out.mouse.is_none());
}

#[test]
fn released_control_still_brings_its_report() {
    let mut reports = InputReports::default();
    reports.key(Keycode(Keycode::KC_A), false);
    let out = reports.finish();
    let k = out.keyboard.unwrap();
    assert_eq!(k.keycodes, [0; 6]);
    assert!(out.gamepad.is_none() && out.mouse.is_none());
}

fn snapshot(buttons: [bool; 7], left: KnobTurn, right: KnobTurn) -> InputSnapshot {
    InputSnapshot {
        buttons: ButtonInputRead {
            button1: buttons[0],
            button2: buttons[1],
            button3: buttons[2],
            button4: buttons[3],
            fx1: buttons[4],
            fx2: buttons[5],
            start: buttons[6],
        },
        left_knob: left,
        right_knob: right,
    }
}

#[test]
fn default_keymap_matches_fixed_layout() {
    let turns = [KnobTurn::Idle, KnobTurn::Left, KnobTurn::Right];
    for mask in 0u32..128 {
        for &l in &turns {
            for &r in &turns {
                let mut b = [false; 7];
                for (i, v) in b.iter_mut().enumerate() {
                    *v = mask & (1 << i) != 0;
                }
                let s = snapshot(b, l, r);
                let out = encode(&s, &Keymap::default()).finish();
                assert_eq!(out.gamepad, Some(input_report(&s)));
                assert!(out.keyboard.is_none() && out.mouse.is_none());
            }
        }
    }
}

#[test]
fn fixed_layout_values() {
    let s = snapshot([true, false, false, false, true, false, true], KnobTurn::Left, KnobTurn::Right);
    let r = input_report(&s);
    assert_eq!(r.buttons, 0x40 | 0x200 | 0x4);
    assert_eq!(r.hat, 6);
    let s = snapshot([false; 7], KnobTurn::Right, KnobTurn::Left);
    let r = input_report(&s);
    assert_eq!((r.buttons, r.hat), (0x1, 3));
}

#[test]
fn encode_with_custom_keymap() {
    let mut map = Keymap::default();
    map.button1 = Keycode(Keycode::KC_A);
    map.left_knob_left = Keycode(Keycode::QK_MOUSE_CURSOR_LEFT);
    map.fx1 = Keycode(DPAD_DOWN);
    map.left_knob_right = Keycode(DPAD_LEFT);
    let s = snapshot([true, false, false, false, true, false, false], KnobTurn::Left, KnobTurn::Idle);
    let out = encode(&s, &map).finish();
    assert_eq!(out.keyboard.unwrap().keycodes[0], 0x04);
    assert_eq!(out.mouse.unwrap().x, -3);
    assert_eq!(out.gamepad.unwrap().hat, 5);
}
