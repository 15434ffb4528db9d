use controller_input::keymap::{
    get_encoder_keycode, get_keymap_keycode, set_encoder_keycode, set_keymap_keycode, Keycode,
    Keymap, DPAD_LEFT, DPAD_RIGHT, JOY_BTN10, JOY_BTN7,
};
use controller_input::userdata::{read_mode_hotkey, Signature, Userdata, UserdataStore};
use controller_input::via::{KeymapBuffer, ViaCmd, ID_UNHANDLED};

#[test]
fn matrix_get_and_set() {
    let mut map = Keymap::default();
    assert_eq!(get_keymap_keycode(&map, 0, 1), Some(Keycode(JOY_BTN10)));
    assert_eq!(get_keymap_keycode(&map, 1, 0), Some(Keycode(JOY_BTN7)));
    assert_eq!(get_keymap_keycode(&map, 0, 0), None);
    assert_eq!(get_keymap_keycode(&map, 3, 0), None);
    set_keymap_keycode(&mut map, 2, 1, Keycode(0x0004));
    assert_eq!(get_keymap_keycode(&map, 2, 1), Some(Keycode(0x0004)));
    assert_eq!(map.fx2, Keycode(0x0004));
    let before = map;
    set_keymap_keycode(&mut map, 0, 0, Keycode(0x0005));
    assert_eq!(map, before);
}

#[test]
fn encoder_get_and_set() {
    let mut map = Keymap::default();
    assert_eq!(get_encoder_keycode(&map, 1, false), Some(Keycode(DPAD_LEFT)));
    assert_eq!(get_encoder_keycode(&map, 1, true), Some(Keycode(DPAD_RIGHT)));
    assert_eq!(get_encoder_keycode(&map, 3, true), None);
    set_encoder_keycode(&mut map, 2, true, Keycode(0x00D9));
    assert_eq!(map.right_knob_right, Keycode(0x00D9));
    assert_eq!(Keycode::from(7u16), Keycode(7));
    assert_eq!(Keycode::default(), Keycode(0));
}

#[test]
fn keymap_buffer_round_trip() {
    let mut map = Keymap::default();
    map.button3 = Keycode(0x1234);
    let buf = KeymapBuffer::from_keymap(&map);
    assert_eq!(&buf.bytes[0..4], &[0, 0, 0x7E, 0x09]);
    assert_eq!(&buf.bytes[12..14], &[0x12, 0x34]);
    let mut other = Keymap::default();
    buf.apply_keymap(&mut other);
    assert_eq!(other, map);
}

fn cmd(bytes: &[u8]) -> ViaCmd {
    let mut c = ViaCmd { packet: [0; 32] };
    c.packet[..bytes.len()].copy_from_slice(bytes);
    c
}

#[test]
fn via_protocol_and_keycodes() {
    let mut data = Userdata::default();
    let idle = Default::default();
    let mut c = cmd(&[0x01]);
    c.read_via_cmd(&mut data, 0, &idle);
    assert_eq!(&c.packet[..3], &[0x01, 0x00, 0x0C]);

    let mut c = cmd(&[0x05, 0, 1, 2, 0x00, 0x04]);
    let e = c.read_via_cmd(&mut data, 0, &idle);
    assert!(e.save && e.changed);
    assert_eq!(data.keymap.button3, Keycode(0x0004));

    let mut c = cmd(&[0x04, 0, 1, 2]);
    c.read_via_cmd(&mut data, 0, &idle);
    assert_eq!(&c.packet[4..6], &[0x00, 0x04]);

    let mut c = cmd(&[0x06]);
    let e = c.read_via_cmd(&mut data, 0, &idle);
    assert!(e.changed && !e.save);
    assert_eq!(data.keymap, Keymap::default());

    let mut c = cmd(&[0x15, 0, 1, 1, 0x7E, 0x00]);
    c.read_via_cmd(&mut data, 0, &idle);
    assert_eq!(data.keymap.left_knob_right, Keycode(0x7E00));
    let mut c = cmd(&[0x14, 0, 1, 1]);
    c.read_via_cmd(&mut data, 0, &idle);
    assert_eq!(&c.packet[4..6], &[0x7E, 0x00]);

    let mut c = cmd(&[0x42]);
    c.read_via_cmd(&mut data, 0, &idle);
    assert_eq!(c.packet[0], ID_UNHANDLED);
}

#[test]
fn via_keymap_buffer_commands() {
    let mut data = Userdata::default();
    let idle = Default::default();
    let mut c = cmd(&[0x12, 0x00, 0x02, 4]);
    c.read_via_cmd(&mut data, 0, &idle);
    assert_eq!(&c.packet[4..8], &[0x7E, 0x09, 0, 0]);

    let mut c = cmd(&[0x13, 0x00, 0x08, 2, 0x00, 0x1D]);
    let e = c.read_via_cmd(&mut data, 0, &idle);
    assert!(e.changed);
    assert_eq!(data.keymap.button1, Keycode(0x001D));

    // Out of the buffer: refused, keymap untouched.
    let mut c = cmd(&[0x13, 0x00, 0x16, 4, 1, 2, 3, 4]);
    c.read_via_cmd(&mut data, 0, &idle);
    assert_eq!(c.packet[0], ID_UNHANDLED);
    assert_eq!(data.keymap.button1, Keycode(0x001D));
}

#[test]
fn via_custom_and_keyboard_values() {
    let mut data = Userdata::default();
    let pressed = controller_input::reader::ButtonInputRead {
        button1: true,
        button4: true,
        fx2: true,
        start: true,
        ..Default::default()
    };
    let mut c = cmd(&[0x02, 0x01]);
    c.read_via_cmd(&mut data, 0x0102_0304, &pressed);
    assert_eq!(&c.packet[2..6], &[1, 2, 3, 4]);

    let mut c = cmd(&[0x02, 0x03, 0]);
    c.read_via_cmd(&mut data, 0, &pressed);
    assert_eq!(&c.packet[3..6], &[0b10, 0b1001, 0b10]);
    let mut c = cmd(&[0x02, 0x03, 2]);
    c.read_via_cmd(&mut data, 0, &pressed);
    assert_eq!(&c.packet[3..6], &[0b10, 0, 0]);

    let mut c = cmd(&[0x08, 0, 0x03]);
    c.read_via_cmd(&mut data, 0, &pressed);
    assert_eq!(c.packet[3], 1);
    let mut c = cmd(&[0x08, 1, 0x03]);
    c.read_via_cmd(&mut data, 0, &pressed);
    assert_eq!(c.packet[0], ID_UNHANDLED);

    let mut c = cmd(&[0x07, 0, 0x03]);
    let e = c.read_via_cmd(&mut data, 0, &pressed);
    assert!(data.eac_mode && e.save && e.reboot);
    let mut c = cmd(&[0x07, 0, 0x02]);
    let e = c.read_via_cmd(&mut data, 0, &pressed);
    assert!(e.reboot_bootsel && !e.save);
    let mut c = cmd(&[0x09, 0]);
    assert!(c.read_via_cmd(&mut data, 0, &pressed).save);
}

#[test]
fn mode_hotkey() {
    let mut data = Userdata::default();
    assert!(data.signature.is_current());
    assert!(!Signature(0).is_current());
    assert!(!read_mode_hotkey(false, true, false, &mut data));
    assert!(read_mode_hotkey(true, true, false, &mut data));
    assert!(data.eac_mode);
    assert!(!read_mode_hotkey(true, true, false, &mut data));
    assert!(read_mode_hotkey(true, false, true, &mut data));
    assert!(!data.eac_mode);
}

#[test]
fn store_versions_and_save_requests() {
    let mut store = UserdataStore::new(Userdata::default());
    let v0 = store.version();
    assert!(!store.changed_since(v0));
    assert_eq!(store.get(|d| d.keymap.start), Keycode(JOY_BTN10));
    store.update(|mut d| {
        d.keymap.start = Keycode(0x0004);
        d
    });
    assert!(store.changed_since(v0));
    assert_eq!(store.get(|d| d.keymap.start), Keycode(0x0004));
    assert!(!store.take_save_request());
    store.save();
    assert!(store.take_save_request());
    assert!(!store.take_save_request());
}
