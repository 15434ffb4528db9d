use vstd::prelude::*;
use crate::keymap::{
    default_keymap, encoder_slot, encoder_with, get_encoder_keycode, get_keymap_keycode,
    matrix_slot, matrix_with, set_encoder_keycode, set_keymap_keycode, Keycode, Keymap,
};
use crate::reader::ButtonInputRead;
use crate::userdata::Userdata;

verus! {

/// Bytes of the dynamic keymap buffer: a 3 x 4 matrix of big-endian keycodes.
pub const KEYMAP_BUFFER_LEN: usize = 24;

/// Bytes of one configuration packet.
pub const VIA_PACKET_LEN: usize = 32;

/// The big-endian 16-bit word made of two bytes.
pub open spec fn be_word(hi: u8, lo: u8) -> u16 {
    (hi as int * 256 + lo as int) as u16
}

/// The `i`-th big-endian word of a byte sequence.
pub open spec fn word_at(b: Seq<u8>, i: int) -> u16 {
    be_word(b[2 * i], b[2 * i + 1])
}

fn high_byte(v: u16) -> (r: u8)
    ensures
        r == v / 256,
{
    (v / 256) as u8
}

fn low_byte(v: u16) -> (r: u8)
    ensures
        r == v % 256,
{
    (v % 256) as u8
}

/// The keymap laid out as the configuration tool's keymap buffer: the word
/// at matrix position (row, col) is word `4 * row + col`; positions without
/// a control hold zero.
pub struct KeymapBuffer {
    pub bytes: [u8; KEYMAP_BUFFER_LEN],
}

/// The keycode word that the buffer of `map` holds at word index `i`.
pub open spec fn buffer_word(map: Keymap, i: int) -> u16 {
    match matrix_slot(map, (i / 4) as u8, (i % 4) as u8) {
        Some(k) => k.0,
        None => 0,
    }
}

/// The bytes of the buffer image of `map`.
pub open spec fn keymap_bytes(map: Keymap) -> Seq<u8> {
    Seq::new(
        KEYMAP_BUFFER_LEN as nat,
        |i: int|
            if i % 2 == 0 {
                (buffer_word(map, i / 2) / 256) as u8
            } else {
                (buffer_word(map, i / 2) % 256) as u8
            },
    )
}

/// `map` with its matrix controls read from the words of a buffer image.
pub open spec fn keymap_from_words(map: Keymap, b: Seq<u8>) -> Keymap {
    Keymap {
        start: Keycode(word_at(b, 1)),
        button1: Keycode(word_at(b, 4)),
        button2: Keycode(word_at(b, 5)),
        button3: Keycode(word_at(b, 6)),
        button4: Keycode(word_at(b, 7)),
        fx1: Keycode(word_at(b, 8)),
        fx2: Keycode(word_at(b, 9)),
        ..map
    }
}

impl KeymapBuffer {
    /// The buffer image of a keymap.
    pub fn from_keymap(keymap: &Keymap) -> (r: Self)
        ensures
            r.bytes@ == keymap_bytes(*keymap),
            forall|i: int| 0 <= i < 12 ==> #[trigger] word_at(r.bytes@, i) == buffer_word(*keymap, i),
    {
        let mut bytes = [0u8; KEYMAP_BUFFER_LEN];
        let words: [u16; 12] = [
            0,
            keymap.start.0,
            0,
            0,
            keymap.button1.0,
            keymap.button2.0,
            keymap.button3.0,
            keymap.button4.0,
            keymap.fx1.0,
            keymap.fx2.0,
            0,
            0,
        ];
        assert(forall|i: int| 0 <= i < 12 ==> #[trigger] words@[i] == buffer_word(*keymap, i));
        let mut i: usize = 0;
        while i < 12
            invariant
                i <= 12,
                forall|j: int| 0 <= j < 12 ==> #[trigger] words@[j] == buffer_word(*keymap, j),
                forall|j: int| 0 <= j < i ==> #[trigger] word_at(bytes@, j) == words@[j],
            forall|j: int| 0 <= j < 2 * i ==> #[trigger] bytes@[j] == keymap_bytes(*keymap)[j],
            decreases 12 - i,
        {
            let ghost prev = bytes@;
            bytes[2 * i] = high_byte(words[i]);
            bytes[2 * i + 1] = low_byte(words[i]);
            assert forall|j: int| 0 <= j < i implies #[trigger] word_at(bytes@, j) == word_at(
                prev,
                j,
            ) by {
                assert(bytes@[2 * j] == prev[2 * j]);
                assert(bytes@[2 * j + 1] == prev[2 * j + 1]);
            }
            assert(word_at(bytes@, i as int) == words@[i as int]);
            assert(bytes@[2 * i] == keymap_bytes(*keymap)[2 * i]);
            assert(bytes@[2 * i + 1] == keymap_bytes(*keymap)[2 * i + 1]);
            i = i + 1;
        }
        assert(bytes@ =~= keymap_bytes(*keymap));
        KeymapBuffer { bytes }
    }

    /// Writes the buffer's words back into the keymap's matrix controls.
    pub fn apply_keymap(&self, map: &mut Keymap)
        ensures
            *final(map) == keymap_from_words(*old(map), self.bytes@),
    {
        map.start = Keycode::from(self.word(1));
        map.button1 = Keycode::from(self.word(4));
        map.button2 = Keycode::from(self.word(5));
        map.button3 = Keycode::from(self.word(6));
        map.button4 = Keycode::from(self.word(7));
        map.fx1 = Keycode::from(self.word(8));
        map.fx2 = Keycode::from(self.word(9));
    }

    fn word(&self, i: usize) -> (r: u16)
        requires
            i < 12,
        ensures
            r == word_at(self.bytes@, i as int),
    {
        (self.bytes[2 * i] as u16) * 256 + self.bytes[2 * i + 1] as u16
    }
}

/// Writing a keymap into the buffer and reading it back gives the keymap.
pub proof fn lemma_buffer_round_trip(map: Keymap)
    ensures
        keymap_from_words(map, keymap_bytes(map)) == map,
{
    let b = keymap_bytes(map);
    assert forall|i: int| 0 <= i < 12 implies #[trigger] word_at(b, i) == buffer_word(map, i) by {
        let w = buffer_word(map, i);
        assert(b[2 * i] == (w / 256) as u8);
        assert((2 * i + 1) / 2 == i);
        assert(b[2 * i + 1] == (w % 256) as u8);
    }
    assert(word_at(b, 1) == buffer_word(map, 1));
    assert(word_at(b, 4) == buffer_word(map, 4));
    assert(word_at(b, 5) == buffer_word(map, 5));
    assert(word_at(b, 6) == buffer_word(map, 6));
    assert(word_at(b, 7) == buffer_word(map, 7));
    assert(word_at(b, 8) == buffer_word(map, 8));
    assert(word_at(b, 9) == buffer_word(map, 9));
}

/// Protocol version reported to the configuration tool.
pub const VIA_PROTOCOL_VERSION: u16 = 0x000C;

/// Firmware version reported to the configuration tool.
pub const VIA_FIRMWARE_VERSION: u32 = 0;

pub const ID_GET_PROTOCOL_VERSION: u8 = 0x01;
pub const ID_GET_KEYBOARD_VALUE: u8 = 0x02;
pub const ID_DYNAMIC_KEYMAP_GET_KEYCODE: u8 = 0x04;
pub const ID_DYNAMIC_KEYMAP_SET_KEYCODE: u8 = 0x05;
pub const ID_DYNAMIC_KEYMAP_RESET: u8 = 0x06;
pub const ID_CUSTOM_SET_VALUE: u8 = 0x07;
pub const ID_CUSTOM_GET_VALUE: u8 = 0x08;
pub const ID_CUSTOM_SAVE: u8 = 0x09;
pub const ID_DYNAMIC_KEYMAP_MACRO_GET_COUNT: u8 = 0x0C;
pub const ID_DYNAMIC_KEYMAP_MACRO_GET_BUFFER_SIZE: u8 = 0x0D;
pub const ID_DYNAMIC_KEYMAP_GET_LAYER_COUNT: u8 = 0x11;
pub const ID_DYNAMIC_KEYMAP_GET_BUFFER: u8 = 0x12;
pub const ID_DYNAMIC_KEYMAP_SET_BUFFER: u8 = 0x13;
pub const ID_DYNAMIC_KEYMAP_GET_ENCODER: u8 = 0x14;
pub const ID_DYNAMIC_KEYMAP_SET_ENCODER: u8 = 0x15;
/// Written over the command id of a request that was not handled.
pub const ID_UNHANDLED: u8 = 0xFF;

/// Custom value: reboot into the bootloader.
pub const VALUE_REBOOT_BOOTSEL: u8 = 0x02;
/// Custom value: switch to EAC mode.
pub const VALUE_EAC_MODE: u8 = 0x03;

pub const KEYBOARD_VALUE_UPTIME: u8 = 0x01;
pub const KEYBOARD_VALUE_SWITCH_MATRIX_STATE: u8 = 0x03;
pub const KEYBOARD_VALUE_FIRMWARE_VERSION: u8 = 0x04;
pub const KEYBOARD_VALUE_DEVICE_INDICATION: u8 = 0x05;

/// What a handled request asks of the rest of the firmware.
#[derive(Clone, Copy, Debug, PartialEq, Eq, Structural)]
pub struct ViaEffects {
    /// The user data changed: readers of the keymap are to be notified.
    pub changed: bool,
    /// The user data is to be written to flash.
    pub save: bool,
    /// Reboot into the USB bootloader.
    pub reboot_bootsel: bool,
    /// Reboot the firmware.
    pub reboot: bool,
}

pub open spec fn effects(changed: bool, save: bool, reboot_bootsel: bool, reboot: bool) -> ViaEffects {
    ViaEffects { changed, save, reboot_bootsel, reboot }
}

pub open spec fn invalid(p: Seq<u8>) -> Seq<u8> {
    p.update(0, ID_UNHANDLED)
}

/// `p` with a big-endian word written at `at`.
pub open spec fn put_word(p: Seq<u8>, at: int, v: u16) -> Seq<u8> {
    p.update(at, (v / 256) as u8).update(at + 1, (v % 256) as u8)
}

/// `p` with a big-endian 32-bit value written at `at`.
pub open spec fn put_u32(p: Seq<u8>, at: int, v: u32) -> Seq<u8> {
    p.update(at, (v / 0x100_0000) as u8).update(at + 1, (v / 0x1_0000 % 256) as u8).update(
        at + 2,
        (v / 256 % 256) as u8,
    ).update(at + 3, (v % 256) as u8)
}

pub open spec fn flag(on: bool, v: int) -> int {
    if on {
        v
    } else {
        0
    }
}

/// The switch matrix as the configuration tool reads it: one byte per row,
/// one bit per column.
pub open spec fn switch_matrix(b: ButtonInputRead) -> Seq<u8> {
    seq![
        flag(b.start, 2) as u8,
        (flag(b.button1, 1) + flag(b.button2, 2) + flag(b.button3, 4) + flag(b.button4, 8)) as u8,
        (flag(b.fx1, 1) + flag(b.fx2, 2)) as u8,
    ]
}

/// The answer to a custom "get value" request.
pub open spec fn custom_get_value(p: Seq<u8>) -> Seq<u8> {
    if p[1] != 0 {
        invalid(p)
    } else if p[2] == VALUE_REBOOT_BOOTSEL || p[2] == VALUE_EAC_MODE {
        p.update(3, 1)
    } else {
        invalid(p)
    }
}

/// The answer to a custom "set value" request, with its effect on the user data.
pub open spec fn custom_set_value(p: Seq<u8>, u: Userdata) -> (Seq<u8>, Userdata, ViaEffects) {
    if p[1] != 0 {
        (invalid(p), u, effects(false, false, false, false))
    } else if p[2] == VALUE_REBOOT_BOOTSEL {
        (p, u, effects(false, false, true, false))
    } else if p[2] == VALUE_EAC_MODE {
        (p, Userdata { eac_mode: true, ..u }, effects(true, true, false, true))
    } else {
        (invalid(p), u, effects(false, false, false, false))
    }
}

/// The answer to a custom "save" request.
pub open spec fn custom_save(p: Seq<u8>) -> (Seq<u8>, ViaEffects) {
    if p[1] != 0 {
        (invalid(p), effects(false, false, false, false))
    } else {
        (p, effects(false, true, false, false))
    }
}

/// The answer to a "get keyboard value" request.
pub open spec fn keyboard_value(p: Seq<u8>, uptime_ms: u32, b: ButtonInputRead) -> Seq<u8> {
    if p[1] == KEYBOARD_VALUE_UPTIME {
        put_u32(p, 2, uptime_ms)
    } else if p[1] == KEYBOARD_VALUE_FIRMWARE_VERSION {
        put_u32(p, 2, VIA_FIRMWARE_VERSION)
    } else if p[1] == KEYBOARD_VALUE_SWITCH_MATRIX_STATE {
        let off = p[2] as int;
        if off <= 3 {
            Seq::new(
                p.len(),
                |i: int|
                    if 3 <= i < 6 - off {
                        switch_matrix(b)[off + i - 3]
                    } else {
                        p[i]
                    },
            )
        } else {
            p
        }
    } else if p[1] == KEYBOARD_VALUE_DEVICE_INDICATION {
        p
    } else {
        invalid(p)
    }
}

/// Whether a keymap buffer request's range lies within the buffer and the packet.
pub open spec fn buffer_range_ok(p: Seq<u8>) -> bool {
    be_word(p[1], p[2]) as int + p[3] as int <= KEYMAP_BUFFER_LEN && p[3] as int + 4
        <= VIA_PACKET_LEN
}

/// The packet answering a keymap buffer read of `map`.
pub open spec fn buffer_read(p: Seq<u8>, map: Keymap) -> Seq<u8> {
    let off = be_word(p[1], p[2]) as int;
    let size = p[3] as int;
    Seq::new(
        p.len(),
        |i: int|
            if 4 <= i < 4 + size {
                keymap_bytes(map)[off + i - 4]
            } else {
                p[i]
            },
    )
}

/// The buffer image of `map` with a keymap buffer write applied.
pub open spec fn buffer_written(p: Seq<u8>, map: Keymap) -> Seq<u8> {
    let off = be_word(p[1], p[2]) as int;
    let size = p[3] as int;
    Seq::new(
        KEYMAP_BUFFER_LEN as nat,
        |i: int|
            if off <= i < off + size {
                p[4 + i - off]
            } else {
                keymap_bytes(map)[i]
            },
    )
}

pub open spec fn key_or_zero(k: Option<Keycode>) -> u16 {
    match k {
        Some(c) => c.0,
        None => 0,
    }
}

/// The answer to one configuration request, the user data after it, and
/// what the firmware is to do about it.
pub open spec fn via_step(p: Seq<u8>, u: Userdata, uptime_ms: u32, b: ButtonInputRead) -> (
    Seq<u8>,
    Userdata,
    ViaEffects,
) {
    let none = effects(false, false, false, false);
    let id = p[0];
    if id == ID_GET_PROTOCOL_VERSION {
        (put_word(p, 1, VIA_PROTOCOL_VERSION), u, none)
    } else if id == ID_GET_KEYBOARD_VALUE {
        (keyboard_value(p, uptime_ms, b), u, none)
    } else if id == ID_DYNAMIC_KEYMAP_GET_KEYCODE {
        (put_word(p, 4, key_or_zero(matrix_slot(u.keymap, p[2], p[3]))), u, none)
    } else if id == ID_DYNAMIC_KEYMAP_SET_KEYCODE {
        (
            p,
            Userdata {
                keymap: matrix_with(u.keymap, p[2], p[3], Keycode(be_word(p[4], p[5]))),
                ..u
            },
            effects(true, true, false, false),
        )
    } else if id == ID_DYNAMIC_KEYMAP_RESET {
        (p, Userdata { keymap: default_keymap(), ..u }, effects(true, false, false, false))
    } else if id == ID_CUSTOM_SET_VALUE {
        custom_set_value(p, u)
    } else if id == ID_CUSTOM_GET_VALUE {
        (custom_get_value(p), u, none)
    } else if id == ID_CUSTOM_SAVE {
        (custom_save(p).0, u, custom_save(p).1)
    } else if id == ID_DYNAMIC_KEYMAP_MACRO_GET_COUNT || id
        == ID_DYNAMIC_KEYMAP_MACRO_GET_BUFFER_SIZE {
        (p.update(1, 0), u, none)
    } else if id == ID_DYNAMIC_KEYMAP_GET_LAYER_COUNT {
        (p.update(1, 1), u, none)
    } else if id == ID_DYNAMIC_KEYMAP_GET_BUFFER {
        if buffer_range_ok(p) {
            (buffer_read(p, u.keymap), u, none)
        } else {
            (invalid(p), u, none)
        }
    } else if id == ID_DYNAMIC_KEYMAP_SET_BUFFER {
        if buffer_range_ok(p) {
            (
                p,
                Userdata { keymap: keymap_from_words(u.keymap, buffer_written(p, u.keymap)), ..u },
                effects(true, false, false, false),
            )
        } else {
            (invalid(p), u, none)
        }
    } else if id == ID_DYNAMIC_KEYMAP_GET_ENCODER {
        (put_word(p, 4, key_or_zero(encoder_slot(u.keymap, p[2], p[3] != 0))), u, none)
    } else if id == ID_DYNAMIC_KEYMAP_SET_ENCODER {
        (
            p,
            Userdata {
                keymap: encoder_with(u.keymap, p[2], p[3] != 0, Keycode(be_word(p[4], p[5]))),
                ..u
            },
            effects(true, false, false, false),
        )
    } else {
        (invalid(p), u, none)
    }
}

/// One request of the configuration protocol, answered in place. Byte 0 is
/// the command id, the rest its arguments.
pub struct ViaCmd {
    pub packet: [u8; VIA_PACKET_LEN],
}

impl ViaCmd {
    /// Marks the request as not handled.
    pub fn set_invalid(&mut self)
        ensures
            final(self).packet@ == invalid(old(self).packet@),
    {
        self.packet[0] = ID_UNHANDLED;
    }

    fn write_word(&mut self, at: usize, v: u16)
        requires
            at + 1 < VIA_PACKET_LEN,
        ensures
            final(self).packet@ == put_word(old(self).packet@, at as int, v),
    {
        self.packet[at] = high_byte(v);
        self.packet[at + 1] = low_byte(v);
    }

    fn write_u32(&mut self, at: usize, v: u32)
        requires
            at + 3 < VIA_PACKET_LEN,
        ensures
            final(self).packet@ == put_u32(old(self).packet@, at as int, v),
    {
        self.packet[at] = (v / 0x100_0000) as u8;
        self.packet[at + 1] = (v / 0x1_0000 % 256) as u8;
        self.packet[at + 2] = (v / 256 % 256) as u8;
        self.packet[at + 3] = (v % 256) as u8;
    }

    /// Answers a custom "get value" request.
    pub fn read_custom_get_value(&mut self)
        ensures
            final(self).packet@ == custom_get_value(old(self).packet@),
    {
        // Only the user-defined channel 0 is served.
        if self.packet[1] != 0 {
            self.set_invalid();
            return;
        }
        let value_id = self.packet[2];
        if value_id == VALUE_REBOOT_BOOTSEL || value_id == VALUE_EAC_MODE {
            self.packet[3] = 1;
        } else {
            self.set_invalid();
        }
    }

    /// Answers a custom "set value" request.
    pub fn read_custom_set_value(&mut self, data: &mut Userdata) -> (r: ViaEffects)
        ensures
            (final(self).packet@, *final(data), r) == custom_set_value(old(self).packet@, *old(data)),
    {
        let none = ViaEffects { changed: false, save: false, reboot_bootsel: false, reboot: false };
        if self.packet[1] != 0 {
            self.set_invalid();
            return none;
        }
        let value_id = self.packet[2];
        if value_id == VALUE_REBOOT_BOOTSEL {
            ViaEffects { reboot_bootsel: true, ..none }
        } else if value_id == VALUE_EAC_MODE {
            data.eac_mode = true;
            ViaEffects { changed: true, save: true, reboot: true, ..none }
        } else {
            self.set_invalid();
            none
        }
    }

    /// Answers a custom "save" request.
    pub fn read_custom_save(&mut self) -> (r: ViaEffects)
        ensures
            (final(self).packet@, r) == custom_save(old(self).packet@),
    {
        let none = ViaEffects { changed: false, save: false, reboot_bootsel: false, reboot: false };
        if self.packet[1] != 0 {
            self.set_invalid();
            return none;
        }
        ViaEffects { save: true, ..none }
    }

    /// Answers a "get keyboard value" request, given the uptime and the
    /// current button levels.
    pub fn read_via_keyboard_value(&mut self, uptime_ms: u32, buttons: &ButtonInputRead)
        ensures
            final(self).packet@ == keyboard_value(old(self).packet@, uptime_ms, *buttons),
    {
        let value_id = self.packet[1];
        if value_id == KEYBOARD_VALUE_UPTIME {
            self.write_u32(2, uptime_ms);
        } else if value_id == KEYBOARD_VALUE_FIRMWARE_VERSION {
            self.write_u32(2, VIA_FIRMWARE_VERSION);
        } else if value_id == KEYBOARD_VALUE_SWITCH_MATRIX_STATE {
            let ghost p = self.packet@;
            let off = self.packet[2] as usize;
            if off <= 3 {
                let b = buttons;
                let matrix: [u8; 3] = [
                    if b.start {
                        2
                    } else {
                        0
                    },
                    (if b.button1 {
                        1u8
                    } else {
                        0
                    }) + (if b.button2 {
                        2u8
                    } else {
                        0
                    }) + (if b.button3 {
                        4u8
                    } else {
                        0
                    }) + (if b.button4 {
                        8u8
                    } else {
                        0
                    }),
                    (if b.fx1 {
                        1u8
                    } else {
                        0
                    }) + (if b.fx2 {
                        2u8
                    } else {
                        0
                    }),
                ];
                assert(matrix@ =~= switch_matrix(*buttons));
                let mut k: usize = 0;
                while k < 3 - off
                    invariant
                        off <= 3,
                        k <= 3 - off,
                        matrix@ == switch_matrix(*buttons),
                        p.len() == VIA_PACKET_LEN,
                        off == p[2],
                        self.packet@ =~= Seq::new(
                            p.len(),
                            |i: int|
                                if 3 <= i < 3 + k {
                                    switch_matrix(*buttons)[off + i - 3]
                                } else {
                                    p[i]
                                },
                        ),
                    decreases 3 - off - k,
                {
                    self.packet[3 + k] = matrix[off + k];
                    k = k + 1;
                }
            }
        } else if value_id == KEYBOARD_VALUE_DEVICE_INDICATION {
        } else {
            self.set_invalid();
        }
    }

    /// Answers one configuration request against the user data, given the
    /// uptime and the current button levels, and returns what the firmware
    /// is to do about it.
    pub fn read_via_cmd(&mut self, data: &mut Userdata, uptime_ms: u32, buttons: &ButtonInputRead) -> (r:
        ViaEffects)
        ensures
            (final(self).packet@, *final(data), r) == via_step(
                old(self).packet@,
                *old(data),
                uptime_ms,
                *buttons,
            ),
    {
        let none = ViaEffects { changed: false, save: false, reboot_bootsel: false, reboot: false };
        let id = self.packet[0];
        if id == ID_GET_PROTOCOL_VERSION {
            self.write_word(1, VIA_PROTOCOL_VERSION);
            none
        } else if id == ID_GET_KEYBOARD_VALUE {
            self.read_via_keyboard_value(uptime_ms, buttons);
            none
        } else if id == ID_DYNAMIC_KEYMAP_GET_KEYCODE {
            let key = match get_keymap_keycode(&data.keymap, self.packet[2], self.packet[3]) {
                Some(k) => k.0,
                None => 0,
            };
            self.write_word(4, key);
            none
        } else if id == ID_DYNAMIC_KEYMAP_SET_KEYCODE {
            let key = Keycode((self.packet[4] as u16) * 256 + self.packet[5] as u16);
            set_keymap_keycode(&mut data.keymap, self.packet[2], self.packet[3], key);
            ViaEffects { changed: true, save: true, ..none }
        } else if id == ID_DYNAMIC_KEYMAP_RESET {
            data.keymap = Keymap::default();
            ViaEffects { changed: true, ..none }
        } else if id == ID_CUSTOM_SET_VALUE {
            self.read_custom_set_value(data)
        } else if id == ID_CUSTOM_GET_VALUE {
            self.read_custom_get_value();
            none
        } else if id == ID_CUSTOM_SAVE {
            self.read_custom_save()
        } else if id == ID_DYNAMIC_KEYMAP_MACRO_GET_COUNT || id
            == ID_DYNAMIC_KEYMAP_MACRO_GET_BUFFER_SIZE {
            // Macros are not supported.
            self.packet[1] = 0;
            none
        } else if id == ID_DYNAMIC_KEYMAP_GET_LAYER_COUNT {
            // A single layer.
            self.packet[1] = 1;
            none
        } else if id == ID_DYNAMIC_KEYMAP_GET_BUFFER {
            self.read_keymap_buffer(&data.keymap);
            none
        } else if id == ID_DYNAMIC_KEYMAP_SET_BUFFER {
            self.write_keymap_buffer(data)
        } else if id == ID_DYNAMIC_KEYMAP_GET_ENCODER {
            let key = match get_encoder_keycode(&data.keymap, self.packet[2], self.packet[3] != 0) {
                Some(k) => k.0,
                None => 0,
            };
            self.write_word(4, key);
            none
        } else if id == ID_DYNAMIC_KEYMAP_SET_ENCODER {
            let key = Keycode((self.packet[4] as u16) * 256 + self.packet[5] as u16);
            set_encoder_keycode(&mut data.keymap, self.packet[2], self.packet[3] != 0, key);
            ViaEffects { changed: true, ..none }
        } else {
            self.set_invalid();
            none
        }
    }

    fn range_ok(&self) -> (r: Option<(usize, usize)>)
        ensures
            r is Some <==> buffer_range_ok(self.packet@),
            r matches Some(v) ==> v.0 == be_word(self.packet@[1], self.packet@[2]) && v.1
                == self.packet@[3],
    {
        let off = (self.packet[1] as usize) * 256 + self.packet[2] as usize;
        let size = self.packet[3] as usize;
        if off + size <= KEYMAP_BUFFER_LEN && size + 4 <= VIA_PACKET_LEN {
            Some((off, size))
        } else {
            None
        }
    }

    fn read_keymap_buffer(&mut self, map: &Keymap)
        requires
            old(self).packet@[0] == ID_DYNAMIC_KEYMAP_GET_BUFFER,
        ensures
            final(self).packet@ == if buffer_range_ok(old(self).packet@) {
                buffer_read(old(self).packet@, *map)
            } else {
                invalid(old(self).packet@)
            },
    {
        let (off, size) = match self.range_ok() {
            Some(v) => v,
            None => {
                self.set_invalid();
                return;
            },
        };
        let ghost p = self.packet@;
        let buf = KeymapBuffer::from_keymap(map);
        let mut k: usize = 0;
        while k < size
            invariant
                k <= size,
                off + size <= KEYMAP_BUFFER_LEN,
                size + 4 <= VIA_PACKET_LEN,
                off == be_word(p[1], p[2]),
                size == p[3],
                p.len() == VIA_PACKET_LEN,
                buf.bytes@ == keymap_bytes(*map),
                self.packet@ =~= Seq::new(
                    p.len(),
                    |i: int|
                        if 4 <= i < 4 + k {
                            keymap_bytes(*map)[off + i - 4]
                        } else {
                            p[i]
                        },
                ),
            decreases size - k,
        {
            self.packet[4 + k] = buf.bytes[off + k];
            k = k + 1;
        }
    }

    fn write_keymap_buffer(&mut self, data: &mut Userdata) -> (r: ViaEffects)
        requires
            old(self).packet@[0] == ID_DYNAMIC_KEYMAP_SET_BUFFER,
        ensures
            buffer_range_ok(old(self).packet@) ==> final(self).packet@ == old(self).packet@
                && *final(data) == (Userdata {
                keymap: keymap_from_words(old(data).keymap, buffer_written(old(self).packet@, old(data).keymap)),
                ..*old(data)
            }) && r == effects(true, false, false, false),
            !buffer_range_ok(old(self).packet@) ==> final(self).packet@ == invalid(
                old(self).packet@,
            ) && *final(data) == *old(data) && r == effects(false, false, false, false),
    {
        let none = ViaEffects { changed: false, save: false, reboot_bootsel: false, reboot: false };
        let (off, size) = match self.range_ok() {
            Some(v) => v,
            None => {
                self.set_invalid();
                return none;
            },
        };
        let ghost p = self.packet@;
        let mut buf = KeymapBuffer::from_keymap(&data.keymap);
        let mut k: usize = 0;
        while k < size
            invariant
                k <= size,
                off + size <= KEYMAP_BUFFER_LEN,
                size + 4 <= VIA_PACKET_LEN,
                off == be_word(p[1], p[2]),
                size == p[3],
                p == self.packet@,
                p.len() == VIA_PACKET_LEN,
                buf.bytes@ =~= Seq::new(
                    KEYMAP_BUFFER_LEN as nat,
                    |i: int|
                        if off <= i < off + k {
                            p[4 + i - off]
                        } else {
                            keymap_bytes(data.keymap)[i]
                        },
                ),
            decreases size - k,
        {
            buf.bytes[off + k] = self.packet[4 + k];
            k = k + 1;
        }
        buf.apply_keymap(&mut data.keymap);
        ViaEffects { changed: true, ..none }
    }
}

} // verus!
