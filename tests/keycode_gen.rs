use controller_input::keycode_gen::{
    merge_specs, AliasIns, Delete, KeyRange, KeyRangeIns, Keycode, KeycodeIns, Reset, Spec,
};

fn def(key: &str) -> KeycodeIns {
    KeycodeIns::Def(Keycode {
        group: Some("basic".to_string()),
        key: key.to_string(),
        label: None,
        aliases: vec![AliasIns::Def(format!("{key}_ALIAS")), AliasIns::Reset(Reset)],
    })
}

fn names(spec: &Spec) -> Vec<(u16, String)> {
    let mut v: Vec<(u16, String)> = spec
        .keycodes
        .iter()
        .map(|(k, ins)| match ins {
            KeycodeIns::Def(d) => (*k, d.key.clone()),
            KeycodeIns::Delete(_) => (*k, "!delete!".to_string()),
            KeycodeIns::Reset(_) => (*k, "!reset!".to_string()),
        })
        .collect();
    v.sort();
    v
}

#[test]
fn merge_defines_replaces_and_deletes() {
    let mut dst = Spec { keycodes: vec![], ranges: vec![] };
    merge_specs(
        &mut dst,
        Spec { keycodes: vec![(4, def("KC_A")), (5, def("KC_B")), (6, def("KC_C"))], ranges: vec![] },
    );
    merge_specs(
        &mut dst,
        Spec { keycodes: vec![(5, KeycodeIns::Delete(Delete)), (6, def("KC_CC")), (7, KeycodeIns::Delete(Delete))], ranges: vec![] },
    );
    assert_eq!(names(&dst), vec![(4, "KC_A".to_string()), (6, "KC_CC".to_string())]);
}

#[test]
fn merge_reset_clears_keycodes() {
    let mut dst = Spec { keycodes: vec![(4, def("KC_A")), (5, def("KC_B"))], ranges: vec![] };
    merge_specs(
        &mut dst,
        Spec { keycodes: vec![(1, KeycodeIns::Reset(0)), (9, def("KC_F"))], ranges: vec![] },
    );
    assert_eq!(names(&dst), vec![(9, "KC_F".to_string())]);
}

#[test]
fn merge_ranges() {
    let r1 = KeyRange { start: 0x0000, end: 0x00FF };
    let r2 = KeyRange { start: 0x0100, end: 0x1FFF };
    let mut dst = Spec { keycodes: vec![], ranges: vec![(r1, KeyRangeIns::Def { define: "QK_BASIC".to_string() })] };
    merge_specs(
        &mut dst,
        Spec {
            keycodes: vec![],
            ranges: vec![
                (r2, KeyRangeIns::Def { define: "QK_MODS".to_string() }),
                (r1, KeyRangeIns::Delete(Delete)),
                (r2, KeyRangeIns::Def { define: "QK_MODS2".to_string() }),
            ],
        },
    );
    assert_eq!(dst.ranges.len(), 1);
    assert_eq!(dst.ranges[0].0, r2);
    assert!(matches!(&dst.ranges[0].1, KeyRangeIns::Def { define } if define == "QK_MODS2"));
}

#[test]
fn parse_key_range() {
    assert_eq!(KeyRange::parse("0x0000/0x00FF"), Some(KeyRange { start: 0, end: 0xFF }));
    assert_eq!(KeyRange::parse("0X7e00/0x7E1f"), Some(KeyRange { start: 0x7E00, end: 0x7E1F }));
    assert_eq!(KeyRange::parse("range 0x0100/0x1fff and 0x2000/0x2FFF"), Some(KeyRange { start: 0x100, end: 0x1FFF }));
    assert_eq!(KeyRange::parse("0x00/0x00FF"), None);
    assert_eq!(KeyRange::parse("0x0000-0x00FF"), None);
    assert_eq!(KeyRange::parse("0x00g0/0x00FF"), None);
    assert_eq!(KeyRange::parse(""), None);
    assert_eq!(KeyRange::parse("0x0000/0x00F"), None);
}
