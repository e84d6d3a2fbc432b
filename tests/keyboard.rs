use ime_switch::keyboard::Key;

const KEYS: [Key; 6] = [
    Key::LeftAlt,
    Key::RightAlt,
    Key::LeftShift,
    Key::RightShift,
    Key::LeftCtrl,
    Key::RightCtrl,
];

#[test]
fn keys_map_to_their_native_codes() {
    assert_eq!(Key::LeftAlt.as_virtual_key(), 0xA4);
    assert_eq!(Key::RightAlt.as_virtual_key(), 0xA5);
    assert_eq!(Key::LeftShift.as_virtual_key(), 0x10);
    assert_eq!(Key::RightShift.as_virtual_key(), 0xA1);
    assert_eq!(Key::LeftCtrl.as_virtual_key(), 0x11);
    assert_eq!(Key::RightCtrl.as_virtual_key(), 0xA3);
}

#[test]
fn native_codes_map_back_to_keys() {
    for k in KEYS {
        assert_eq!(Key::from_virtual_key(k.as_virtual_key()), Some(k));
    }
    assert_eq!(Key::from_virtual_key(0x41), None);
    assert_eq!(Key::from_virtual_key(0xFF), None);
}

#[test]
fn distinct_keys_have_distinct_codes() {
    for a in KEYS {
        for b in KEYS {
            assert_eq!(a.as_virtual_key() == b.as_virtual_key(), a == b);
        }
    }
}
