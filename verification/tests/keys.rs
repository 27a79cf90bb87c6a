use iced_ruffle::keys::{
    ascii_lowercase, to_key_descriptor, Key, KeyDescriptor, KeyLocation, Location, LogicalKey,
    Named, NamedKey, PhysicalKey,
};

fn desc(key: Key, location: Location) -> Option<KeyDescriptor> {
    to_key_descriptor(&key, location)
}

#[test]
fn letter_maps_to_physical_key_and_keeps_case() {
    let lower = desc(Key::Character("a".to_string()), Location::Standard).unwrap();
    assert_eq!(lower.physical_key, PhysicalKey::KeyA);
    assert_eq!(lower.logical_key, LogicalKey::Character('a'));
    assert_eq!(lower.key_location, KeyLocation::Standard);

    let upper = desc(Key::Character("Q".to_string()), Location::Standard).unwrap();
    assert_eq!(upper.physical_key, PhysicalKey::KeyQ);
    assert_eq!(upper.logical_key, LogicalKey::Character('Q'));
}

#[test]
fn digits_map_to_digit_keys() {
    let seven = desc(Key::Character("7".to_string()), Location::Numpad).unwrap();
    assert_eq!(seven.physical_key, PhysicalKey::Digit7);
    assert_eq!(seven.key_location, KeyLocation::Numpad);
    let zero = desc(Key::Character("0".to_string()), Location::Standard).unwrap();
    assert_eq!(zero.physical_key, PhysicalKey::Digit0);
}

#[test]
fn other_characters_are_unknown_physically() {
    let d = desc(Key::Character("é".to_string()), Location::Standard).unwrap();
    assert_eq!(d.physical_key, PhysicalKey::Unknown);
    assert_eq!(d.logical_key, LogicalKey::Character('é'));
    let semi = desc(Key::Character(";".to_string()), Location::Standard).unwrap();
    assert_eq!(semi.physical_key, PhysicalKey::Unknown);
}

#[test]
fn only_first_character_counts() {
    let d = desc(Key::Character("zq".to_string()), Location::Left).unwrap();
    assert_eq!(d.physical_key, PhysicalKey::KeyZ);
    assert_eq!(d.logical_key, LogicalKey::Character('z'));
    assert_eq!(d.key_location, KeyLocation::Left);
}

#[test]
fn empty_character_and_unidentified_give_nothing() {
    assert_eq!(desc(Key::Character(String::new()), Location::Standard), None);
    assert_eq!(desc(Key::Unidentified, Location::Standard), None);
    assert_eq!(desc(Key::Named(Named::Other), Location::Standard), None);
}

#[test]
fn named_keys_table() {
    let cases = [
        (Named::ArrowUp, PhysicalKey::ArrowUp, LogicalKey::Named(NamedKey::ArrowUp)),
        (Named::ArrowDown, PhysicalKey::ArrowDown, LogicalKey::Named(NamedKey::ArrowDown)),
        (Named::ArrowLeft, PhysicalKey::ArrowLeft, LogicalKey::Named(NamedKey::ArrowLeft)),
        (Named::ArrowRight, PhysicalKey::ArrowRight, LogicalKey::Named(NamedKey::ArrowRight)),
        (Named::Space, PhysicalKey::Space, LogicalKey::Character(' ')),
        (Named::Enter, PhysicalKey::Enter, LogicalKey::Named(NamedKey::Enter)),
        (Named::Backspace, PhysicalKey::Backspace, LogicalKey::Named(NamedKey::Backspace)),
        (Named::Tab, PhysicalKey::Tab, LogicalKey::Named(NamedKey::Tab)),
        (Named::Escape, PhysicalKey::Escape, LogicalKey::Named(NamedKey::Escape)),
        (Named::Delete, PhysicalKey::Delete, LogicalKey::Named(NamedKey::Delete)),
    ];
    for (named, physical, logical) in cases {
        let d = desc(Key::Named(named), Location::Standard).unwrap();
        assert_eq!(d.physical_key, physical);
        assert_eq!(d.logical_key, logical);
    }
}

#[test]
fn modifiers_take_their_side_from_location() {
    let right_shift = desc(Key::Named(Named::Shift), Location::Right).unwrap();
    assert_eq!(right_shift.physical_key, PhysicalKey::ShiftRight);
    assert_eq!(right_shift.logical_key, LogicalKey::Named(NamedKey::Shift));
    let left_shift = desc(Key::Named(Named::Shift), Location::Left).unwrap();
    assert_eq!(left_shift.physical_key, PhysicalKey::ShiftLeft);
    let std_ctrl = desc(Key::Named(Named::Control), Location::Standard).unwrap();
    assert_eq!(std_ctrl.physical_key, PhysicalKey::ControlLeft);
    let right_ctrl = desc(Key::Named(Named::Control), Location::Right).unwrap();
    assert_eq!(right_ctrl.physical_key, PhysicalKey::ControlRight);
    let right_alt = desc(Key::Named(Named::Alt), Location::Right).unwrap();
    assert_eq!(right_alt.physical_key, PhysicalKey::AltRight);
    let numpad_alt = desc(Key::Named(Named::Alt), Location::Numpad).unwrap();
    assert_eq!(numpad_alt.physical_key, PhysicalKey::AltLeft);
    assert_eq!(numpad_alt.key_location, KeyLocation::Numpad);
}

#[test]
fn physical_key_follows_logical_key() {
    // Same logical key and location: same physical key, however it was reported.
    let a = desc(Key::Character("x".to_string()), Location::Standard).unwrap();
    let b = desc(Key::Character("xyz".to_string()), Location::Standard).unwrap();
    assert_eq!(a.logical_key, b.logical_key);
    assert_eq!(a.physical_key, b.physical_key);
}

#[test]
fn typed_space_differs_from_named_space() {
    let named = desc(Key::Named(Named::Space), Location::Standard).unwrap();
    let typed = desc(Key::Character(" ".to_string()), Location::Standard).unwrap();
    assert_eq!(named.logical_key, typed.logical_key);
    assert_eq!(named.physical_key, PhysicalKey::Space);
    assert_eq!(typed.physical_key, PhysicalKey::Unknown);
}

#[test]
fn physical_key_ignores_case() {
    for (upper, lower) in ('A'..='Z').zip('a'..='z') {
        let u = desc(Key::Character(upper.to_string()), Location::Standard).unwrap();
        let l = desc(Key::Character(lower.to_string()), Location::Standard).unwrap();
        assert_eq!(u.physical_key, l.physical_key);
        assert_ne!(u.physical_key, PhysicalKey::Unknown);
    }
}

#[test]
fn non_modifiers_ignore_location() {
    let here = desc(Key::Named(Named::Enter), Location::Standard).unwrap();
    let there = desc(Key::Named(Named::Enter), Location::Numpad).unwrap();
    assert_eq!(here.physical_key, there.physical_key);
    assert_eq!(here.logical_key, there.logical_key);
    assert_eq!(there.key_location, KeyLocation::Numpad);
}

#[test]
fn ascii_lowercase_values() {
    assert_eq!(ascii_lowercase('A'), 'a');
    assert_eq!(ascii_lowercase('Z'), 'z');
    assert_eq!(ascii_lowercase('m'), 'm');
    assert_eq!(ascii_lowercase('@'), '@');
    assert_eq!(ascii_lowercase('['), '[');
    assert_eq!(ascii_lowercase('É'), 'É');
}
