//! Tests of the chord codec: the string grammar, its error classification,
//! and the round-trip law.

use keymap::chord::Chord;
use keymap::chord::KeyCode;
use keymap::chord::ModifierSet;
use keymap::chord::key;
use keymap::codec::ChordSyntaxError;
use keymap::codec::RepresentableKeyEvent;
use keymap::codec::format_chord;
use keymap::codec::parse_chord;
use keymap::mode::Mode;

fn mods(shift: bool, alt: bool, control: bool) -> ModifierSet {
    ModifierSet { shift, alt, control }
}

fn chord(code: KeyCode, modifiers: ModifierSet) -> Chord {
    Chord { code, modifiers }
}

#[test]
fn parsing_unmodified_keys() {
    assert_eq!(
        str::parse::<RepresentableKeyEvent>("Bs").unwrap(),
        RepresentableKeyEvent(chord(KeyCode::Backspace, mods(false, false, false)))
    );

    assert_eq!(
        str::parse::<RepresentableKeyEvent>("Left").unwrap(),
        RepresentableKeyEvent(chord(KeyCode::Left, mods(false, false, false)))
    );

    assert_eq!(
        str::parse::<RepresentableKeyEvent>(",").unwrap(),
        RepresentableKeyEvent(chord(KeyCode::Char(','), mods(false, false, false)))
    );

    assert_eq!(
        str::parse::<RepresentableKeyEvent>("w").unwrap(),
        RepresentableKeyEvent(chord(KeyCode::Char('w'), mods(false, false, false)))
    );

    assert_eq!(
        str::parse::<RepresentableKeyEvent>("F12").unwrap(),
        RepresentableKeyEvent(chord(KeyCode::Function(12), mods(false, false, false)))
    );
}

#[test]
fn parsing_nonsensical_keys_fails() {
    assert!(str::parse::<RepresentableKeyEvent>("F13").is_err());
    assert!(str::parse::<RepresentableKeyEvent>("F0").is_err());
    assert!(str::parse::<RepresentableKeyEvent>("aaa").is_err());
    assert!(str::parse::<RepresentableKeyEvent>("S-S-a").is_err());
    assert!(str::parse::<RepresentableKeyEvent>("C-A-S-C-1").is_err());
    assert!(str::parse::<RepresentableKeyEvent>("FU").is_err());
    assert!(str::parse::<RepresentableKeyEvent>("123").is_err());
}

#[test]
fn parsing_modified_keys() {
    assert_eq!(
        str::parse::<RepresentableKeyEvent>("S-Bs").unwrap(),
        RepresentableKeyEvent(chord(KeyCode::Backspace, mods(true, false, false)))
    );

    assert_eq!(
        str::parse::<RepresentableKeyEvent>("C-A-S-F12").unwrap(),
        RepresentableKeyEvent(chord(KeyCode::Function(12), mods(true, true, true)))
    );
}

#[test]
fn round_trip_of_constructible_chords() {
    let codes = [
        KeyCode::Backspace,
        KeyCode::Enter,
        KeyCode::Left,
        KeyCode::Right,
        KeyCode::Up,
        KeyCode::Down,
        KeyCode::Home,
        KeyCode::End,
        KeyCode::PageUp,
        KeyCode::PageDown,
        KeyCode::Tab,
        KeyCode::BackTab,
        KeyCode::Delete,
        KeyCode::Insert,
        KeyCode::Null,
        KeyCode::Escape,
        KeyCode::Char('a'),
        KeyCode::Char('Z'),
        KeyCode::Char('%'),
        KeyCode::Char(' '),
        KeyCode::Char('F'),
        KeyCode::Char('1'),
        KeyCode::Function(1),
        KeyCode::Function(2),
        KeyCode::Function(9),
        KeyCode::Function(10),
        KeyCode::Function(11),
        KeyCode::Function(12),
    ];
    for code in codes {
        for bits in 0..8u8 {
            let c = chord(code, mods(bits & 1 != 0, bits & 2 != 0, bits & 4 != 0));
            let text = format_chord(&c);
            assert_eq!(parse_chord(&text), Ok(c), "round trip failed for {:?}", text);
        }
    }
}

#[test]
fn modifier_sets_from_prefixes() {
    assert_eq!(
        parse_chord("S-C-a"),
        Ok(chord(KeyCode::Char('a'), mods(true, false, true)))
    );
    assert_eq!(
        parse_chord("a"),
        Ok(chord(KeyCode::Char('a'), mods(false, false, false)))
    );
}

#[test]
fn function_key_range() {
    assert_eq!(
        parse_chord("F12"),
        Ok(chord(KeyCode::Function(12), mods(false, false, false)))
    );
    assert_eq!(
        parse_chord("F13"),
        Err(ChordSyntaxError::InvalidFunctionKey(String::from("F13")))
    );
    assert_eq!(
        parse_chord("F0"),
        Err(ChordSyntaxError::InvalidFunctionKey(String::from("F0")))
    );
}

#[test]
fn modifier_errors() {
    assert_eq!(
        parse_chord("S-S-a"),
        Err(ChordSyntaxError::RepeatedModifier(String::from("S")))
    );
    assert_eq!(
        parse_chord("Q-a"),
        Err(ChordSyntaxError::InvalidModifier(String::from("Q")))
    );
}

#[test]
fn missing_and_invalid_codes() {
    assert_eq!(parse_chord(""), Err(ChordSyntaxError::MissingCode));
    assert_eq!(
        parse_chord("aaa"),
        Err(ChordSyntaxError::InvalidCode(String::from("aaa")))
    );
    assert_eq!(parse_chord("a-"), Err(ChordSyntaxError::MissingCode));
}

#[test]
fn formatting_emits_fixed_modifier_order() {
    assert_eq!(
        format_chord(&chord(KeyCode::Char('a'), mods(true, false, true))),
        "S-C-a"
    );
    assert_eq!(
        format_chord(&chord(KeyCode::Function(12), mods(true, true, true))),
        "S-A-C-F12"
    );
    assert_eq!(format_chord(&chord(KeyCode::Backspace, mods(false, false, false))), "Bs");
    assert_eq!(format_chord(&key('y')), "y");
    assert_eq!(
        RepresentableKeyEvent(chord(KeyCode::Delete, mods(false, true, false))).text(),
        "A-Del"
    );
}

#[test]
fn down_and_up_parse_to_their_own_codes() {
    assert_eq!(
        parse_chord("Up"),
        Ok(chord(KeyCode::Up, mods(false, false, false)))
    );
    assert_eq!(
        parse_chord("Down"),
        Ok(chord(KeyCode::Down, mods(false, false, false)))
    );
}

#[test]
fn mode_names_round_trip() {
    assert_eq!(Mode::from_name("Normal"), Some(Mode::Normal));
    assert_eq!(Mode::from_name("Select"), Some(Mode::Select));
    assert_eq!(Mode::from_name("Insert"), Some(Mode::Insert));
    assert_eq!(Mode::from_name("normal"), None);
    assert_eq!(Mode::Normal.name(), "Normal");
    assert_eq!(Mode::Select.name(), "Select");
    assert_eq!(Mode::Insert.name(), "Insert");
}
