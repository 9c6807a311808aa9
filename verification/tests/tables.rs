//! Tests of the default binding tables, the remap loader and the dispatch
//! path.

use keymap::bindings::Action;
use keymap::chord::Chord;
use keymap::chord::KeyCode;
use keymap::chord::ModifierSet;
use keymap::chord::alt;
use keymap::chord::ctrl;
use keymap::chord::key;
use keymap::chord::plain;
use keymap::codec::ChordSyntaxError;
use keymap::dispatch::resolve;
use keymap::mode::Mode;
use keymap::remap::RemapError;
use keymap::remap::RemapSet;
use keymap::remap::parse_remaps;

fn mods(shift: bool, alt: bool, control: bool) -> ModifierSet {
    ModifierSet { shift, alt, control }
}

#[test]
fn parsing_remaps_file() {
    let sample_remaps = "\
        [Insert]\n\
        y = \"x\"\n\
        S-C-a = \"F12\"\n\
        \n\
        [Normal]\n\
        A-F12 = \"S-C-w\"\n\
    ";

    let parsed = parse_remaps(sample_remaps).unwrap();
    assert_eq!(parsed.insert.lookup(key('y')), Some(key('x')));
    assert_eq!(
        parsed.insert.lookup(Chord { code: KeyCode::Char('a'), modifiers: mods(true, false, true) }),
        Some(Chord { code: KeyCode::Function(12), modifiers: mods(false, false, false) })
    );
    assert_eq!(parsed.insert.entry_count(), 2);
    assert_eq!(
        parsed.normal.lookup(Chord { code: KeyCode::Function(12), modifiers: mods(false, true, false) }),
        Some(Chord { code: KeyCode::Char('w'), modifiers: mods(true, false, true) })
    );
    assert_eq!(parsed.normal.entry_count(), 1);
    assert_eq!(parsed.select.entry_count(), 0);
}

#[test]
fn loading_insert_remap_document() {
    let parsed = parse_remaps("[Insert]\ny = \"x\"\n").unwrap();
    assert_eq!(parsed.insert.lookup(key('y')), Some(key('x')));
    assert_eq!(parsed.insert.entry_count(), 1);
    assert_eq!(parsed.normal.entry_count(), 0);
    assert_eq!(parsed.select.entry_count(), 0);

    assert_eq!(
        parse_remaps("[Bogus]\na = \"b\""),
        Err(RemapError::UnknownMode(String::from("Bogus")))
    );
}

#[test]
fn remap_error_variants() {
    assert_eq!(
        parse_remaps("y = \"x\""),
        Err(RemapError::InvalidDocument)
    );
    assert_eq!(
        parse_remaps("[Insert]\ny = 3\n"),
        Err(RemapError::InvalidDocument)
    );
    assert_eq!(
        parse_remaps("[Insert]\nQq = \"x\"\n"),
        Err(RemapError::BadChord {
            mode: Mode::Insert,
            chord: String::from("Qq"),
            error: ChordSyntaxError::InvalidCode(String::from("Qq")),
        })
    );
    assert_eq!(
        parse_remaps("[Insert]\ny = \"F0\"\n"),
        Err(RemapError::BadChord {
            mode: Mode::Insert,
            chord: String::from("F0"),
            error: ChordSyntaxError::InvalidFunctionKey(String::from("F0")),
        })
    );
}

#[test]
fn default_bindings_deterministic() {
    let a = keymap::bindings::default();
    let b = keymap::bindings::default();
    assert_eq!(a.normal.entries, b.normal.entries);
    assert_eq!(a.select.entries, b.select.entries);
    assert_eq!(a.insert.entries, b.insert.entries);
}

#[test]
fn select_inherits_normal_with_overrides() {
    let b = keymap::bindings::default();
    assert_eq!(b.select.lookup(key('h')), Some(Action::ExtendCharLeft));
    assert_eq!(b.select.lookup(plain(KeyCode::Escape)), Some(Action::ExitSelectMode));
    assert_eq!(b.select.lookup(key('d')), Some(Action::DeleteSelection));
    assert_eq!(b.select.lookup(key('u')), Some(Action::Undo));
    assert_eq!(b.normal.lookup(key('h')), Some(Action::MoveCharLeft));
    assert_eq!(b.normal.lookup(plain(KeyCode::Escape)), Some(Action::NormalMode));
}

#[test]
fn mutating_select_leaves_normal_unchanged() {
    let mut b = keymap::bindings::default();
    b.rebind_select(key('h'), Action::Undo);
    assert_eq!(b.select.lookup(key('h')), Some(Action::Undo));
    assert_eq!(b.normal.lookup(key('h')), Some(Action::MoveCharLeft));
}

#[test]
fn later_bindings_rebind_within_one_pass() {
    let b = keymap::bindings::default();
    assert_eq!(b.normal.lookup(key('K')), Some(Action::Hover));
    assert_eq!(b.normal.lookup(key(' ')), Some(Action::SpaceMode));
}

#[test]
fn insert_mode_is_independent() {
    let b = keymap::bindings::default();
    assert_eq!(b.insert.lookup(plain(KeyCode::Escape)), Some(Action::NormalMode));
    assert_eq!(b.insert.lookup(plain(KeyCode::Backspace)), Some(Action::DeleteCharBackward));
    assert_eq!(b.insert.lookup(ctrl('w')), Some(Action::DeleteWordBackward));
    assert_eq!(b.insert.lookup(key('h')), None);
    assert_eq!(b.normal.lookup(ctrl('w')), Some(Action::WindowMode));
    assert_eq!(b.normal.lookup(alt('s')), Some(Action::SplitSelectionOnNewline));
}

#[test]
fn remap_substitutes_before_lookup() {
    let b = keymap::bindings::default();
    let mut r = RemapSet::new();
    r.normal.insert(key('z'), key('h'));

    // present in the remap table: substituted before the binding lookup
    assert_eq!(resolve(&b, &r, Mode::Normal, key('z')), Some(Action::MoveCharLeft));
    // absent from the remap table: looked up directly
    assert_eq!(resolve(&b, &r, Mode::Normal, key('h')), Some(Action::MoveCharLeft));
    // the remap applies only in its own mode
    assert_eq!(resolve(&b, &r, Mode::Insert, key('z')), None);
    // absent from both tables: unbound, not an error
    assert_eq!(
        resolve(&b, &r, Mode::Normal, plain(KeyCode::Function(5))),
        None
    );
}
