//! The chord data model: a key code plus a set of held modifiers.

use vstd::prelude::*;

verus! {

/// A key on the keyboard, as delivered by the terminal input driver.
/// `Function(n)` is only ever constructed with `1 <= n <= 12`.
#[derive(Clone, Copy, Debug, PartialEq, Eq, Hash, Structural)]
pub enum KeyCode {
    Backspace,
    Enter,
    Left,
    Right,
    Up,
    Down,
    Home,
    End,
    PageUp,
    PageDown,
    Tab,
    BackTab,
    Delete,
    Insert,
    Function(u8),
    Char(char),
    Null,
    Escape,
}

impl KeyCode {
    /// A code is well formed when any function-key number is in range.
    pub open spec fn wf(self) -> bool {
        match self {
            KeyCode::Function(n) => 1 <= n <= 12,
            _ => true,
        }
    }
}

/// A set over the three recognized modifiers Shift, Alt and Control.
/// Equality is set equality; there is no ordering significance.
#[derive(Clone, Copy, Debug, PartialEq, Eq, Hash, Structural)]
pub struct ModifierSet {
    pub shift: bool,
    pub alt: bool,
    pub control: bool,
}

impl ModifierSet {
    /// The empty modifier set.
    pub fn none() -> (r: ModifierSet)
        ensures
            r == (ModifierSet { shift: false, alt: false, control: false }),
    {
        ModifierSet { shift: false, alt: false, control: false }
    }
}

/// The atomic addressable unit of key binding: a key code together with the
/// modifiers held while it was pressed.
#[derive(Clone, Copy, Debug, PartialEq, Eq, Hash, Structural)]
pub struct Chord {
    pub code: KeyCode,
    pub modifiers: ModifierSet,
}

impl Chord {
    /// A chord is well formed when its code is.
    pub open spec fn wf(self) -> bool {
        self.code.wf()
    }
}

/// An unmodified character chord, as a specification value.
pub open spec fn key_spec(ch: char) -> Chord {
    Chord {
        code: KeyCode::Char(ch),
        modifiers: ModifierSet { shift: false, alt: false, control: false },
    }
}

/// A character chord with Control held, as a specification value.
pub open spec fn ctrl_spec(ch: char) -> Chord {
    Chord {
        code: KeyCode::Char(ch),
        modifiers: ModifierSet { shift: false, alt: false, control: true },
    }
}

/// A character chord with Alt held, as a specification value.
pub open spec fn alt_spec(ch: char) -> Chord {
    Chord {
        code: KeyCode::Char(ch),
        modifiers: ModifierSet { shift: false, alt: true, control: false },
    }
}

/// An unmodified chord on a non-character key, as a specification value.
pub open spec fn plain_spec(code: KeyCode) -> Chord {
    Chord {
        code,
        modifiers: ModifierSet { shift: false, alt: false, control: false },
    }
}

/// An unmodified character chord.
pub fn key(ch: char) -> (r: Chord)
    ensures
        r == key_spec(ch),
        r.wf(),
{
    Chord { code: KeyCode::Char(ch), modifiers: ModifierSet::none() }
}

/// A character chord with Control held.
pub fn ctrl(ch: char) -> (r: Chord)
    ensures
        r == ctrl_spec(ch),
        r.wf(),
{
    Chord { code: KeyCode::Char(ch), modifiers: ModifierSet { shift: false, alt: false, control: true } }
}

/// A character chord with Alt held.
pub fn alt(ch: char) -> (r: Chord)
    ensures
        r == alt_spec(ch),
        r.wf(),
{
    Chord { code: KeyCode::Char(ch), modifiers: ModifierSet { shift: false, alt: true, control: false } }
}

/// An unmodified chord on a non-character key.
pub fn plain(code: KeyCode) -> (r: Chord)
    requires
        code.wf(),
    ensures
        r == plain_spec(code),
        r.wf(),
{
    Chord { code, modifiers: ModifierSet::none() }
}

} // verus!
