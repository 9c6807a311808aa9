//! The chord codec: bidirectional conversion between a [`Chord`] and its
//! canonical textual form.
//!
//! Grammar: `(<Modifier>-)*<Code>`, where each modifier token is one of
//! `S`, `A`, `C` (at most once each) and the code token is a fixed control-key
//! name, a single literal character, or `F<n>` with `1 <= n <= 12`.

use vstd::prelude::*;
use vstd::string::*;
use crate::chord::Chord;
use crate::chord::KeyCode;
use crate::chord::ModifierSet;

verus! {

broadcast use vstd::string::group_string_axioms;

/// A local, recoverable failure to parse one chord string.
#[derive(Debug, PartialEq, Eq)]
pub enum ChordSyntaxError {
    /// The code token (the segment after the last separator) is empty.
    MissingCode,
    /// The code token is not a control-key name, a single character, or a
    /// well-formed function-key token.
    InvalidCode(String),
    /// A modifier token outside `{S, A, C}`.
    InvalidModifier(String),
    /// The same modifier token appears more than once.
    RepeatedModifier(String),
    /// An `F<n>` token whose digits do not denote a number in `1..=12`.
    InvalidFunctionKey(String),
}

/// The mathematical value of a [`ChordSyntaxError`]: the same variants over
/// character sequences.
pub enum ChordSyntaxErrorV {
    MissingCode,
    InvalidCode(Seq<char>),
    InvalidModifier(Seq<char>),
    RepeatedModifier(Seq<char>),
    InvalidFunctionKey(Seq<char>),
}

impl View for ChordSyntaxError {
    type V = ChordSyntaxErrorV;

    open spec fn view(&self) -> ChordSyntaxErrorV {
        match self {
            ChordSyntaxError::MissingCode => ChordSyntaxErrorV::MissingCode,
            ChordSyntaxError::InvalidCode(t) => ChordSyntaxErrorV::InvalidCode(t@),
            ChordSyntaxError::InvalidModifier(t) => ChordSyntaxErrorV::InvalidModifier(t@),
            ChordSyntaxError::RepeatedModifier(t) => ChordSyntaxErrorV::RepeatedModifier(t@),
            ChordSyntaxError::InvalidFunctionKey(t) => ChordSyntaxErrorV::InvalidFunctionKey(t@),
        }
    }
}

/// Index of the last `-` in `s`, or `-1` if there is none.
pub open spec fn last_dash(s: Seq<char>) -> int
    decreases s.len(),
{
    if s.len() == 0 {
        -1
    } else if s[s.len() - 1] == '-' {
        s.len() - 1
    } else {
        last_dash(s.drop_last())
    }
}

/// Index of the first `-` in `s`, or `-1` if there is none.
pub open spec fn first_dash(s: Seq<char>) -> int
    decreases s.len(),
{
    if s.len() == 0 {
        -1
    } else if s[0] == '-' {
        0
    } else if first_dash(s.drop_first()) < 0 {
        -1
    } else {
        first_dash(s.drop_first()) + 1
    }
}

pub open spec fn is_digit(c: char) -> bool {
    48 <= c as u32 <= 57
}

pub open spec fn digit_val(c: char) -> int {
    c as u32 - 48
}

/// Meaning of a function-key token: `t` starts with `F` and has length at
/// least 2; its remaining one or two digits must denote a number in `1..=12`.
pub open spec fn fn_key_of(t: Seq<char>) -> Result<KeyCode, ChordSyntaxErrorV> {
    if t.len() == 2 && is_digit(t[1]) && 1 <= digit_val(t[1]) <= 12 {
        Ok(KeyCode::Function(digit_val(t[1]) as u8))
    } else if t.len() == 3 && is_digit(t[1]) && is_digit(t[2]) && 1 <= 10 * digit_val(t[1])
        + digit_val(t[2]) <= 12 {
        Ok(KeyCode::Function((10 * digit_val(t[1]) + digit_val(t[2])) as u8))
    } else {
        Err(ChordSyntaxErrorV::InvalidFunctionKey(t))
    }
}

/// Meaning of the code token, checked in priority order: the fixed
/// control-key name table, then a single literal character, then `F<n>`.
pub open spec fn code_of_token(t: Seq<char>) -> Result<KeyCode, ChordSyntaxErrorV> {
    if t.len() == 0 {
        Err(ChordSyntaxErrorV::MissingCode)
    } else if t == "Bs"@ {
        Ok(KeyCode::Backspace)
    } else if t == "Enter"@ {
        Ok(KeyCode::Enter)
    } else if t == "Left"@ {
        Ok(KeyCode::Left)
    } else if t == "Right"@ {
        Ok(KeyCode::Right)
    } else if t == "Up"@ {
        Ok(KeyCode::Up)
    } else if t == "Down"@ {
        Ok(KeyCode::Down)
    } else if t == "Home"@ {
        Ok(KeyCode::Home)
    } else if t == "End"@ {
        Ok(KeyCode::End)
    } else if t == "PageUp"@ {
        Ok(KeyCode::PageUp)
    } else if t == "PageDown"@ {
        Ok(KeyCode::PageDown)
    } else if t == "Tab"@ {
        Ok(KeyCode::Tab)
    } else if t == "BackTab"@ {
        Ok(KeyCode::BackTab)
    } else if t == "Del"@ {
        Ok(KeyCode::Delete)
    } else if t == "Insert"@ {
        Ok(KeyCode::Insert)
    } else if t == "Null"@ {
        Ok(KeyCode::Null)
    } else if t == "Esc"@ {
        Ok(KeyCode::Escape)
    } else if t.len() == 1 {
        Ok(KeyCode::Char(t[0]))
    } else if t[0] == 'F' {
        fn_key_of(t)
    } else {
        Err(ChordSyntaxErrorV::InvalidCode(t))
    }
}

/// One modifier token applied to the set accumulated so far.
pub open spec fn mod_step(acc: ModifierSet, tok: Seq<char>) -> Result<
    ModifierSet,
    ChordSyntaxErrorV,
> {
    if tok == "S"@ {
        if acc.shift {
            Err(ChordSyntaxErrorV::RepeatedModifier(tok))
        } else {
            Ok(ModifierSet { shift: true, ..acc })
        }
    } else if tok == "A"@ {
        if acc.alt {
            Err(ChordSyntaxErrorV::RepeatedModifier(tok))
        } else {
            Ok(ModifierSet { alt: true, ..acc })
        }
    } else if tok == "C"@ {
        if acc.control {
            Err(ChordSyntaxErrorV::RepeatedModifier(tok))
        } else {
            Ok(ModifierSet { control: true, ..acc })
        }
    } else {
        Err(ChordSyntaxErrorV::InvalidModifier(tok))
    }
}

/// Meaning of the modifier region `r` (the part of the chord string before
/// the last separator), processed token by token from the left.
pub open spec fn mods_of(r: Seq<char>, acc: ModifierSet) -> Result<
    ModifierSet,
    ChordSyntaxErrorV,
>
    decreases r.len(),
{
    let f = first_dash(r);
    if !(0 <= f < r.len()) {
        mod_step(acc, r)
    } else {
        match mod_step(acc, r.subrange(0, f)) {
            Err(e) => Err(e),
            Ok(acc2) => mods_of(r.subrange(f + 1, r.len() as int), acc2),
        }
    }
}

pub open spec fn no_modifiers() -> ModifierSet {
    ModifierSet { shift: false, alt: false, control: false }
}

/// The meaning of a whole chord string: the segment after the last `-` is the
/// code token, everything before it is modifier tokens.
pub open spec fn parse_spec(s: Seq<char>) -> Result<Chord, ChordSyntaxErrorV> {
    let l = last_dash(s);
    let tok = if l < 0 { s } else { s.subrange(l + 1, s.len() as int) };
    match code_of_token(tok) {
        Err(e) => Err(e),
        Ok(code) => {
            if l < 0 {
                Ok(Chord { code, modifiers: no_modifiers() })
            } else {
                match mods_of(s.subrange(0, l), no_modifiers()) {
                    Err(e) => Err(e),
                    Ok(m) => Ok(Chord { code, modifiers: m }),
                }
            }
        },
    }
}

/// The canonical token for a key code (the emitting direction of the fixed
/// control-key name table).
pub open spec fn code_token(code: KeyCode) -> Seq<char> {
    match code {
        KeyCode::Backspace => "Bs"@,
        KeyCode::Enter => "Enter"@,
        KeyCode::Left => "Left"@,
        KeyCode::Right => "Right"@,
        KeyCode::Up => "Up"@,
        KeyCode::Down => "Down"@,
        KeyCode::Home => "Home"@,
        KeyCode::End => "End"@,
        KeyCode::PageUp => "PageUp"@,
        KeyCode::PageDown => "PageDown"@,
        KeyCode::Tab => "Tab"@,
        KeyCode::BackTab => "BackTab"@,
        KeyCode::Delete => "Del"@,
        KeyCode::Insert => "Insert"@,
        KeyCode::Null => "Null"@,
        KeyCode::Escape => "Esc"@,
        KeyCode::Char(c) => seq![c],
        KeyCode::Function(n) => if n == 1 {
            "F1"@
        } else if n == 2 {
            "F2"@
        } else if n == 3 {
            "F3"@
        } else if n == 4 {
            "F4"@
        } else if n == 5 {
            "F5"@
        } else if n == 6 {
            "F6"@
        } else if n == 7 {
            "F7"@
        } else if n == 8 {
            "F8"@
        } else if n == 9 {
            "F9"@
        } else if n == 10 {
            "F10"@
        } else if n == 11 {
            "F11"@
        } else {
            "F12"@
        },
    }
}

/// The emitted modifier prefix, in the fixed order Shift, Alt, Control.
pub open spec fn mods_prefix(m: ModifierSet) -> Seq<char> {
    (if m.shift { "S-"@ } else { Seq::<char>::empty() }) + (if m.alt {
        "A-"@
    } else {
        Seq::<char>::empty()
    }) + (if m.control { "C-"@ } else { Seq::<char>::empty() })
}

/// The canonical textual form of a chord.
pub open spec fn format_spec(c: Chord) -> Seq<char> {
    mods_prefix(c.modifiers) + code_token(c.code)
}

/// Newtype over [`Chord`] for the textual boundary: it parses from and
/// emits the canonical chord grammar.
#[derive(Clone, Copy, Debug, PartialEq, Eq, Hash, Structural)]
pub struct RepresentableKeyEvent(pub Chord);

impl RepresentableKeyEvent {
    /// Parse a chord from its textual form; see [`parse_chord`].
    pub fn parse(s: &str) -> (r: Result<RepresentableKeyEvent, ChordSyntaxError>)
        ensures
            match r {
                Ok(k) => parse_spec(s@) == Ok::<Chord, ChordSyntaxErrorV>(k.0),
                Err(e) => parse_spec(s@) == Err::<Chord, ChordSyntaxErrorV>(e@),
            },
    {
        match parse_chord(s) {
            Ok(c) => Ok(RepresentableKeyEvent(c)),
            Err(e) => Err(e),
        }
    }

    /// The canonical textual form of the chord; see [`format_chord`].
    pub fn text(&self) -> (r: String)
        requires
            self.0.wf(),
        ensures
            r@ == format_spec(self.0),
    {
        format_chord(&self.0)
    }
}

impl core::str::FromStr for RepresentableKeyEvent {
    type Err = ChordSyntaxError;

    fn from_str(s: &str) -> Result<Self, Self::Err> {
        RepresentableKeyEvent::parse(s)
    }
}

proof fn lemma_code_token_props(code: KeyCode)
    requires
        code.wf(),
        code != KeyCode::Char('-'),
    ensures
        code_token(code).len() >= 1,
        forall|k: int| 0 <= k < code_token(code).len() ==> code_token(code)[k] != '-',
        code_of_token(code_token(code)) == Ok::<KeyCode, ChordSyntaxErrorV>(code),
{
    reveal_strlit("Bs");
    reveal_strlit("Enter");
    reveal_strlit("Left");
    reveal_strlit("Right");
    reveal_strlit("Up");
    reveal_strlit("Down");
    reveal_strlit("Home");
    reveal_strlit("End");
    reveal_strlit("PageUp");
    reveal_strlit("PageDown");
    reveal_strlit("Tab");
    reveal_strlit("BackTab");
    reveal_strlit("Del");
    reveal_strlit("Insert");
    reveal_strlit("Null");
    reveal_strlit("Esc");
    reveal_strlit("F1");
    reveal_strlit("F2");
    reveal_strlit("F3");
    reveal_strlit("F4");
    reveal_strlit("F5");
    reveal_strlit("F6");
    reveal_strlit("F7");
    reveal_strlit("F8");
    reveal_strlit("F9");
    reveal_strlit("F10");
    reveal_strlit("F11");
    reveal_strlit("F12");
    assert("Bs"@.len() == 2 && "Bs"@[0] == 'B');
    assert("Enter"@.len() == 5 && "Enter"@[0] == 'E');
    assert("Left"@.len() == 4 && "Left"@[0] == 'L');
    assert("Right"@.len() == 5 && "Right"@[0] == 'R');
    assert("Up"@.len() == 2 && "Up"@[0] == 'U');
    assert("Down"@.len() == 4 && "Down"@[0] == 'D');
    assert("Home"@.len() == 4 && "Home"@[0] == 'H');
    assert("End"@.len() == 3 && "End"@[0] == 'E' && "End"@[1] == 'n');
    assert("PageUp"@.len() == 6 && "PageUp"@[0] == 'P');
    assert("PageDown"@.len() == 8 && "PageDown"@[0] == 'P');
    assert("Tab"@.len() == 3 && "Tab"@[0] == 'T');
    assert("BackTab"@.len() == 7 && "BackTab"@[0] == 'B');
    assert("Del"@.len() == 3 && "Del"@[0] == 'D');
    assert("Insert"@.len() == 6 && "Insert"@[0] == 'I');
    assert("Null"@.len() == 4 && "Null"@[0] == 'N');
    assert("Esc"@.len() == 3 && "Esc"@[0] == 'E' && "Esc"@[1] == 's');
    assert("F1"@ =~= seq!['F', '1']);
    assert("F2"@ =~= seq!['F', '2']);
    assert("F3"@ =~= seq!['F', '3']);
    assert("F4"@ =~= seq!['F', '4']);
    assert("F5"@ =~= seq!['F', '5']);
    assert("F6"@ =~= seq!['F', '6']);
    assert("F7"@ =~= seq!['F', '7']);
    assert("F8"@ =~= seq!['F', '8']);
    assert("F9"@ =~= seq!['F', '9']);
    assert("F10"@ =~= seq!['F', '1', '0']);
    assert("F11"@ =~= seq!['F', '1', '1']);
    assert("F12"@ =~= seq!['F', '1', '2']);
    let t = code_token(code);
    match code {
        KeyCode::Backspace => assert(code_of_token(t) == Ok::<KeyCode, ChordSyntaxErrorV>(code)),
        KeyCode::Enter => assert(code_of_token(t) == Ok::<KeyCode, ChordSyntaxErrorV>(code)),
        KeyCode::Left => assert(code_of_token(t) == Ok::<KeyCode, ChordSyntaxErrorV>(code)),
        KeyCode::Right => assert(code_of_token(t) == Ok::<KeyCode, ChordSyntaxErrorV>(code)),
        KeyCode::Up => assert(code_of_token(t) == Ok::<KeyCode, ChordSyntaxErrorV>(code)),
        KeyCode::Down => assert(code_of_token(t) == Ok::<KeyCode, ChordSyntaxErrorV>(code)),
        KeyCode::Home => assert(code_of_token(t) == Ok::<KeyCode, ChordSyntaxErrorV>(code)),
        KeyCode::End => assert(code_of_token(t) == Ok::<KeyCode, ChordSyntaxErrorV>(code)),
        KeyCode::PageUp => assert(code_of_token(t) == Ok::<KeyCode, ChordSyntaxErrorV>(code)),
        KeyCode::PageDown => assert(code_of_token(t) == Ok::<KeyCode, ChordSyntaxErrorV>(code)),
        KeyCode::Tab => assert(code_of_token(t) == Ok::<KeyCode, ChordSyntaxErrorV>(code)),
        KeyCode::BackTab => assert(code_of_token(t) == Ok::<KeyCode, ChordSyntaxErrorV>(code)),
        KeyCode::Delete => assert(code_of_token(t) == Ok::<KeyCode, ChordSyntaxErrorV>(code)),
        KeyCode::Insert => assert(code_of_token(t) == Ok::<KeyCode, ChordSyntaxErrorV>(code)),
        KeyCode::Null => assert(code_of_token(t) == Ok::<KeyCode, ChordSyntaxErrorV>(code)),
        KeyCode::Escape => assert(code_of_token(t) == Ok::<KeyCode, ChordSyntaxErrorV>(code)),
        KeyCode::Char(c) => assert(code_of_token(t) == Ok::<KeyCode, ChordSyntaxErrorV>(code)),
        KeyCode::Function(n) => {
            if n == 1 {
                assert(code_of_token(t) == Ok::<KeyCode, ChordSyntaxErrorV>(code));
            } else if n == 2 {
                assert(code_of_token(t) == Ok::<KeyCode, ChordSyntaxErrorV>(code));
            } else if n == 3 {
                assert(code_of_token(t) == Ok::<KeyCode, ChordSyntaxErrorV>(code));
            } else if n == 4 {
                assert(code_of_token(t) == Ok::<KeyCode, ChordSyntaxErrorV>(code));
            } else if n == 5 {
                assert(code_of_token(t) == Ok::<KeyCode, ChordSyntaxErrorV>(code));
            } else if n == 6 {
                assert(code_of_token(t) == Ok::<KeyCode, ChordSyntaxErrorV>(code));
            } else if n == 7 {
                assert(code_of_token(t) == Ok::<KeyCode, ChordSyntaxErrorV>(code));
            } else if n == 8 {
                assert(code_of_token(t) == Ok::<KeyCode, ChordSyntaxErrorV>(code));
            } else if n == 9 {
                assert(code_of_token(t) == Ok::<KeyCode, ChordSyntaxErrorV>(code));
            } else if n == 10 {
                assert(code_of_token(t) == Ok::<KeyCode, ChordSyntaxErrorV>(code));
            } else if n == 11 {
                assert(code_of_token(t) == Ok::<KeyCode, ChordSyntaxErrorV>(code));
            } else {
                assert(code_of_token(t) == Ok::<KeyCode, ChordSyntaxErrorV>(code));
            }
        },
    }
}

proof fn lemma_last_dash_concat(p: Seq<char>, t: Seq<char>)
    requires
        p.len() >= 1,
        p[p.len() - 1] == '-',
        forall|k: int| 0 <= k < t.len() ==> t[k] != '-',
    ensures
        last_dash(p + t) == p.len() - 1,
    decreases t.len(),
{
    if t.len() == 0 {
        assert(p + t =~= p);
    } else {
        assert((p + t).drop_last() =~= p + t.drop_last());
        lemma_last_dash_concat(p, t.drop_last());
    }
}

proof fn lemma_mods_roundtrip(m: ModifierSet)
    requires
        m != no_modifiers(),
    ensures
        mods_prefix(m).len() >= 1,
        mods_prefix(m)[mods_prefix(m).len() - 1] == '-',
        mods_of(mods_prefix(m).subrange(0, mods_prefix(m).len() - 1), no_modifiers()) == Ok::<
            ModifierSet,
            ChordSyntaxErrorV,
        >(m),
{
    reveal_strlit("S-");
    reveal_strlit("A-");
    reveal_strlit("C-");
    reveal_strlit("S");
    reveal_strlit("A");
    reveal_strlit("C");
    assert("S-"@ =~= seq!['S', '-']);
    assert("A-"@ =~= seq!['A', '-']);
    assert("C-"@ =~= seq!['C', '-']);
    assert("S"@ =~= seq!['S']);
    assert("A"@ =~= seq!['A']);
    assert("C"@ =~= seq!['C']);
    let p = mods_prefix(m);
    let region = p.subrange(0, p.len() - 1);
    if m.shift && !m.alt && !m.control {
        assert(region =~= "S"@);
        lemma_first_dash_none(region);
    } else if !m.shift && m.alt && !m.control {
        assert(region =~= "A"@);
        lemma_first_dash_none(region);
    } else if !m.shift && !m.alt && m.control {
        assert(region =~= "C"@);
        lemma_first_dash_none(region);
    } else if m.shift && m.alt && !m.control {
        assert(region =~= seq!['S', '-', 'A']);
        lemma_first_dash_found(region, 1);
        assert(region.subrange(0, 1) =~= "S"@);
        let rest = region.subrange(2, 3);
        assert(rest =~= "A"@);
        lemma_first_dash_none(rest);
        assert(mod_step(no_modifiers(), region.subrange(0, 1)) == Ok::<
            ModifierSet,
            ChordSyntaxErrorV,
        >(ModifierSet { shift: true, alt: false, control: false }));
        assert(mods_of(rest, ModifierSet { shift: true, alt: false, control: false })
            == Ok::<ModifierSet, ChordSyntaxErrorV>(m));
    } else if m.shift && !m.alt && m.control {
        assert(region =~= seq!['S', '-', 'C']);
        lemma_first_dash_found(region, 1);
        assert(region.subrange(0, 1) =~= "S"@);
        let rest = region.subrange(2, 3);
        assert(rest =~= "C"@);
        lemma_first_dash_none(rest);
        assert(mod_step(no_modifiers(), region.subrange(0, 1)) == Ok::<
            ModifierSet,
            ChordSyntaxErrorV,
        >(ModifierSet { shift: true, alt: false, control: false }));
        assert(mods_of(rest, ModifierSet { shift: true, alt: false, control: false })
            == Ok::<ModifierSet, ChordSyntaxErrorV>(m));
    } else if !m.shift && m.alt && m.control {
        assert(region =~= seq!['A', '-', 'C']);
        lemma_first_dash_found(region, 1);
        assert(region.subrange(0, 1) =~= "A"@);
        let rest = region.subrange(2, 3);
        assert(rest =~= "C"@);
        lemma_first_dash_none(rest);
        assert(mod_step(no_modifiers(), region.subrange(0, 1)) == Ok::<
            ModifierSet,
            ChordSyntaxErrorV,
        >(ModifierSet { shift: false, alt: true, control: false }));
        assert(mods_of(rest, ModifierSet { shift: false, alt: true, control: false })
            == Ok::<ModifierSet, ChordSyntaxErrorV>(m));
    } else {
        assert(region =~= seq!['S', '-', 'A', '-', 'C']);
        lemma_first_dash_found(region, 1);
        assert(region.subrange(0, 1) =~= "S"@);
        let rest = region.subrange(2, 5);
        assert(rest =~= seq!['A', '-', 'C']);
        lemma_first_dash_found(rest, 1);
        assert(rest.subrange(0, 1) =~= "A"@);
        let rest2 = rest.subrange(2, 3);
        assert(rest2 =~= "C"@);
        lemma_first_dash_none(rest2);
        assert(mods_of(rest2, ModifierSet { shift: true, alt: true, control: false })
            == Ok::<ModifierSet, ChordSyntaxErrorV>(m));
        assert(mods_of(rest, ModifierSet { shift: true, alt: false, control: false })
            == Ok::<ModifierSet, ChordSyntaxErrorV>(m));
    }
}

/// Parsing never constructs an ill-formed chord: a function key comes out
/// of the grammar only with a number in `1..=12`.
pub proof fn lemma_parse_spec_wf(s: Seq<char>)
    ensures
        parse_spec(s) matches Ok(c) ==> c.wf(),
{
}

/// The round-trip law of the codec: parsing the canonical textual form of any
/// well-formed chord gives the chord back. The one code that has no
/// parseable form is `Char('-')`, whose character collides with the token
/// separator.
pub proof fn lemma_parse_format_roundtrip(c: Chord)
    requires
        c.wf(),
        c.code != KeyCode::Char('-'),
    ensures
        parse_spec(format_spec(c)) == Ok::<Chord, ChordSyntaxErrorV>(c),
{
    let p = mods_prefix(c.modifiers);
    let tok = code_token(c.code);
    let s = format_spec(c);
    lemma_code_token_props(c.code);
    if c.modifiers == no_modifiers() {
        assert(p =~= Seq::<char>::empty());
        assert(s =~= tok);
        lemma_last_dash_none(s);
    } else {
        lemma_mods_roundtrip(c.modifiers);
        lemma_last_dash_concat(p, tok);
        let l = last_dash(s);
        assert(l == p.len() - 1);
        assert(s.subrange(l + 1, s.len() as int) =~= tok);
        assert(s.subrange(0, l) =~= p.subrange(0, p.len() - 1));
    }
}

proof fn lemma_last_dash_found(s: Seq<char>, i: int)
    requires
        0 <= i < s.len(),
        s[i] == '-',
        forall|j: int| i < j < s.len() ==> s[j] != '-',
    ensures
        last_dash(s) == i,
    decreases s.len(),
{
    if i < s.len() - 1 {
        lemma_last_dash_found(s.drop_last(), i);
    }
}

proof fn lemma_last_dash_none(s: Seq<char>)
    requires
        forall|j: int| 0 <= j < s.len() ==> s[j] != '-',
    ensures
        last_dash(s) == -1,
    decreases s.len(),
{
    if s.len() > 0 {
        lemma_last_dash_none(s.drop_last());
    }
}

proof fn lemma_first_dash_found(s: Seq<char>, i: int)
    requires
        0 <= i < s.len(),
        s[i] == '-',
        forall|j: int| 0 <= j < i ==> s[j] != '-',
    ensures
        first_dash(s) == i,
    decreases s.len(),
{
    if i > 0 {
        lemma_first_dash_found(s.drop_first(), i - 1);
    }
}

proof fn lemma_first_dash_none(s: Seq<char>)
    requires
        forall|j: int| 0 <= j < s.len() ==> s[j] != '-',
    ensures
        first_dash(s) == -1,
    decreases s.len(),
{
    if s.len() > 0 {
        lemma_first_dash_none(s.drop_first());
    }
}

/// Character-sequence equality of two string slices, decided by scanning.
pub fn str_eq(a: &str, b: &str) -> (r: bool)
    ensures
        r == (a@ == b@),
{
    let n = a.unicode_len();
    let m = b.unicode_len();
    if n != m {
        return false;
    }
    let mut i: usize = 0;
    while i < n
        invariant
            i <= n,
            n == a@.len(),
            n == b@.len(),
            forall|j: int| 0 <= j < i ==> a@[j] == b@[j],
        decreases n - i,
    {
        if a.get_char(i) != b.get_char(i) {
            return false;
        }
        i += 1;
    }
    proof {
        assert(a@ =~= b@);
    }
    true
}

/// Position of the last `-` in `s`, if any.
fn find_last_dash(s: &str) -> (r: Option<usize>)
    ensures
        match r {
            Some(i) => i < s@.len() && last_dash(s@) == i,
            None => last_dash(s@) == -1,
        },
{
    let n = s.unicode_len();
    let mut i: usize = n;
    while i > 0
        invariant
            i <= n,
            n == s@.len(),
            forall|j: int| i <= j < n ==> s@[j] != '-',
        decreases i,
    {
        i -= 1;
        if s.get_char(i) == '-' {
            proof {
                lemma_last_dash_found(s@, i as int);
            }
            return Some(i);
        }
    }
    proof {
        lemma_last_dash_none(s@);
    }
    None
}

/// Position of the first `-` in `s[start..end)`, if any.
fn find_first_dash_in(s: &str, start: usize, end: usize) -> (r: Option<usize>)
    requires
        start <= end <= s@.len(),
    ensures
        match r {
            Some(i) => start <= i < end && first_dash(s@.subrange(start as int, end as int)) == i
                - start,
            None => first_dash(s@.subrange(start as int, end as int)) == -1,
        },
{
    let mut i: usize = start;
    while i < end
        invariant
            start <= i <= end <= s@.len(),
            forall|j: int| start <= j < i ==> s@[j] != '-',
        decreases end - i,
    {
        if s.get_char(i) == '-' {
            proof {
                lemma_first_dash_found(s@.subrange(start as int, end as int), i - start);
            }
            return Some(i);
        }
        i += 1;
    }
    proof {
        lemma_first_dash_none(s@.subrange(start as int, end as int));
    }
    None
}

/// Decide the code token, mirroring [`code_of_token`].
fn code_of(t: &str) -> (r: Result<KeyCode, ChordSyntaxError>)
    ensures
        match r {
            Ok(code) => code_of_token(t@) == Ok::<KeyCode, ChordSyntaxErrorV>(code),
            Err(e) => code_of_token(t@) == Err::<KeyCode, ChordSyntaxErrorV>(e@),
        },
{
    let n = t.unicode_len();
    if n == 0 {
        Err(ChordSyntaxError::MissingCode)
    } else if str_eq(t, "Bs") {
        Ok(KeyCode::Backspace)
    } else if str_eq(t, "Enter") {
        Ok(KeyCode::Enter)
    } else if str_eq(t, "Left") {
        Ok(KeyCode::Left)
    } else if str_eq(t, "Right") {
        Ok(KeyCode::Right)
    } else if str_eq(t, "Up") {
        Ok(KeyCode::Up)
    } else if str_eq(t, "Down") {
        Ok(KeyCode::Down)
    } else if str_eq(t, "Home") {
        Ok(KeyCode::Home)
    } else if str_eq(t, "End") {
        Ok(KeyCode::End)
    } else if str_eq(t, "PageUp") {
        Ok(KeyCode::PageUp)
    } else if str_eq(t, "PageDown") {
        Ok(KeyCode::PageDown)
    } else if str_eq(t, "Tab") {
        Ok(KeyCode::Tab)
    } else if str_eq(t, "BackTab") {
        Ok(KeyCode::BackTab)
    } else if str_eq(t, "Del") {
        Ok(KeyCode::Delete)
    } else if str_eq(t, "Insert") {
        Ok(KeyCode::Insert)
    } else if str_eq(t, "Null") {
        Ok(KeyCode::Null)
    } else if str_eq(t, "Esc") {
        Ok(KeyCode::Escape)
    } else if n == 1 {
        Ok(KeyCode::Char(t.get_char(0)))
    } else if t.get_char(0) == 'F' {
        if n == 2 {
            let d = t.get_char(1);
            let v = d as u32;
            if 48 <= v && v <= 57 && 1 <= v - 48 && v - 48 <= 12 {
                Ok(KeyCode::Function((v - 48) as u8))
            } else {
                Err(ChordSyntaxError::InvalidFunctionKey(String::from_str(t)))
            }
        } else if n == 3 {
            let v1 = t.get_char(1) as u32;
            let v2 = t.get_char(2) as u32;
            if 48 <= v1 && v1 <= 57 && 48 <= v2 && v2 <= 57 {
                let val = 10 * (v1 - 48) + (v2 - 48);
                if 1 <= val && val <= 12 {
                    Ok(KeyCode::Function(val as u8))
                } else {
                    Err(ChordSyntaxError::InvalidFunctionKey(String::from_str(t)))
                }
            } else {
                Err(ChordSyntaxError::InvalidFunctionKey(String::from_str(t)))
            }
        } else {
            Err(ChordSyntaxError::InvalidFunctionKey(String::from_str(t)))
        }
    } else {
        Err(ChordSyntaxError::InvalidCode(String::from_str(t)))
    }
}

/// Apply one modifier token, mirroring [`mod_step`].
fn mod_step_exec(tok: &str, acc: ModifierSet) -> (r: Result<ModifierSet, ChordSyntaxError>)
    ensures
        match r {
            Ok(m) => mod_step(acc, tok@) == Ok::<ModifierSet, ChordSyntaxErrorV>(m),
            Err(e) => mod_step(acc, tok@) == Err::<ModifierSet, ChordSyntaxErrorV>(e@),
        },
{
    if str_eq(tok, "S") {
        if acc.shift {
            Err(ChordSyntaxError::RepeatedModifier(String::from_str(tok)))
        } else {
            Ok(ModifierSet { shift: true, ..acc })
        }
    } else if str_eq(tok, "A") {
        if acc.alt {
            Err(ChordSyntaxError::RepeatedModifier(String::from_str(tok)))
        } else {
            Ok(ModifierSet { alt: true, ..acc })
        }
    } else if str_eq(tok, "C") {
        if acc.control {
            Err(ChordSyntaxError::RepeatedModifier(String::from_str(tok)))
        } else {
            Ok(ModifierSet { control: true, ..acc })
        }
    } else {
        Err(ChordSyntaxError::InvalidModifier(String::from_str(tok)))
    }
}

/// Process the modifier region `s[start..end)`, mirroring [`mods_of`].
fn parse_mods(s: &str, start: usize, end: usize, acc: ModifierSet) -> (r: Result<
    ModifierSet,
    ChordSyntaxError,
>)
    requires
        start <= end <= s@.len(),
    ensures
        match r {
            Ok(m) => mods_of(s@.subrange(start as int, end as int), acc) == Ok::<
                ModifierSet,
                ChordSyntaxErrorV,
            >(m),
            Err(e) => mods_of(s@.subrange(start as int, end as int), acc) == Err::<
                ModifierSet,
                ChordSyntaxErrorV,
            >(e@),
        },
    decreases end - start,
{
    let ghost region = s@.subrange(start as int, end as int);
    match find_first_dash_in(s, start, end) {
        None => {
            let tok = s.substring_char(start, end);
            proof {
                assert(tok@ =~= region);
            }
            mod_step_exec(tok, acc)
        },
        Some(d) => {
            let tok = s.substring_char(start, d);
            proof {
                assert(tok@ =~= region.subrange(0, d - start));
            }
            match mod_step_exec(tok, acc) {
                Err(e) => Err(e),
                Ok(acc2) => {
                    proof {
                        assert(s@.subrange(d + 1, end as int) =~= region.subrange(
                            d - start + 1,
                            region.len() as int,
                        ));
                    }
                    parse_mods(s, d + 1, end, acc2)
                },
            }
        },
    }
}

/// Parse a chord from its textual form.
///
/// The result is pinned by [`parse_spec`] on the input's characters: the
/// chord on success, and the exact error classification on failure.
pub fn parse_chord(s: &str) -> (r: Result<Chord, ChordSyntaxError>)
    ensures
        match r {
            Ok(c) => parse_spec(s@) == Ok::<Chord, ChordSyntaxErrorV>(c) && c.wf(),
            Err(e) => parse_spec(s@) == Err::<Chord, ChordSyntaxErrorV>(e@),
        },
{
    proof {
        lemma_parse_spec_wf(s@);
    }
    let n = s.unicode_len();
    match find_last_dash(s) {
        None => {
            let code = match code_of(s) {
                Ok(code) => code,
                Err(e) => {
                    return Err(e);
                },
            };
            Ok(Chord { code, modifiers: ModifierSet::none() })
        },
        Some(l) => {
            let tok = s.substring_char(l + 1, n);
            proof {
                assert(tok@ =~= s@.subrange(l + 1, s@.len() as int));
            }
            let code = match code_of(tok) {
                Ok(code) => code,
                Err(e) => {
                    return Err(e);
                },
            };
            match parse_mods(s, 0, l, ModifierSet::none()) {
                Err(e) => Err(e),
                Ok(m) => Ok(Chord { code, modifiers: m }),
            }
        },
    }
}

/// Relies on `String::push`: appends exactly the one given character.
#[verifier::external_body]
fn push_char(s: &mut String, c: char)
    ensures
        final(s)@ == old(s)@.push(c),
{
    s.push(c);
}

/// Emit the canonical textual form of a chord: the present modifiers in the
/// fixed order Shift, Alt, Control, each as its letter followed by `-`, then
/// the code token.
pub fn format_chord(c: &Chord) -> (r: String)
    requires
        c.wf(),
    ensures
        r@ == format_spec(*c),
{
    let mut r = String::new();
    if c.modifiers.shift {
        r.append("S-");
    }
    if c.modifiers.alt {
        r.append("A-");
    }
    if c.modifiers.control {
        r.append("C-");
    }
    proof {
        assert(r@ =~= mods_prefix(c.modifiers));
    }
    match c.code {
        KeyCode::Backspace => r.append("Bs"),
        KeyCode::Enter => r.append("Enter"),
        KeyCode::Left => r.append("Left"),
        KeyCode::Right => r.append("Right"),
        KeyCode::Up => r.append("Up"),
        KeyCode::Down => r.append("Down"),
        KeyCode::Home => r.append("Home"),
        KeyCode::End => r.append("End"),
        KeyCode::PageUp => r.append("PageUp"),
        KeyCode::PageDown => r.append("PageDown"),
        KeyCode::Tab => r.append("Tab"),
        KeyCode::BackTab => r.append("BackTab"),
        KeyCode::Delete => r.append("Del"),
        KeyCode::Insert => r.append("Insert"),
        KeyCode::Null => r.append("Null"),
        KeyCode::Escape => r.append("Esc"),
        KeyCode::Char(ch) => push_char(&mut r, ch),
        KeyCode::Function(n) => {
            if n == 1 {
                r.append("F1");
            } else if n == 2 {
                r.append("F2");
            } else if n == 3 {
                r.append("F3");
            } else if n == 4 {
                r.append("F4");
            } else if n == 5 {
                r.append("F5");
            } else if n == 6 {
                r.append("F6");
            } else if n == 7 {
                r.append("F7");
            } else if n == 8 {
                r.append("F8");
            } else if n == 9 {
                r.append("F9");
            } else if n == 10 {
                r.append("F10");
            } else if n == 11 {
                r.append("F11");
            } else {
                r.append("F12");
            }
        },
    }
    proof {
        assert(r@ =~= format_spec(*c));
    }
    r
}

} // verus!

