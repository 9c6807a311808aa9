//! The built-in, per-mode default binding tables, constructed
//! deterministically with no runtime input. Select mode is derived from
//! Normal mode by copying it and overlaying a fixed list of overrides;
//! Insert mode is built independently.

use vstd::prelude::*;
use vstd::map::*;
use crate::chord::Chord;
use crate::chord::KeyCode;
use crate::chord::alt;
use crate::chord::alt_spec;
use crate::chord::ctrl;
use crate::chord::ctrl_spec;
use crate::chord::key;
use crate::chord::key_spec;
use crate::chord::plain;
use crate::chord::plain_spec;
use crate::mode::Mode;
use crate::table::KeyTable;
use crate::table::entries_map;
use crate::table::lemma_entries_map_concat;
use vstd::assert_seqs_equal;

verus! {

/// An opaque reference to an editor-defined operation. The core only ever
/// compares these by identity; executing them is outside its scope.
#[derive(Clone, Copy, Debug, PartialEq, Eq, Hash, Structural)]
pub enum Action {

    MoveCharLeft,
    MoveLineDown,
    MoveLineUp,
    MoveCharRight,
    FindTillChar,
    FindNextChar,
    TillPrevChar,
    FindPrevChar,
    Replace,
    ReplaceWithYanked,
    MoveLineStart,
    MoveLineEnd,
    MoveNextWordStart,
    MovePrevWordStart,
    MoveNextWordEnd,
    SelectMode,
    GotoMode,
    CommandMode,
    InsertMode,
    PrependToLine,
    AppendMode,
    AppendToLine,
    OpenBelow,
    OpenAbove,
    DeleteSelection,
    ChangeSelection,
    SelectRegex,
    SplitSelectionOnNewline,
    SplitSelection,
    CollapseSelection,
    FlipSelections,
    SelectAll,
    SelectLine,
    ExtendLine,
    MatchBrackets,
    LeftBracketMode,
    RightBracketMode,
    Search,
    SearchNext,
    ExtendSearchNext,
    SearchSelection,
    Undo,
    Redo,
    Yank,
    PasteAfter,
    PasteBefore,
    Indent,
    Unindent,
    FormatSelections,
    JoinSelections,
    KeepSelections,
    KeepPrimarySelection,
    NormalMode,
    PageUp,
    PageDown,
    HalfPageUp,
    HalfPageDown,
    WindowMode,
    ToggleComments,
    Hover,
    JumpForward,
    JumpBackward,
    SpaceMode,
    ViewMode,
    SelectRegister,
    ExtendCharLeft,
    ExtendLineDown,
    ExtendLineUp,
    ExtendCharRight,
    ExtendNextWordStart,
    ExtendPrevWordStart,
    ExtendNextWordEnd,
    ExtendTillChar,
    ExtendNextChar,
    ExtendTillPrevChar,
    ExtendPrevChar,
    ExtendLineStart,
    ExtendLineEnd,
    ExitSelectMode,
    DeleteCharBackward,
    DeleteCharForward,
    InsertNewline,
    InsertTab,
    Completion,
    DeleteWordBackward,
}

/// A per-mode mapping from chords to actions.
pub type BindingTable = KeyTable<Action>;

/// The default binding tables of all modes.
#[derive(Debug, PartialEq, Eq)]
pub struct BindingSet {
    pub normal: BindingTable,
    pub select: BindingTable,
    pub insert: BindingTable,
}

/// The fixed specification list of the Normal-mode bindings, in insertion
/// order; a later entry for a chord already present rebinds it.
pub open spec fn normal_entries() -> Seq<(Chord, Action)> {
    seq![
        (key_spec('h'), Action::MoveCharLeft),
        (key_spec('j'), Action::MoveLineDown),
        (key_spec('k'), Action::MoveLineUp),
        (key_spec('l'), Action::MoveCharRight),
        (plain_spec(KeyCode::Left), Action::MoveCharLeft),
        (plain_spec(KeyCode::Down), Action::MoveLineDown),
        (plain_spec(KeyCode::Up), Action::MoveLineUp),
        (plain_spec(KeyCode::Right), Action::MoveCharRight),
        (key_spec('t'), Action::FindTillChar),
        (key_spec('f'), Action::FindNextChar),
        (key_spec('T'), Action::TillPrevChar),
        (key_spec('F'), Action::FindPrevChar),
        (key_spec('r'), Action::Replace),
        (key_spec('R'), Action::ReplaceWithYanked),
        (plain_spec(KeyCode::Home), Action::MoveLineStart),
        (plain_spec(KeyCode::End), Action::MoveLineEnd),
        (key_spec('w'), Action::MoveNextWordStart),
        (key_spec('b'), Action::MovePrevWordStart),
        (key_spec('e'), Action::MoveNextWordEnd),
        (key_spec('v'), Action::SelectMode),
        (key_spec('g'), Action::GotoMode),
        (key_spec(':'), Action::CommandMode),
        (key_spec('i'), Action::InsertMode),
        (key_spec('I'), Action::PrependToLine),
        (key_spec('a'), Action::AppendMode),
        (key_spec('A'), Action::AppendToLine),
        (key_spec('o'), Action::OpenBelow),
        (key_spec('O'), Action::OpenAbove),
        (key_spec('d'), Action::DeleteSelection),
        (key_spec('c'), Action::ChangeSelection),
        (key_spec('s'), Action::SelectRegex),
        (alt_spec('s'), Action::SplitSelectionOnNewline),
        (key_spec('S'), Action::SplitSelection),
        (key_spec(';'), Action::CollapseSelection),
        (alt_spec(';'), Action::FlipSelections),
        (key_spec('%'), Action::SelectAll),
        (key_spec('x'), Action::SelectLine),
        (key_spec('X'), Action::ExtendLine),
        (key_spec('m'), Action::MatchBrackets),
        (key_spec('['), Action::LeftBracketMode),
        (key_spec(']'), Action::RightBracketMode),
        (key_spec('/'), Action::Search),
        (key_spec('n'), Action::SearchNext),
        (key_spec('N'), Action::ExtendSearchNext),
        (key_spec('*'), Action::SearchSelection),
        (key_spec('u'), Action::Undo),
        (key_spec('U'), Action::Redo),
        (key_spec('y'), Action::Yank),
        (key_spec('p'), Action::PasteAfter),
        (key_spec('P'), Action::PasteBefore),
        (key_spec('>'), Action::Indent),
        (key_spec('<'), Action::Unindent),
        (key_spec('='), Action::FormatSelections),
        (key_spec('J'), Action::JoinSelections),
        (key_spec('K'), Action::KeepSelections),
        (key_spec(' '), Action::KeepPrimarySelection),
        (plain_spec(KeyCode::Escape), Action::NormalMode),
        (plain_spec(KeyCode::PageUp), Action::PageUp),
        (ctrl_spec('b'), Action::PageUp),
        (plain_spec(KeyCode::PageDown), Action::PageDown),
        (ctrl_spec('f'), Action::PageDown),
        (ctrl_spec('u'), Action::HalfPageUp),
        (ctrl_spec('d'), Action::HalfPageDown),
        (ctrl_spec('w'), Action::WindowMode),
        (ctrl_spec('c'), Action::ToggleComments),
        (key_spec('K'), Action::Hover),
        (plain_spec(KeyCode::Tab), Action::JumpForward),
        (ctrl_spec('o'), Action::JumpBackward),
        (key_spec(' '), Action::SpaceMode),
        (key_spec('z'), Action::ViewMode),
        (key_spec('"'), Action::SelectRegister)
    ]
}

/// The fixed list of Select-mode overrides and additions, overlaid on a copy
/// of the Normal-mode table.
pub open spec fn select_overrides() -> Seq<(Chord, Action)> {
    seq![
        (key_spec('h'), Action::ExtendCharLeft),
        (key_spec('j'), Action::ExtendLineDown),
        (key_spec('k'), Action::ExtendLineUp),
        (key_spec('l'), Action::ExtendCharRight),
        (plain_spec(KeyCode::Left), Action::ExtendCharLeft),
        (plain_spec(KeyCode::Down), Action::ExtendLineDown),
        (plain_spec(KeyCode::Up), Action::ExtendLineUp),
        (plain_spec(KeyCode::Right), Action::ExtendCharRight),
        (key_spec('w'), Action::ExtendNextWordStart),
        (key_spec('b'), Action::ExtendPrevWordStart),
        (key_spec('e'), Action::ExtendNextWordEnd),
        (key_spec('t'), Action::ExtendTillChar),
        (key_spec('f'), Action::ExtendNextChar),
        (key_spec('T'), Action::ExtendTillPrevChar),
        (key_spec('F'), Action::ExtendPrevChar),
        (plain_spec(KeyCode::Home), Action::ExtendLineStart),
        (plain_spec(KeyCode::End), Action::ExtendLineEnd),
        (plain_spec(KeyCode::Escape), Action::ExitSelectMode)
    ]
}

/// The fixed specification list of the Insert-mode bindings.
pub open spec fn insert_entries() -> Seq<(Chord, Action)> {
    seq![
        (plain_spec(KeyCode::Escape), Action::NormalMode),
        (plain_spec(KeyCode::Backspace), Action::DeleteCharBackward),
        (plain_spec(KeyCode::Delete), Action::DeleteCharForward),
        (plain_spec(KeyCode::Enter), Action::InsertNewline),
        (plain_spec(KeyCode::Tab), Action::InsertTab),
        (ctrl_spec('x'), Action::Completion),
        (ctrl_spec('w'), Action::DeleteWordBackward)
    ]
}

/// The Normal-mode default table as a mapping.
pub open spec fn normal_map() -> Map<Chord, Action> {
    entries_map(normal_entries())
}

/// The Select-mode default table as a mapping.
pub open spec fn select_map() -> Map<Chord, Action> {
    entries_map(normal_entries() + select_overrides())
}

/// The Select-mode overrides alone, as a mapping.
pub open spec fn override_map() -> Map<Chord, Action> {
    entries_map(select_overrides())
}

/// The Insert-mode default table as a mapping.
pub open spec fn insert_map() -> Map<Chord, Action> {
    entries_map(insert_entries())
}

impl BindingSet {
    /// A binding set holds the default tables when each mode's entry list is
    /// exactly the fixed specification list for that mode.
    pub open spec fn is_default(self) -> bool {
        &&& self.normal.entries@ == normal_entries()
        &&& self.select.entries@ == normal_entries() + select_overrides()
        &&& self.insert.entries@ == insert_entries()
    }

    /// The table of the given mode, as a mapping.
    pub open spec fn map_for(self, mode: Mode) -> Map<Chord, Action> {
        match mode {
            Mode::Normal => self.normal@,
            Mode::Select => self.select@,
            Mode::Insert => self.insert@,
        }
    }

    /// The table of the given mode.
    pub fn table(&self, mode: Mode) -> (r: &BindingTable)
        ensures
            r@ == self.map_for(mode),
    {
        match mode {
            Mode::Normal => &self.normal,
            Mode::Select => &self.select,
            Mode::Insert => &self.insert,
        }
    }

    /// Rebind a chord in the Select-mode table alone: the other modes'
    /// tables are untouched.
    pub fn rebind_select(&mut self, c: Chord, a: Action)
        ensures
            final(self).select@ == old(self).select@.insert(c, a),
            final(self).normal == old(self).normal,
            final(self).insert == old(self).insert,
    {
        self.select.insert(c, a);
    }
}

#[verifier::rlimit(100)]
fn build_normal() -> (r: BindingTable)
    ensures
        r.entries@ == normal_entries(),
{
    let mut normal = KeyTable::<Action>::new();

    normal.insert(key('h'), Action::MoveCharLeft);
    normal.insert(key('j'), Action::MoveLineDown);
    normal.insert(key('k'), Action::MoveLineUp);
    normal.insert(key('l'), Action::MoveCharRight);
    normal.insert(plain(KeyCode::Left), Action::MoveCharLeft);
    normal.insert(plain(KeyCode::Down), Action::MoveLineDown);
    normal.insert(plain(KeyCode::Up), Action::MoveLineUp);
    normal.insert(plain(KeyCode::Right), Action::MoveCharRight);
    normal.insert(key('t'), Action::FindTillChar);
    normal.insert(key('f'), Action::FindNextChar);
    normal.insert(key('T'), Action::TillPrevChar);
    normal.insert(key('F'), Action::FindPrevChar);
    normal.insert(key('r'), Action::Replace);
    normal.insert(key('R'), Action::ReplaceWithYanked);
    normal.insert(plain(KeyCode::Home), Action::MoveLineStart);
    normal.insert(plain(KeyCode::End), Action::MoveLineEnd);
    normal.insert(key('w'), Action::MoveNextWordStart);
    normal.insert(key('b'), Action::MovePrevWordStart);
    normal.insert(key('e'), Action::MoveNextWordEnd);
    normal.insert(key('v'), Action::SelectMode);
    normal.insert(key('g'), Action::GotoMode);
    normal.insert(key(':'), Action::CommandMode);
    normal.insert(key('i'), Action::InsertMode);
    normal.insert(key('I'), Action::PrependToLine);
    normal.insert(key('a'), Action::AppendMode);
    normal.insert(key('A'), Action::AppendToLine);
    normal.insert(key('o'), Action::OpenBelow);
    normal.insert(key('O'), Action::OpenAbove);
    normal.insert(key('d'), Action::DeleteSelection);
    normal.insert(key('c'), Action::ChangeSelection);
    normal.insert(key('s'), Action::SelectRegex);
    normal.insert(alt('s'), Action::SplitSelectionOnNewline);
    normal.insert(key('S'), Action::SplitSelection);
    normal.insert(key(';'), Action::CollapseSelection);
    normal.insert(alt(';'), Action::FlipSelections);
    normal.insert(key('%'), Action::SelectAll);
    normal.insert(key('x'), Action::SelectLine);
    normal.insert(key('X'), Action::ExtendLine);
    normal.insert(key('m'), Action::MatchBrackets);
    normal.insert(key('['), Action::LeftBracketMode);
    normal.insert(key(']'), Action::RightBracketMode);
    normal.insert(key('/'), Action::Search);
    normal.insert(key('n'), Action::SearchNext);
    normal.insert(key('N'), Action::ExtendSearchNext);
    normal.insert(key('*'), Action::SearchSelection);
    normal.insert(key('u'), Action::Undo);
    normal.insert(key('U'), Action::Redo);
    normal.insert(key('y'), Action::Yank);
    normal.insert(key('p'), Action::PasteAfter);
    normal.insert(key('P'), Action::PasteBefore);
    normal.insert(key('>'), Action::Indent);
    normal.insert(key('<'), Action::Unindent);
    normal.insert(key('='), Action::FormatSelections);
    normal.insert(key('J'), Action::JoinSelections);
    normal.insert(key('K'), Action::KeepSelections);
    normal.insert(key(' '), Action::KeepPrimarySelection);
    normal.insert(plain(KeyCode::Escape), Action::NormalMode);
    normal.insert(plain(KeyCode::PageUp), Action::PageUp);
    normal.insert(ctrl('b'), Action::PageUp);
    normal.insert(plain(KeyCode::PageDown), Action::PageDown);
    normal.insert(ctrl('f'), Action::PageDown);
    normal.insert(ctrl('u'), Action::HalfPageUp);
    normal.insert(ctrl('d'), Action::HalfPageDown);
    normal.insert(ctrl('w'), Action::WindowMode);
    normal.insert(ctrl('c'), Action::ToggleComments);
    normal.insert(key('K'), Action::Hover);
    normal.insert(plain(KeyCode::Tab), Action::JumpForward);
    normal.insert(ctrl('o'), Action::JumpBackward);
    normal.insert(key(' '), Action::SpaceMode);
    normal.insert(key('z'), Action::ViewMode);
    normal.insert(key('"'), Action::SelectRegister);
    proof {
        assert_seqs_equal!(normal.entries@, normal_entries());
    }
    normal
}

#[verifier::rlimit(100)]
fn build_select(normal: &BindingTable) -> (r: BindingTable)
    requires
        normal.entries@ == normal_entries(),
    ensures
        r.entries@ == normal_entries() + select_overrides(),
{
    let mut select = normal.duplicate();

    select.insert(key('h'), Action::ExtendCharLeft);
    select.insert(key('j'), Action::ExtendLineDown);
    select.insert(key('k'), Action::ExtendLineUp);
    select.insert(key('l'), Action::ExtendCharRight);
    select.insert(plain(KeyCode::Left), Action::ExtendCharLeft);
    select.insert(plain(KeyCode::Down), Action::ExtendLineDown);
    select.insert(plain(KeyCode::Up), Action::ExtendLineUp);
    select.insert(plain(KeyCode::Right), Action::ExtendCharRight);
    select.insert(key('w'), Action::ExtendNextWordStart);
    select.insert(key('b'), Action::ExtendPrevWordStart);
    select.insert(key('e'), Action::ExtendNextWordEnd);
    select.insert(key('t'), Action::ExtendTillChar);
    select.insert(key('f'), Action::ExtendNextChar);
    select.insert(key('T'), Action::ExtendTillPrevChar);
    select.insert(key('F'), Action::ExtendPrevChar);
    select.insert(plain(KeyCode::Home), Action::ExtendLineStart);
    select.insert(plain(KeyCode::End), Action::ExtendLineEnd);
    select.insert(plain(KeyCode::Escape), Action::ExitSelectMode);
    proof {
        assert_seqs_equal!(select.entries@, normal_entries() + select_overrides());
    }
    select
}

fn build_insert() -> (r: BindingTable)
    ensures
        r.entries@ == insert_entries(),
{
    let mut insert = KeyTable::<Action>::new();

    insert.insert(plain(KeyCode::Escape), Action::NormalMode);
    insert.insert(plain(KeyCode::Backspace), Action::DeleteCharBackward);
    insert.insert(plain(KeyCode::Delete), Action::DeleteCharForward);
    insert.insert(plain(KeyCode::Enter), Action::InsertNewline);
    insert.insert(plain(KeyCode::Tab), Action::InsertTab);
    insert.insert(ctrl('x'), Action::Completion);
    insert.insert(ctrl('w'), Action::DeleteWordBackward);
    proof {
        assert_seqs_equal!(insert.entries@, insert_entries());
    }
    insert
}

/// Build the default binding set: the Normal-mode list inserted in order,
/// Select mode as an independent copy of Normal overlaid with its override
/// list, and Insert mode from its own list.
pub fn default() -> (r: BindingSet)
    ensures
        r.is_default(),
        r.normal@ == normal_map(),
        r.select@ == select_map(),
        r.insert@ == insert_map(),
{
    let normal = build_normal();
    let select = build_select(&normal);
    let insert = build_insert();
    BindingSet { normal, select, insert }
}

/// Building the default binding set is deterministic: any two binding sets
/// that hold the defaults agree entry for entry, and so table for table.
pub proof fn lemma_default_deterministic(a: BindingSet, b: BindingSet)
    requires
        a.is_default(),
        b.is_default(),
    ensures
        a.normal.entries@ == b.normal.entries@,
        a.select.entries@ == b.select.entries@,
        a.insert.entries@ == b.insert.entries@,
        a.normal@ == b.normal@,
        a.select@ == b.select@,
        a.insert@ == b.insert@,
{
}

/// The Select-mode table contains every Normal-mode binding that is not
/// explicitly overridden, plus exactly the override entries.
pub proof fn lemma_select_mode_inheritance()
    ensures
        forall|c: Chord| #[trigger]
            select_map().contains_key(c) <==> (normal_map().contains_key(c)
                || override_map().contains_key(c)),
        forall|c: Chord| #[trigger]
            override_map().contains_key(c) ==> select_map()[c] == override_map()[c],
        forall|c: Chord|
            normal_map().contains_key(c) && !(#[trigger] override_map().contains_key(c))
                ==> select_map()[c] == normal_map()[c],
{
    lemma_entries_map_concat(normal_entries(), select_overrides());
}

} // verus!
