//! The user-override layer: a per-mode substitution of one chord for
//! another, loaded from a textual configuration document whose top-level
//! sections name modes and whose entries map source chord strings to target
//! chord strings.

use std::collections::HashMap;
use vstd::prelude::*;
use vstd::map::*;
use crate::chord::Chord;
use crate::codec::ChordSyntaxError;
use crate::codec::ChordSyntaxErrorV;
use crate::codec::parse_chord;
use crate::codec::parse_spec;
use crate::mode::Mode;
use crate::mode::mode_of_name;
use crate::table::KeyTable;

verus! {

/// A per-mode mapping from an observed chord to the chord to use in its
/// place, keys unique.
pub type RemapTable = KeyTable<Chord>;

/// The remap tables of all modes. A mode without a section in the document
/// keeps an empty table.
#[derive(Debug, PartialEq, Eq)]
pub struct RemapSet {
    pub normal: RemapTable,
    pub select: RemapTable,
    pub insert: RemapTable,
}

/// The mathematical value of a [`RemapSet`]: one mapping per mode.
pub struct RemapSetV {
    pub normal: Map<Chord, Chord>,
    pub select: Map<Chord, Chord>,
    pub insert: Map<Chord, Chord>,
}

impl View for RemapSet {
    type V = RemapSetV;

    open spec fn view(&self) -> RemapSetV {
        RemapSetV { normal: self.normal@, select: self.select@, insert: self.insert@ }
    }
}

impl RemapSet {
    /// The table of the given mode, as a mapping.
    pub open spec fn map_for(self, mode: Mode) -> Map<Chord, Chord> {
        match mode {
            Mode::Normal => self.normal@,
            Mode::Select => self.select@,
            Mode::Insert => self.insert@,
        }
    }

    /// The table of the given mode.
    pub fn table(&self, mode: Mode) -> (r: &RemapTable)
        ensures
            r@ == self.map_for(mode),
    {
        match mode {
            Mode::Normal => &self.normal,
            Mode::Select => &self.select,
            Mode::Insert => &self.insert,
        }
    }

    /// A remap set with every mode's table empty.
    pub fn new() -> (r: RemapSet)
        ensures
            r@ == empty_remaps(),
            r.normal.entries@.len() == 0,
            r.select.entries@.len() == 0,
            r.insert.entries@.len() == 0,
    {
        RemapSet {
            normal: KeyTable::new(),
            select: KeyTable::new(),
            insert: KeyTable::new(),
        }
    }
}

/// The remap-set value in which no chord is substituted in any mode.
pub open spec fn empty_remaps() -> RemapSetV {
    RemapSetV {
        normal: Map::<Chord, Chord>::empty(),
        select: Map::<Chord, Chord>::empty(),
        insert: Map::<Chord, Chord>::empty(),
    }
}

/// A failure to load a remap document.
#[derive(Debug, PartialEq, Eq)]
pub enum RemapError {
    /// The text is not a well-formed two-level document of string pairs.
    InvalidDocument,
    /// A top-level section names no known mode.
    UnknownMode(String),
    /// A chord string inside a section does not parse, annotated with the
    /// section's mode and the offending string.
    BadChord { mode: Mode, chord: String, error: ChordSyntaxError },
}

/// The mathematical value of a [`RemapError`].
pub enum RemapErrorV {
    InvalidDocument,
    UnknownMode(Seq<char>),
    BadChord { mode: Mode, chord: Seq<char>, error: ChordSyntaxErrorV },
}

impl View for RemapError {
    type V = RemapErrorV;

    open spec fn view(&self) -> RemapErrorV {
        match self {
            RemapError::InvalidDocument => RemapErrorV::InvalidDocument,
            RemapError::UnknownMode(n) => RemapErrorV::UnknownMode(n@),
            RemapError::BadChord { mode, chord, error } => RemapErrorV::BadChord {
                mode: *mode,
                chord: chord@,
                error: error@,
            },
        }
    }
}

/// The table denoted by one section's pairs, processed in order on top of
/// `acc`: both strings of a pair must parse as chords, and a repeated source
/// chord is overwritten (last writer wins).
pub open spec fn table_of_pairs(
    pairs: Seq<(Seq<char>, Seq<char>)>,
    acc: Map<Chord, Chord>,
    mode: Mode,
) -> Result<Map<Chord, Chord>, RemapErrorV>
    decreases pairs.len(),
{
    if pairs.len() == 0 {
        Ok(acc)
    } else {
        match parse_spec(pairs[0].0) {
            Err(e) => Err(RemapErrorV::BadChord { mode, chord: pairs[0].0, error: e }),
            Ok(sc) => match parse_spec(pairs[0].1) {
                Err(e) => Err(RemapErrorV::BadChord { mode, chord: pairs[0].1, error: e }),
                Ok(tc) => table_of_pairs(pairs.drop_first(), acc.insert(sc, tc), mode),
            },
        }
    }
}

/// `acc` with the given mode's table replaced.
pub open spec fn with_mode_table(acc: RemapSetV, mode: Mode, t: Map<Chord, Chord>) -> RemapSetV {
    match mode {
        Mode::Normal => RemapSetV { normal: t, ..acc },
        Mode::Select => RemapSetV { select: t, ..acc },
        Mode::Insert => RemapSetV { insert: t, ..acc },
    }
}

/// The remap set denoted by a list of sections, processed in order on top of
/// `acc`: a section whose name is no mode name fails, a later section for
/// the same mode replaces the earlier one.
pub open spec fn load_from(
    secs: Seq<(Seq<char>, Seq<(Seq<char>, Seq<char>)>)>,
    acc: RemapSetV,
) -> Result<RemapSetV, RemapErrorV>
    decreases secs.len(),
{
    if secs.len() == 0 {
        Ok(acc)
    } else {
        match mode_of_name(secs[0].0) {
            None => Err(RemapErrorV::UnknownMode(secs[0].0)),
            Some(mode) => match table_of_pairs(secs[0].1, Map::empty(), mode) {
                Err(e) => Err(e),
                Ok(t) => load_from(secs.drop_first(), with_mode_table(acc, mode, t)),
            },
        }
    }
}

/// The remap set denoted by a whole list of sections.
pub open spec fn load_spec(secs: Seq<(Seq<char>, Seq<(Seq<char>, Seq<char>)>)>) -> Result<
    RemapSetV,
    RemapErrorV,
> {
    load_from(secs, empty_remaps())
}

proof fn lemma_pairs_error_is_bad_chord(
    pairs: Seq<(Seq<char>, Seq<char>)>,
    acc: Map<Chord, Chord>,
    mode: Mode,
)
    ensures
        table_of_pairs(pairs, acc, mode) matches Err(e) ==> e is BadChord,
    decreases pairs.len(),
{
    if pairs.len() > 0 {
        match (parse_spec(pairs[0].0), parse_spec(pairs[0].1)) {
            (Ok(sc), Ok(tc)) => {
                lemma_pairs_error_is_bad_chord(pairs.drop_first(), acc.insert(sc, tc), mode);
            },
            _ => {},
        }
    }
}

/// A section list itself fails to load only on an unknown mode name or an
/// unparseable chord string, never with the invalid-document error. With
/// the loader's contract this pins the error taxonomy: the invalid-document
/// error is returned if and only if the text has no document value at all.
pub proof fn lemma_load_error_is_mode_or_chord(
    secs: Seq<(Seq<char>, Seq<(Seq<char>, Seq<char>)>)>,
    acc: RemapSetV,
)
    ensures
        load_from(secs, acc) matches Err(e) ==> (e is UnknownMode || e is BadChord),
    decreases secs.len(),
{
    if secs.len() > 0 {
        match mode_of_name(secs[0].0) {
            Some(mode) => {
                lemma_pairs_error_is_bad_chord(secs[0].1, Map::empty(), mode);
                match table_of_pairs(secs[0].1, Map::empty(), mode) {
                    Ok(t) => {
                        lemma_load_error_is_mode_or_chord(
                            secs.drop_first(),
                            with_mode_table(acc, mode, t),
                        );
                    },
                    Err(_) => {},
                }
            },
            None => {},
        }
    }
}

/// Build one mode's remap table from its section's string pairs.
fn table_from_pairs(pairs: &Vec<(String, String)>, mode: Mode) -> (r: Result<
    RemapTable,
    RemapError,
>)
    ensures
        match r {
            Ok(t) => table_of_pairs(pairs.deep_view(), Map::empty(), mode) == Ok::<
                Map<Chord, Chord>,
                RemapErrorV,
            >(t@),
            Err(e) => table_of_pairs(pairs.deep_view(), Map::empty(), mode) == Err::<
                Map<Chord, Chord>,
                RemapErrorV,
            >(e@),
        },
{
    let ghost dv = pairs.deep_view();
    let mut t = KeyTable::<Chord>::new();
    let n = pairs.len();
    let mut j: usize = 0;
    proof {
        assert(dv.skip(0) =~= dv);
    }
    while j < n
        invariant
            j <= n,
            n == pairs@.len(),
            dv == pairs.deep_view(),
            table_of_pairs(dv, Map::empty(), mode) == table_of_pairs(
                dv.skip(j as int),
                t@,
                mode,
            ),
        decreases n - j,
    {
        let ghost rest = dv.skip(j as int);
        proof {
            assert(rest[0] == dv[j as int]);
            assert(rest.drop_first() =~= dv.skip(j + 1));
        }
        let sc = match parse_chord(pairs[j].0.as_str()) {
            Ok(c) => c,
            Err(e) => {
                return Err(
                    RemapError::BadChord { mode, chord: pairs[j].0.clone(), error: e },
                );
            },
        };
        let tc = match parse_chord(pairs[j].1.as_str()) {
            Ok(c) => c,
            Err(e) => {
                return Err(
                    RemapError::BadChord { mode, chord: pairs[j].1.clone(), error: e },
                );
            },
        };
        t.insert(sc, tc);
        j += 1;
    }
    proof {
        assert(dv.skip(n as int) =~= Seq::<(Seq<char>, Seq<char>)>::empty());
    }
    Ok(t)
}

/// Build a remap set from a list of already-split sections. This is the
/// whole loading protocol on plain values: the exact meaning of every
/// outcome is [`load_spec`] of the sections.
pub fn remaps_from_sections(sections: &Vec<(String, Vec<(String, String)>)>) -> (r: Result<
    RemapSet,
    RemapError,
>)
    ensures
        match r {
            Ok(rs) => load_spec(sections.deep_view()) == Ok::<RemapSetV, RemapErrorV>(rs@),
            Err(e) => load_spec(sections.deep_view()) == Err::<RemapSetV, RemapErrorV>(e@),
        },
{
    let ghost dv = sections.deep_view();
    let mut rs = RemapSet::new();
    let n = sections.len();
    let mut i: usize = 0;
    proof {
        assert(dv.skip(0) =~= dv);
    }
    while i < n
        invariant
            i <= n,
            n == sections@.len(),
            dv == sections.deep_view(),
            load_spec(dv) == load_from(dv.skip(i as int), rs@),
        decreases n - i,
    {
        let ghost rest = dv.skip(i as int);
        proof {
            assert(rest[0] == dv[i as int]);
            assert(rest.drop_first() =~= dv.skip(i + 1));
        }
        let mode = match Mode::from_name(sections[i].0.as_str()) {
            Some(m) => m,
            None => {
                return Err(RemapError::UnknownMode(sections[i].0.clone()));
            },
        };
        let t = match table_from_pairs(&sections[i].1, mode) {
            Ok(t) => t,
            Err(e) => {
                return Err(e);
            },
        };
        match mode {
            Mode::Normal => {
                rs.normal = t;
            },
            Mode::Select => {
                rs.select = t;
            },
            Mode::Insert => {
                rs.insert = t;
            },
        }
        i += 1;
    }
    proof {
        assert(dv.skip(n as int) =~= Seq::<(Seq<char>, Seq<(Seq<char>, Seq<char>)>)>::empty());
    }
    Ok(rs)
}

/// The two-level mapping denoted by a text that is a well-formed TOML
/// document of tables of string pairs, and `None` for any other text. This
/// names what `toml::from_str` decides: whether a text parses, and into
/// which tables, is a function of the text alone (only the order in which
/// the tables are later enumerated is not).
pub uninterp spec fn toml_doc_of(text: Seq<char>) -> Option<Map<Seq<char>, Map<Seq<char>, Seq<char>>>>;

/// `pairs` lists exactly the entries of `t`, each key once, in some order.
pub open spec fn pairs_enumerate(
    pairs: Seq<(Seq<char>, Seq<char>)>,
    t: Map<Seq<char>, Seq<char>>,
) -> bool {
    &&& forall|i: int, j: int|
        #![trigger pairs[i], pairs[j]]
        0 <= i < j < pairs.len() ==> pairs[i].0 != pairs[j].0
    &&& forall|i: int|
        #![trigger pairs[i]]
        0 <= i < pairs.len() ==> t.contains_key(pairs[i].0) && t[pairs[i].0] == pairs[i].1
    &&& forall|k: Seq<char>| #[trigger]
        t.contains_key(k) ==> exists|i: int|
            #![trigger pairs[i]]
            0 <= i < pairs.len() && pairs[i].0 == k
}

/// `secs` lists exactly the sections of `m`, each name once, in some order,
/// each section's pairs enumerating that name's table.
pub open spec fn sections_enumerate(
    secs: Seq<(Seq<char>, Seq<(Seq<char>, Seq<char>)>)>,
    m: Map<Seq<char>, Map<Seq<char>, Seq<char>>>,
) -> bool {
    &&& forall|i: int, j: int|
        #![trigger secs[i], secs[j]]
        0 <= i < j < secs.len() ==> secs[i].0 != secs[j].0
    &&& forall|i: int|
        #![trigger secs[i]]
        0 <= i < secs.len() ==> m.contains_key(secs[i].0) && pairs_enumerate(secs[i].1, m[secs[i].0])
    &&& forall|k: Seq<char>| #[trigger]
        m.contains_key(k) ==> exists|i: int|
            #![trigger secs[i]]
            0 <= i < secs.len() && secs[i].0 == k
}

/// Relies on `toml::from_str` deserializing into a map of maps of strings:
/// it returns `Ok` exactly when the text is a well-formed TOML document of
/// that two-level shape, [`toml_doc_of`] the text, and then hands back that
/// document's sections. Both levels are collected from maps with unique
/// keys, so the listing enumerates the document exactly; only its order is
/// unpromised.
#[verifier::external_body]
fn parse_document(text: &str) -> (r: Result<Vec<(String, Vec<(String, String)>)>, toml::de::Error>)
    ensures
        (r is Ok) <==> (toml_doc_of(text@) is Some),
        match r {
            Ok(v) => toml_doc_of(text@) matches Some(m) && sections_enumerate(v.deep_view(), m),
            Err(_) => true,
        },
{
    match toml::from_str::<HashMap<String, HashMap<String, String>>>(text) {
        Ok(tables) => Ok(
            tables
                .into_iter()
                .map(|(name, table)| (name, table.into_iter().collect()))
                .collect(),
        ),
        Err(e) => Err(e),
    }
}

/// The outside error type of the document parser.
#[verifier::external_type_specification]
#[verifier::external_body]
pub struct ExTomlDeError(toml::de::Error);

/// Load a remap set from a configuration document.
///
/// A text that is not a two-level document of string pairs — one without a
/// [`toml_doc_of`] value — is rejected as [`RemapError::InvalidDocument`],
/// and only such a text is. Any other outcome, success or failure, is
/// [`load_spec`] of an enumeration of that very document: loading succeeds
/// if and only if every section names a known mode and every chord string
/// of every section parses, since [`load_spec`] fails, with the mode or
/// chord error, exactly when its sections hold such an entry. The one
/// freedom left is the order in which the document's sections and entries
/// are enumerated, which the document parser does not promise; it decides
/// which of several faulty entries is reported, never whether loading
/// succeeds.
pub fn parse_remaps(text: &str) -> (r: Result<RemapSet, RemapError>)
    ensures
        match r {
            Ok(rs) => toml_doc_of(text@) matches Some(m) && exists|
                secs: Seq<(Seq<char>, Seq<(Seq<char>, Seq<char>)>)>,
            | #[trigger] load_spec(secs) == Ok::<RemapSetV, RemapErrorV>(rs@)
                && sections_enumerate(secs, m),
            Err(e) => (e@ is InvalidDocument && toml_doc_of(text@) is None) || (toml_doc_of(
                text@,
            ) matches Some(m) && exists|secs: Seq<(Seq<char>, Seq<(Seq<char>, Seq<char>)>)>|
                #[trigger] load_spec(secs) == Err::<RemapSetV, RemapErrorV>(e@)
                    && sections_enumerate(secs, m)),
        },
{
    let sections = match parse_document(text) {
        Ok(s) => s,
        Err(_) => {
            return Err(RemapError::InvalidDocument);
        },
    };
    let r = remaps_from_sections(&sections);
    proof {
        let secs = sections.deep_view();
        assert(match r {
            Ok(rs) => load_spec(secs) == Ok::<RemapSetV, RemapErrorV>(rs@),
            Err(e) => load_spec(secs) == Err::<RemapSetV, RemapErrorV>(e@),
        });
    }
    r
}

} // verus!
