//! Chord-keyed tables with last-writer-wins insertion, the substrate of both
//! the per-mode binding tables and the per-mode remap tables.

use vstd::prelude::*;
use vstd::map::*;
use crate::chord::Chord;

verus! {

/// The mapping denoted by a list of entries: a later entry for the same
/// chord overwrites an earlier one.
pub open spec fn entries_map<V>(s: Seq<(Chord, V)>) -> Map<Chord, V>
    decreases s.len(),
{
    if s.len() == 0 {
        Map::empty()
    } else {
        entries_map(s.drop_last()).insert(s.last().0, s.last().1)
    }
}

/// A mapping from chords to values, stored as the ordered list of insertions.
/// Its view is the [`entries_map`] of that list.
#[derive(Debug, PartialEq, Eq)]
pub struct KeyTable<V> {
    pub entries: Vec<(Chord, V)>,
}

impl<V> View for KeyTable<V> {
    type V = Map<Chord, V>;

    open spec fn view(&self) -> Map<Chord, V> {
        entries_map(self.entries@)
    }
}

proof fn lemma_entries_map_take_step<V>(s: Seq<(Chord, V)>, i: int)
    requires
        0 < i <= s.len(),
    ensures
        entries_map(s.take(i)) == entries_map(s.take(i - 1)).insert(s[i - 1].0, s[i - 1].1),
{
    assert(s.take(i).drop_last() =~= s.take(i - 1));
    assert(s.take(i).last() == s[i - 1]);
}

impl<V: Copy> KeyTable<V> {
    /// The empty table.
    pub fn new() -> (r: KeyTable<V>)
        ensures
            r@ == Map::<Chord, V>::empty(),
            r.entries@ == Seq::<(Chord, V)>::empty(),
    {
        KeyTable { entries: Vec::new() }
    }

    /// Bind `c` to `v`, overwriting any earlier binding of `c`.
    pub fn insert(&mut self, c: Chord, v: V)
        ensures
            final(self)@ == old(self)@.insert(c, v),
            final(self).entries@ == old(self).entries@.push((c, v)),
    {
        self.entries.push((c, v));
        proof {
            assert(self.entries@.drop_last() =~= old(self).entries@);
        }
    }

    /// The value bound to `c`, if any: the latest inserted one.
    pub fn lookup(&self, c: Chord) -> (r: Option<V>)
        ensures
            match r {
                Some(v) => self@.contains_key(c) && self@[c] == v,
                None => !self@.contains_key(c),
            },
    {
        let ghost s = self.entries@;
        let mut i: usize = self.entries.len();
        proof {
            assert(s.take(i as int) =~= s);
        }
        while i > 0
            invariant
                i <= s.len(),
                s == self.entries@,
                self@.contains_key(c) <==> entries_map(s.take(i as int)).contains_key(c),
                self@.contains_key(c) ==> self@[c] == entries_map(s.take(i as int))[c],
            decreases i,
        {
            i -= 1;
            let entry = &self.entries[i];
            proof {
                lemma_entries_map_take_step(s, i + 1);
            }
            if entry.0 == c {
                return Some(entry.1);
            }
        }
        proof {
            assert(s.take(0) =~= Seq::<(Chord, V)>::empty());
        }
        None
    }

    /// An independent copy: an equal entry list, owned separately.
    pub fn duplicate(&self) -> (r: KeyTable<V>)
        ensures
            r.entries@ == self.entries@,
            r@ == self@,
    {
        let mut entries: Vec<(Chord, V)> = Vec::new();
        let n = self.entries.len();
        let mut i: usize = 0;
        while i < n
            invariant
                i <= n,
                n == self.entries@.len(),
                entries@ =~= self.entries@.take(i as int),
            decreases n - i,
        {
            entries.push(self.entries[i]);
            i += 1;
        }
        proof {
            assert(entries@ =~= self.entries@);
        }
        KeyTable { entries }
    }

    /// How many entries have been inserted (not the number of distinct keys).
    pub fn entry_count(&self) -> (r: usize)
        ensures
            r == self.entries@.len(),
    {
        self.entries.len()
    }
}

/// Inserting the entries of `b` after those of `a` denotes the union of the
/// two mappings in which `b`'s bindings win.
pub proof fn lemma_entries_map_concat<V>(a: Seq<(Chord, V)>, b: Seq<(Chord, V)>)
    ensures
        entries_map(a + b) == entries_map(a).union_prefer_right(entries_map(b)),
    decreases b.len(),
{
    if b.len() == 0 {
        assert(a + b =~= a);
        assert(entries_map(a).union_prefer_right(entries_map(b)) =~= entries_map(a));
    } else {
        assert((a + b).drop_last() =~= a + b.drop_last());
        lemma_entries_map_concat(a, b.drop_last());
        assert(entries_map(a).union_prefer_right(entries_map(b.drop_last())).insert(
            b.last().0,
            b.last().1,
        ) =~= entries_map(a).union_prefer_right(
            entries_map(b.drop_last()).insert(b.last().0, b.last().1),
        ));
    }
}

} // verus!
