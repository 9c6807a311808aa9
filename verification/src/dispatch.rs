//! Chord resolution for the dispatcher: an observed chord is first
//! substituted through the active mode's remap table, then looked up in that
//! mode's binding table. An unbound chord is a valid outcome, not an error.

use vstd::prelude::*;
use vstd::map::*;
use crate::bindings::Action;
use crate::bindings::BindingSet;
use crate::chord::Chord;
use crate::mode::Mode;
use crate::remap::RemapSet;

verus! {

/// The chord to look up: the remap table's target if the observed chord is a
/// key of it, else the observed chord itself.
pub open spec fn remapped(rt: Map<Chord, Chord>, c: Chord) -> Chord {
    if rt.contains_key(c) {
        rt[c]
    } else {
        c
    }
}

/// Resolve an observed chord in the given mode: substitute through the
/// mode's remap table if the chord is a key of it, then return the action
/// that the mode's binding table binds to the (possibly substituted) chord,
/// or `None` if that chord is unbound.
pub fn resolve(bindings: &BindingSet, remaps: &RemapSet, mode: Mode, c: Chord) -> (r: Option<
    Action,
>)
    ensures
        ({
            let t = remapped(remaps.map_for(mode), c);
            match r {
                Some(a) => bindings.map_for(mode).contains_key(t) && bindings.map_for(mode)[t]
                    == a,
                None => !bindings.map_for(mode).contains_key(t),
            }
        }),
{
    let target = match remaps.table(mode).lookup(c) {
        Some(t) => t,
        None => c,
    };
    bindings.table(mode).lookup(target)
}

} // verus!
