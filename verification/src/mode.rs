//! The editing modes that select which binding table is active. The running
//! editor's mode transitions are outside this core; here a mode is a closed,
//! totally distinguishable key with a canonical name.

use vstd::prelude::*;
use vstd::string::*;
use crate::codec::str_eq;

verus! {

broadcast use vstd::string::group_string_axioms;

/// A named editing context.
#[derive(Clone, Copy, Debug, PartialEq, Eq, Hash, Structural)]
pub enum Mode {
    Normal,
    Select,
    Insert,
}

/// The mode denoted by a canonical, case-sensitive mode name, if any.
pub open spec fn mode_of_name(s: Seq<char>) -> Option<Mode> {
    if s == "Normal"@ {
        Some(Mode::Normal)
    } else if s == "Select"@ {
        Some(Mode::Select)
    } else if s == "Insert"@ {
        Some(Mode::Insert)
    } else {
        None
    }
}

impl Mode {
    /// Parse a canonical mode name.
    pub fn from_name(s: &str) -> (r: Option<Mode>)
        ensures
            r == mode_of_name(s@),
    {
        if str_eq(s, "Normal") {
            Some(Mode::Normal)
        } else if str_eq(s, "Select") {
            Some(Mode::Select)
        } else if str_eq(s, "Insert") {
            Some(Mode::Insert)
        } else {
            None
        }
    }

    /// The canonical name of a mode.
    pub fn name(&self) -> (r: String)
        ensures
            mode_of_name(r@) == Some(*self),
    {
        proof {
            reveal_strlit("Normal");
            reveal_strlit("Select");
            reveal_strlit("Insert");
            assert("Normal"@[0] == 'N');
            assert("Select"@[0] == 'S');
            assert("Insert"@[0] == 'I');
        }
        match self {
            Mode::Normal => String::from_str("Normal"),
            Mode::Select => String::from_str("Select"),
            Mode::Insert => String::from_str("Insert"),
        }
    }
}

} // verus!
