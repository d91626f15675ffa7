//! The names that the language knows.

use vstd::prelude::*;

verus! {

/// Whether one of the entries of `list` is `name`.
pub open spec fn lists(list: Seq<String>, name: Seq<char>) -> bool {
    exists|i: int| 0 <= i < list.len() && list[i]@ == name
}

/// Whether one of the entries of `list` is `name`.
fn is_listed(list: &Vec<String>, name: &str) -> (b: bool)
    ensures
        b == lists(list@, name@),
{
    let wanted = name.to_owned();
    let mut i: usize = 0;
    while i < list.len()
        invariant
            i <= list.len(),
            wanted@ == name@,
            forall|j: int| 0 <= j < i ==> list@[j]@ != name@,
        decreases list.len() - i,
    {
        if list[i] == wanted {
            return true;
        }
        i += 1;
    }
    false
}

/// The table of names that may stand in command or variable position. All
/// lookups are by the canonical, lower-case form of a name.
#[derive(Clone, Debug, PartialEq, Eq)]
pub struct CommandGrammar {
    /// Every name that is legal, in canonical form.
    pub identifiers: Vec<String>,
    /// The nular commands whose value is fixed at compile time, in canonical
    /// form.
    pub constants: Vec<String>,
}

impl CommandGrammar {
    /// Whether `name` is a legal identifier.
    pub open spec fn valid(self, name: Seq<char>) -> bool {
        lists(self.identifiers@, name)
    }

    /// Whether `name` is a nular command with a fixed value.
    pub open spec fn constant(self, name: Seq<char>) -> bool {
        lists(self.constants@, name)
    }

    /// Whether `name` is a legal identifier.
    pub fn is_valid_identifier(&self, name: &str) -> (b: bool)
        ensures
            b == self.valid(name@),
    {
        is_listed(&self.identifiers, name)
    }

    /// Whether `name` is a nular command with a fixed value.
    pub fn is_constant_nular(&self, name: &str) -> (b: bool)
        ensures
            b == self.constant(name@),
    {
        is_listed(&self.constants, name)
    }
}

} // verus!
