//! How floating-point output is rendered by a host shell: cosmetic only,
//! nothing in the engine depends on it.

use vstd::prelude::*;

verus! {

use vstd::string::StringExecFns;

/// The display mode a host shell renders approximate values in.
#[derive(Debug, Clone, Copy, PartialEq, Eq)]
pub enum FloatMode {
    Normal,
    Science,
    Exact,
}

impl FloatMode {
    /// The name the mode is shown under.
    pub fn describe(&self) -> (r: String)
        ensures
            *self is Normal ==> r@ == "normal"@,
            *self is Exact ==> r@ == "exact/rational"@,
            *self is Science ==> r@ == "science/scientific"@,
    {
        match self {
            FloatMode::Normal => "normal".to_owned(),
            FloatMode::Exact => "exact/rational".to_owned(),
            FloatMode::Science => "science/scientific".to_owned(),
        }
    }
}

} // verus!
