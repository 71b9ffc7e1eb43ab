//! An expression calculator's verified core: exact rational arithmetic, a
//! tagged value domain, the symbolic binary-operator engine with its
//! size-guided rewrites, and the environment-aware tree interpreter.

use vstd::prelude::*;

pub mod env;
pub mod float_mode;
pub mod functions;
pub mod interpreter;
pub mod laws;
pub mod lexer;
pub mod parsing;
pub mod rational;
pub mod stdlib;
pub mod symbolic;
pub mod value;

verus! {

} // verus!
