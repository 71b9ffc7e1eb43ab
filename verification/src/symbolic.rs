//! The structural cost heuristic used by the rewrite engine to choose among
//! algebraically equivalent candidates.  Leaves cost nothing; `Plus` and
//! `Mul` cost one plus their children; a monomial costs one plus its
//! coefficient.  The count saturates at `i32::MAX` instead of overflowing.

use vstd::prelude::*;

verus! {

use crate::value::Parameters;
use crate::value::Val;

/// Saturating increment-and-add for the cost metric.
pub open spec fn cost_node(a: int, b: int) -> int {
    if 1 + a + b > i32::MAX {
        i32::MAX as int
    } else {
        1 + a + b
    }
}

/// Structural cost of a value, the mathematical shadow of `size`.
pub open spec fn size_of(v: Val) -> int
    decreases v,
{
    match v {
        Val::Plus(x, y) => cost_node(size_of(*x), size_of(*y)),
        Val::Mul(x, y) => cost_node(size_of(*x), size_of(*y)),
        Val::Var(x, _e, _n) => cost_node(size_of(*x), 0),
        _ => 0,
    }
}

/// The cost is always a nonnegative `i32`.
pub proof fn lemma_size_of_bounds(v: Val)
    ensures
        0 <= size_of(v) <= i32::MAX,
    decreases v,
{
    match v {
        Val::Plus(x, y) => {
            lemma_size_of_bounds(*x);
            lemma_size_of_bounds(*y);
        },
        Val::Mul(x, y) => {
            lemma_size_of_bounds(*x);
            lemma_size_of_bounds(*y);
        },
        Val::Var(x, _e, _n) => {
            lemma_size_of_bounds(*x);
        },
        _ => {},
    }
}

/// Structural cost of a value: the tie-breaker between candidate rewrites.
pub fn size(p: &Parameters) -> (s: i32)
    ensures
        s == size_of(p@),
    decreases p,
{
    match p {
        Parameters::Plus(x, y) => {
            let a = size(x);
            let b = size(y);
            proof {
                lemma_size_of_bounds((**x)@);
                lemma_size_of_bounds((**y)@);
            }
            let t: i64 = 1 + a as i64 + b as i64;
            if t > i32::MAX as i64 {
                i32::MAX
            } else {
                t as i32
            }
        },
        Parameters::Mul(x, y) => {
            let a = size(x);
            let b = size(y);
            proof {
                lemma_size_of_bounds((**x)@);
                lemma_size_of_bounds((**y)@);
            }
            let t: i64 = 1 + a as i64 + b as i64;
            if t > i32::MAX as i64 {
                i32::MAX
            } else {
                t as i32
            }
        },
        Parameters::Var(x, _e, _n) => {
            let a = size(x);
            proof {
                lemma_size_of_bounds((**x)@);
            }
            let t: i64 = 1 + a as i64;
            if t > i32::MAX as i64 {
                i32::MAX
            } else {
                t as i32
            }
        },
        _ => 0,
    }
}

/// The engine's tie-break: of two algebraically equivalent candidates, keep
/// the structurally smaller one; ties keep the first.
pub open spec fn smaller_of(first: Val, second: Val) -> Val {
    if size_of(first) > size_of(second) {
        second
    } else {
        first
    }
}

} // verus!
