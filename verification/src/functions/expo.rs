//! Exponentiation: only the identity rows and identifier resolution are in
//! the exact domain; the power of two concrete numbers lives in floating
//! point, which this engine does not model, so such a pair falls through to
//! the incompatibility sentinel.

use vstd::prelude::*;

verus! {

broadcast use crate::value::group_value_views;

use crate::env::Ram;
use crate::functions::function::BinOp;
use crate::functions::function::EVAL_DEPTH;
use crate::functions::function::apply_operator_fuel;
use crate::functions::function::apply_operator_reverse_fuel;
use crate::functions::function::depth_error;
use crate::functions::function::depth_error_value;
use crate::functions::function::oram;
use crate::functions::function::oram_wf;
use crate::functions::function::spec_apply_operator;
use crate::functions::function::spec_apply_operator_reverse;
use crate::value::Parameters;
use crate::value::Val;
use crate::value::val_wf;
use vstd::string::StringExecFns;

/// Message of the incompatibility error for `expo`.
pub open spec fn expo_incompatible() -> Seq<char> {
    "@Those two values are incompatible with the ^ operator"@
}

/// Build the incompatibility error value for `expo`.
fn expo_error() -> (r: Parameters)
    ensures
        r@ == Val::Identifier(expo_incompatible()),
{
    Parameters::Identifier("@Those two values are incompatible with the ^ operator".to_owned())
}

/// Mathematical model of `expo`.
pub open spec fn spec_expo(a: Val, b: Val, m: Option<Map<Seq<char>, Val>>, fuel: nat) -> Val
    decreases fuel, 9int, 0int,
{
    if fuel == 0 {
        Val::Identifier(depth_error())
    } else {
        match (a, b) {
            (Val::Null, Val::Int(v)) => Val::Int(v),
            (Val::Int(v), Val::Null) => Val::Int(v),
            (Val::Rational(s), Val::Null) => Val::Rational(s),
            (Val::Null, Val::Rational(s)) => Val::Rational(s),
            (Val::Bool(_), Val::Int(i)) => Val::Int(i),
            (Val::Int(i), Val::Bool(_)) => Val::Int(i),
            (Val::Bool(b), Val::Null) => Val::Bool(b),
            (Val::Null, Val::Bool(b)) => Val::Bool(b),
            (Val::Bool(b), Val::Bool(b2)) => Val::Bool(b && b2),
            (Val::Identifier(s), Val::Identifier(s2)) => match m {
                None => Val::Identifier(s),
                Some(_) => spec_apply_operator(Val::Identifier(s), Val::Identifier(s2), m, fuel, BinOp::Expo),
            },
            (Val::Identifier(s), Val::Int(i)) => match m {
                None => Val::Int(i),
                Some(_) => spec_apply_operator(Val::Identifier(s), Val::Int(i), m, fuel, BinOp::Expo),
            },
            (Val::Int(i), Val::Identifier(s)) => match m {
                None => Val::Int(i),
                Some(_) => spec_apply_operator_reverse(Val::Int(i), Val::Identifier(s), m, fuel, BinOp::Expo),
            },
            (Val::Rational(s), Val::Identifier(ss)) => match m {
                None => Val::Rational(s),
                Some(_) => spec_apply_operator_reverse(Val::Rational(s), Val::Identifier(ss), m, fuel, BinOp::Expo),
            },
            (Val::Identifier(ss), Val::Rational(s)) => match m {
                None => Val::Rational(s),
                Some(_) => spec_apply_operator(Val::Identifier(ss), Val::Rational(s), m, fuel, BinOp::Expo),
            },
            (Val::Identifier(s), Val::Null) => match m {
                None => Val::Null,
                Some(_) => spec_apply_operator(Val::Identifier(s), Val::Null, m, fuel, BinOp::Expo),
            },
            (Val::Null, Val::Identifier(s)) => match m {
                None => Val::Null,
                Some(_) => spec_apply_operator(Val::Identifier(s), Val::Null, m, fuel, BinOp::Expo),
            },
            (Val::Bool(b), Val::Identifier(s)) => match m {
                None => Val::Bool(b),
                Some(_) => spec_apply_operator_reverse(Val::Bool(b), Val::Identifier(s), m, fuel, BinOp::Expo),
            },
            (Val::Identifier(s), Val::Bool(b)) => match m {
                None => Val::Bool(b),
                Some(_) => spec_apply_operator(Val::Identifier(s), Val::Bool(b), m, fuel, BinOp::Expo),
            },
            _ => Val::Identifier(expo_incompatible()),
        }
    }
}

/// `expo` with an explicit depth budget.
pub(crate) fn expo_fuel(i: Parameters, i2: Parameters, ram: Option<&Ram>, fuel: u64) -> (r:
    Parameters)
    requires
        val_wf(i@),
        val_wf(i2@),
        oram_wf(oram(ram)),
    ensures
        r@ == spec_expo(i@, i2@, oram(ram), fuel as nat),
        val_wf(r@),
    decreases fuel, 9int, 0int,
{
    if fuel == 0 {
        return depth_error_value();
    }
    match (i, i2) {
        (Parameters::Null, Parameters::Int(v)) => Parameters::Int(v),
        (Parameters::Int(v), Parameters::Null) => Parameters::Int(v),
        (Parameters::Rational(s), Parameters::Null) => Parameters::Rational(s),
        (Parameters::Null, Parameters::Rational(s)) => Parameters::Rational(s),
        (Parameters::Bool(_), Parameters::Int(i)) => Parameters::Int(i),
        (Parameters::Int(i), Parameters::Bool(_)) => Parameters::Int(i),
        (Parameters::Bool(b), Parameters::Null) => Parameters::Bool(b),
        (Parameters::Null, Parameters::Bool(b)) => Parameters::Bool(b),
        (Parameters::Bool(b), Parameters::Bool(b2)) => Parameters::Bool(b && b2),
        (Parameters::Identifier(s), Parameters::Identifier(s2)) => match ram {
            None => Parameters::Identifier(s.clone()),
            Some(_) => apply_operator_fuel(Parameters::Identifier(s.clone()), Parameters::Identifier(s2.clone()), ram, BinOp::Expo, fuel),
        },
        (Parameters::Identifier(s), Parameters::Int(i)) => match ram {
            None => Parameters::Int(i),
            Some(_) => apply_operator_fuel(Parameters::Identifier(s.clone()), Parameters::Int(i), ram, BinOp::Expo, fuel),
        },
        (Parameters::Int(i), Parameters::Identifier(s)) => match ram {
            None => Parameters::Int(i),
            Some(_) => apply_operator_reverse_fuel(Parameters::Int(i), Parameters::Identifier(s.clone()), ram, BinOp::Expo, fuel),
        },
        (Parameters::Rational(s), Parameters::Identifier(ss)) => match ram {
            None => Parameters::Rational(s),
            Some(_) => apply_operator_reverse_fuel(Parameters::Rational(s), Parameters::Identifier(ss.clone()), ram, BinOp::Expo, fuel),
        },
        (Parameters::Identifier(ss), Parameters::Rational(s)) => match ram {
            None => Parameters::Rational(s),
            Some(_) => apply_operator_fuel(Parameters::Identifier(ss.clone()), Parameters::Rational(s), ram, BinOp::Expo, fuel),
        },
        (Parameters::Identifier(s), Parameters::Null) => match ram {
            None => Parameters::Null,
            Some(_) => apply_operator_fuel(Parameters::Identifier(s.clone()), Parameters::Null, ram, BinOp::Expo, fuel),
        },
        (Parameters::Null, Parameters::Identifier(s)) => match ram {
            None => Parameters::Null,
            Some(_) => apply_operator_fuel(Parameters::Identifier(s.clone()), Parameters::Null, ram, BinOp::Expo, fuel),
        },
        (Parameters::Bool(b), Parameters::Identifier(s)) => match ram {
            None => Parameters::Bool(b),
            Some(_) => apply_operator_reverse_fuel(Parameters::Bool(b), Parameters::Identifier(s.clone()), ram, BinOp::Expo, fuel),
        },
        (Parameters::Identifier(s), Parameters::Bool(b)) => match ram {
            None => Parameters::Bool(b),
            Some(_) => apply_operator_fuel(Parameters::Identifier(s.clone()), Parameters::Bool(b), ram, BinOp::Expo, fuel),
        },
        _ => expo_error(),
    }
}

/// Raise a value to a power, resolving identifiers against the environment.
pub fn expo(i: Parameters, i2: Parameters, ram: Option<&Ram>) -> (r: Parameters)
    requires
        val_wf(i@),
        val_wf(i2@),
        oram_wf(oram(ram)),
    ensures
        r@ == spec_expo(i@, i2@, oram(ram), EVAL_DEPTH as nat),
        val_wf(r@),
{
    expo_fuel(i, i2, ram, EVAL_DEPTH)
}

} // verus!
