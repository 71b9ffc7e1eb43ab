//! Division over the whole value domain: exact rational quotients (dividing
//! integers yields a reduced fraction), the `Null` identity, and the
//! symbolic rewrite rules that fold monomials (exponents subtract) and push
//! quotients through sums and products.

use vstd::prelude::*;

verus! {

broadcast use crate::value::group_value_views;

use crate::env::Ram;
use crate::functions::function::BinOp;
use crate::functions::function::EVAL_DEPTH;
use crate::functions::function::apply_operator_fuel;
use crate::functions::function::apply_operator_reverse_fuel;
use crate::functions::function::depth_error;
use crate::functions::function::depth_error_value;
use crate::functions::function::oram;
use crate::functions::function::oram_wf;
use crate::functions::function::spec_apply_operator;
use crate::functions::function::spec_apply_operator_reverse;
use crate::functions::add::spec_add;
use crate::functions::mult::spec_mult;
use crate::rational::Rationals;
use crate::rational::rat_div;
use crate::rational::rat_make;
use crate::symbolic::smaller_of;
use crate::value::Parameters;
use crate::value::Val;
use crate::value::val_wf;
use crate::value::wrap_sub64;
use vstd::string::StringExecFns;

/// Message of the incompatibility error for `divide`.
pub open spec fn divide_incompatible() -> Seq<char> {
    "@Those two values are incompatible with the / operator"@
}

/// Build the incompatibility error value for `divide`.
fn divide_error() -> (r: Parameters)
    ensures
        r@ == Val::Identifier(divide_incompatible()),
{
    Parameters::Identifier("@Those two values are incompatible with the / operator".to_owned())
}

/// Mathematical model of `divide`.
pub open spec fn spec_divide(a: Val, b: Val, m: Option<Map<Seq<char>, Val>>, fuel: nat) -> Val
    decreases fuel, 9int, 0int,
{
    if fuel == 0 {
        Val::Identifier(depth_error())
    } else {
        match (a, b) {
            (Val::Null, Val::Int(v)) => Val::Int(v),
            (Val::Int(v), Val::Null) => Val::Int(v),
            (Val::Int(v), Val::Int(v2)) => Val::Rational(rat_make(v as int, v2 as int)),
            (Val::Null, Val::InterpreterVector(vec)) => Val::InterpreterVector(vec),
            (Val::InterpreterVector(vec), Val::Null) => Val::InterpreterVector(vec),
            (Val::Rational(s), Val::Null) => Val::Rational(s),
            (Val::Null, Val::Rational(s)) => Val::Rational(s),
            (Val::Rational(s), Val::Rational(s2)) => Val::Rational(rat_div(s, s2)),
            (Val::Rational(s), Val::Int(i)) => Val::Rational(rat_div(s, rat_make(i as int, 1))),
            (Val::Int(i), Val::Rational(s)) => Val::Rational(rat_div(rat_make(i as int, 1), s)),
            (Val::Bool(_), Val::Int(i)) => Val::Int(i),
            (Val::Int(i), Val::Bool(_)) => Val::Int(i),
            (Val::Bool(b), Val::Null) => Val::Bool(b),
            (Val::Null, Val::Bool(b)) => Val::Bool(b),
            (Val::Bool(b), Val::Bool(b2)) => Val::Bool(b && b2),
            (Val::Identifier(s), Val::Identifier(s2)) => match m {
                Some(_) => spec_apply_operator(
                    Val::Identifier(s),
                    Val::Identifier(s2),
                    m,
                    fuel,
                    BinOp::Divide,
                ),
                None => spec_divide(
                    Val::Var(Box::new(Val::Int(1)), 1, s),
                    Val::Var(Box::new(Val::Int(1)), 1, s2),
                    m,
                    (fuel - 1) as nat,
                ),
            },
            (Val::Rational(r), Val::Identifier(ss)) => match m {
                Some(_) => spec_apply_operator_reverse(
                    Val::Rational(r),
                    Val::Identifier(ss),
                    m,
                    fuel,
                    BinOp::Divide,
                ),
                None => Val::Div(
                    Box::new(Val::Int(r.n)),
                    Box::new(Val::Var(Box::new(Val::Int(r.d)), 1, ss)),
                ),
            },
            (Val::Identifier(ss), Val::Rational(r)) => match m {
                Some(_) => spec_apply_operator(
                    Val::Identifier(ss),
                    Val::Rational(r),
                    m,
                    fuel,
                    BinOp::Divide,
                ),
                None => if r.n == 0 {
                    Val::Null
                } else {
                    Val::Var(Box::new(Val::Rational(rat_make(r.d, r.n))), 1, ss)
                },
            },
            (Val::Identifier(s), Val::Int(i)) => match m {
                None => Val::Var(Box::new(Val::Rational(rat_make(1, i as int))), 1, s),
                Some(_) => spec_apply_operator(
                    Val::Identifier(s),
                    Val::Int(i as int),
                    m,
                    fuel,
                    BinOp::Divide,
                ),
            },
            (Val::Int(i), Val::Identifier(s)) => match m {
                None => Val::Div(
                    Box::new(Val::Int(i as int)),
                    Box::new(Val::Var(Box::new(Val::Int(1)), 1, s)),
                ),
                Some(_) => spec_divide(
                    Val::Int(i as int),
                    Val::Identifier(s),
                    None,
                    (fuel - 1) as nat,
                ),
            },
            (Val::Null, Val::Identifier(s)) => match m {
                None => Val::Div(Box::new(Val::Int(1)), Box::new(Val::Var(Box::new(Val::Int(1)), 1, s))),
                Some(_) => spec_apply_operator(Val::Identifier(s), Val::Null, m, fuel, BinOp::Divide),
            },
            (Val::Identifier(s), Val::Null) => match m {
                None => Val::Div(Box::new(Val::Int(1)), Box::new(Val::Var(Box::new(Val::Int(1)), 1, s))),
                Some(_) => spec_apply_operator(Val::Identifier(s), Val::Null, m, fuel, BinOp::Divide),
            },
            (Val::Bool(b), Val::Identifier(s)) => match m {
                None => Val::Bool(b),
                Some(_) => spec_apply_operator_reverse(Val::Bool(b), Val::Identifier(s), m, fuel, BinOp::Divide),
            },
            (Val::Identifier(s), Val::Bool(b)) => match m {
                None => Val::Bool(b),
                Some(_) => spec_apply_operator(Val::Identifier(s), Val::Bool(b), m, fuel, BinOp::Divide),
            },
            (Val::Plus(s1, s2), Val::Plus(s3, s4)) => spec_add(spec_divide(*s1, spec_add(*s3, *s4, m, (fuel - 1) as nat), m, (fuel - 1) as nat), spec_divide(*s2, spec_add(*s3, *s4, m, (fuel - 1) as nat), m, (fuel - 1) as nat), m, (fuel - 1) as nat),
            (Val::Plus(s1, s2), Val::Identifier(s3)) => spec_add(spec_divide(*s1, Val::Var(Box::new(Val::Int(1)), 1, s3), m, (fuel - 1) as nat), spec_divide(*s2, Val::Var(Box::new(Val::Int(1)), 1, s3), m, (fuel - 1) as nat), m, (fuel - 1) as nat),
            (Val::Identifier(s3), Val::Plus(s1, s2)) => Val::Div(Box::new(Val::Var(Box::new(Val::Int(1)), 1, s3)), Box::new(spec_add(*s1, *s2, m, (fuel - 1) as nat))),
            (Val::Int(i), Val::Plus(s1, s2)) => Val::Div(Box::new(Val::Int(i)), Box::new(spec_add(*s1, *s2, m, (fuel - 1) as nat))),
            (Val::Plus(s1, s2), Val::Int(i)) => spec_add(spec_divide(*s1, Val::Int(i), m, (fuel - 1) as nat), spec_divide(*s2, Val::Int(i), m, (fuel - 1) as nat), m, (fuel - 1) as nat),
            (Val::Rational(r), Val::Plus(s1, s2)) => Val::Div(Box::new(Val::Rational(r)), Box::new(spec_add(*s1, *s2, m, (fuel - 1) as nat))),
            (Val::Plus(s1, s2), Val::Rational(r)) => spec_add(spec_divide(*s1, Val::Rational(r), m, (fuel - 1) as nat), spec_divide(*s2, Val::Rational(r), m, (fuel - 1) as nat), m, (fuel - 1) as nat),
            (Val::Var(x, y, z), Val::Plus(s1, s2)) => Val::Div(Box::new(Val::Var(x, y, z)), Box::new(spec_add(*s1, *s2, m, (fuel - 1) as nat))),
            (Val::Plus(s1, s2), Val::Var(x, y, z)) => spec_add(spec_divide(*s1, Val::Var(x, y, z), m, (fuel - 1) as nat), spec_divide(*s2, Val::Var(x, y, z), m, (fuel - 1) as nat), m, (fuel - 1) as nat),
            (Val::Null, Val::Plus(s1, s2)) => spec_add(*s1, *s2, m, (fuel - 1) as nat),
            (Val::Plus(s1, s2), Val::Null) => spec_add(*s1, *s2, m, (fuel - 1) as nat),
            (Val::Var(x, y, z), Val::Mul(s1, s2)) => {
                let first = spec_mult(spec_divide(Val::Var(x, y, z), *s1, m, (fuel - 1) as nat), spec_divide(Val::Int(1), *s2, m, (fuel - 1) as nat), m, (fuel - 1) as nat);
                let second = spec_mult(spec_divide(Val::Int(1), *s1, m, (fuel - 1) as nat), spec_divide(Val::Var(x, y, z), *s2, m, (fuel - 1) as nat), m, (fuel - 1) as nat);
                smaller_of(first, second)
            },
            (Val::Mul(s1, s2), Val::Var(x, y, z)) => {
                let first = spec_mult(spec_divide(*s1, Val::Var(x, y, z), m, (fuel - 1) as nat), *s2, m, (fuel - 1) as nat);
                let second = spec_mult(*s1, spec_divide(*s2, Val::Var(x, y, z), m, (fuel - 1) as nat), m, (fuel - 1) as nat);
                smaller_of(first, second)
            },
            (Val::Mul(s1, s2), Val::Mul(s3, s4)) => {
                let first = spec_mult(spec_divide(*s1, spec_mult(*s3, *s4, m, (fuel - 1) as nat), m, (fuel - 1) as nat), *s2, m, (fuel - 1) as nat);
                let second = spec_mult(*s1, spec_divide(*s2, spec_mult(*s3, *s4, m, (fuel - 1) as nat), m, (fuel - 1) as nat), m, (fuel - 1) as nat);
                smaller_of(first, second)
            },
            (Val::Mul(s1, s2), Val::Identifier(s)) => {
                let first = spec_mult(spec_divide(*s1, Val::Var(Box::new(Val::Int(1)), 1, s), m, (fuel - 1) as nat), *s2, m, (fuel - 1) as nat);
                let second = spec_mult(*s1, spec_divide(*s2, Val::Var(Box::new(Val::Int(1)), 1, s), m, (fuel - 1) as nat), m, (fuel - 1) as nat);
                smaller_of(first, second)
            },
            (Val::Identifier(s), Val::Mul(s1, s2)) => {
                let first = spec_mult(spec_divide(Val::Var(Box::new(Val::Int(1)), 1, s), *s1, m, (fuel - 1) as nat), spec_divide(Val::Int(1), *s2, m, (fuel - 1) as nat), m, (fuel - 1) as nat);
                let second = spec_mult(spec_divide(Val::Int(1), *s1, m, (fuel - 1) as nat), spec_divide(Val::Var(Box::new(Val::Int(1)), 1, s), *s2, m, (fuel - 1) as nat), m, (fuel - 1) as nat);
                smaller_of(first, second)
            },
            (Val::Mul(s1, s2), Val::Int(i)) => {
                let first = spec_mult(spec_divide(*s1, Val::Int(i), m, (fuel - 1) as nat), *s2, m, (fuel - 1) as nat);
                let second = spec_mult(*s1, spec_divide(*s2, Val::Int(i), m, (fuel - 1) as nat), m, (fuel - 1) as nat);
                smaller_of(first, second)
            },
            (Val::Int(i), Val::Mul(s1, s2)) => {
                let first = spec_mult(spec_divide(Val::Int(i), *s1, m, (fuel - 1) as nat), spec_divide(Val::Int(1), *s2, m, (fuel - 1) as nat), m, (fuel - 1) as nat);
                let second = spec_mult(spec_divide(Val::Int(1), *s1, m, (fuel - 1) as nat), spec_divide(Val::Int(i), *s2, m, (fuel - 1) as nat), m, (fuel - 1) as nat);
                smaller_of(first, second)
            },
            (Val::Mul(s1, s2), Val::Rational(r)) => {
                let first = spec_mult(spec_divide(*s1, Val::Rational(r), m, (fuel - 1) as nat), *s2, m, (fuel - 1) as nat);
                let second = spec_mult(*s1, spec_divide(*s2, Val::Rational(r), m, (fuel - 1) as nat), m, (fuel - 1) as nat);
                smaller_of(first, second)
            },
            (Val::Rational(r), Val::Mul(s1, s2)) => {
                let first = spec_mult(spec_divide(Val::Rational(r), *s1, m, (fuel - 1) as nat), spec_divide(Val::Int(1), *s2, m, (fuel - 1) as nat), m, (fuel - 1) as nat);
                let second = spec_mult(spec_divide(Val::Int(1), *s1, m, (fuel - 1) as nat), spec_divide(Val::Rational(r), *s2, m, (fuel - 1) as nat), m, (fuel - 1) as nat);
                smaller_of(first, second)
            },
            (Val::Mul(s1, s2), Val::Plus(s3, s4)) => {
                let first = spec_mult(spec_divide(*s1, spec_add(*s3, *s4, m, (fuel - 1) as nat), m, (fuel - 1) as nat), spec_divide(Val::Int(1), *s2, m, (fuel - 1) as nat), m, (fuel - 1) as nat);
                let second = spec_mult(spec_divide(Val::Int(1), *s1, m, (fuel - 1) as nat), spec_divide(*s2, spec_add(*s3, *s4, m, (fuel - 1) as nat), m, (fuel - 1) as nat), m, (fuel - 1) as nat);
                smaller_of(first, second)
            },
            (Val::Plus(s3, s4), Val::Mul(s1, s2)) => spec_add(spec_divide(*s3, spec_mult(*s1, *s2, m, (fuel - 1) as nat), m, (fuel - 1) as nat), spec_divide(*s4, spec_mult(*s1, *s2, m, (fuel - 1) as nat), m, (fuel - 1) as nat), m, (fuel - 1) as nat),
            (Val::Null, Val::Mul(s1, s2)) => spec_mult(*s1, *s2, m, (fuel - 1) as nat),
            (Val::Mul(s1, s2), Val::Null) => spec_mult(*s1, *s2, m, (fuel - 1) as nat),
            (Val::Var(x, y, z), Val::Var(x1, y1, z1)) => if z == z1 {
                Val::Var(
                    Box::new(spec_divide(*x, *x1, m, (fuel - 1) as nat)),
                    wrap_sub64(y, y1),
                    z,
                )
            } else {
                Val::Div(
                    Box::new(Val::Var(x, y, z)),
                    Box::new(
                        Val::Var(
                            Box::new(spec_divide(Val::Int(1), *x1, m, (fuel - 1) as nat)),
                            y1,
                            z1,
                        ),
                    ),
                )
            },
            (Val::Var(x, y, z), Val::Identifier(s)) => if z == s {
                Val::Var(x, wrap_sub64(y, 1), z)
            } else {
                Val::Div(
                    Box::new(Val::Var(x, y, z)),
                    Box::new(Val::Var(Box::new(Val::Int(1)), 1, s)),
                )
            },
            (Val::Identifier(s), Val::Var(x, y, z)) => if z == s {
                Val::Var(
                    Box::new(spec_divide(Val::Int(1), *x, m, (fuel - 1) as nat)),
                    wrap_sub64(1, y),
                    z,
                )
            } else {
                Val::Div(
                    Box::new(Val::Var(Box::new(Val::Int(1)), 1, s)),
                    Box::new(
                        Val::Var(
                            Box::new(spec_mult(Val::Int(1), *x, m, (fuel - 1) as nat)),
                            y,
                            z,
                        ),
                    ),
                )
            },
            (Val::Int(i), Val::Var(x, y, z)) => Val::Var(
                Box::new(spec_divide(Val::Int(i as int), *x, m, (fuel - 1) as nat)),
                wrap_sub64(0, y),
                z,
            ),
            (Val::Var(x, y, z), Val::Int(i)) => Val::Var(Box::new(spec_divide(*x, Val::Int(i), m, (fuel - 1) as nat)), y, z),
            (Val::Rational(r), Val::Var(x, y, z)) => Val::Var(
                Box::new(spec_divide(Val::Rational(r), *x, m, (fuel - 1) as nat)),
                wrap_sub64(0, y),
                z,
            ),
            (Val::Var(x, y, z), Val::Rational(r)) => Val::Var(Box::new(spec_divide(*x, Val::Rational(r), m, (fuel - 1) as nat)), y, z),
            (Val::Var(x, y, z), Val::Div(s1, s2)) => Val::Div(Box::new(spec_mult(Val::Var(x, y, z), *s2, m, (fuel - 1) as nat)), s1),
            (Val::Div(s1, s2), Val::Var(x, y, z)) => Val::Div(s1, Box::new(spec_mult(*s2, Val::Var(x, y, z), m, (fuel - 1) as nat))),
            (Val::Mul(s1, s2), Val::Div(s3, s4)) => Val::Div(Box::new(spec_mult(*s4, spec_mult(*s1, *s2, m, (fuel - 1) as nat), m, (fuel - 1) as nat)), s3),
            (Val::Div(s1, s2), Val::Mul(s3, s4)) => Val::Div(s1, Box::new(spec_mult(*s2, spec_mult(*s3, *s4, m, (fuel - 1) as nat), m, (fuel - 1) as nat))),
            (Val::Div(s1, s2), Val::Div(s3, s4)) => Val::Div(Box::new(spec_mult(*s1, *s4, m, (fuel - 1) as nat)), Box::new(spec_mult(*s2, *s3, m, (fuel - 1) as nat))),
            (Val::Div(s1, s2), Val::Identifier(s)) => Val::Div(s1, Box::new(spec_mult(*s2, Val::Var(Box::new(Val::Int(1)), 1, s), m, (fuel - 1) as nat))),
            (Val::Identifier(s), Val::Div(s1, s2)) => Val::Div(Box::new(spec_mult(Val::Var(Box::new(Val::Int(1)), 1, s), *s2, m, (fuel - 1) as nat)), s1),
            (Val::Div(s1, s2), Val::Int(i)) => Val::Div(s1, Box::new(spec_mult(*s2, Val::Int(i), m, (fuel - 1) as nat))),
            (Val::Int(i), Val::Div(s1, s2)) => Val::Div(Box::new(spec_mult(Val::Int(i), *s2, m, (fuel - 1) as nat)), s1),
            (Val::Div(s1, s2), Val::Rational(r)) => Val::Div(
                Box::new(spec_mult(*s1, Val::Int(r.d), m, (fuel - 1) as nat)),
                Box::new(spec_mult(*s2, Val::Int(r.n), m, (fuel - 1) as nat)),
            ),
            (Val::Rational(r), Val::Div(s1, s2)) => Val::Div(
                Box::new(spec_mult(Val::Int(r.d), *s2, m, (fuel - 1) as nat)),
                Box::new(spec_mult(*s1, Val::Int(r.n), m, (fuel - 1) as nat)),
            ),
            (Val::Div(s1, s2), Val::Plus(s3, s4)) => Val::Div(Box::new(spec_mult(*s1, spec_add(*s3, *s4, m, (fuel - 1) as nat), m, (fuel - 1) as nat)), s2),
            (Val::Plus(s3, s4), Val::Div(s1, s2)) => Val::Div(Box::new(spec_mult(*s2, spec_add(*s3, *s4, m, (fuel - 1) as nat), m, (fuel - 1) as nat)), s1),
            (Val::Null, Val::Div(s1, s2)) => spec_divide(*s2, *s1, m, (fuel - 1) as nat),
            (Val::Div(s1, s2), Val::Null) => spec_divide(*s2, *s1, m, (fuel - 1) as nat),
            _ => Val::Identifier(divide_incompatible()),
        }
    }
}

/// `divide` with an explicit depth budget.
#[verifier::rlimit(100)]
pub(crate) fn divide_fuel(i: Parameters, i2: Parameters, ram: Option<&Ram>, fuel: u64) -> (r:
    Parameters)
    requires
        val_wf(i@),
        val_wf(i2@),
        oram_wf(oram(ram)),
    ensures
        r@ == spec_divide(i@, i2@, oram(ram), fuel as nat),
        val_wf(r@),
    decreases fuel, 9int, 0int,
{
    if fuel == 0 {
        return depth_error_value();
    }
    match (i, i2) {
        (Parameters::Null, Parameters::Int(v)) => Parameters::Int(v),
        (Parameters::Int(v), Parameters::Null) => Parameters::Int(v),
        (Parameters::Int(v), Parameters::Int(v2)) => Parameters::Rational(Rationals::new(v2, v)),
        (Parameters::Null, Parameters::InterpreterVector(vec)) => Parameters::InterpreterVector(vec),
        (Parameters::InterpreterVector(vec), Parameters::Null) => Parameters::InterpreterVector(vec),
        (Parameters::Rational(s), Parameters::Null) => Parameters::Rational(s),
        (Parameters::Null, Parameters::Rational(s)) => Parameters::Rational(s),
        (Parameters::Rational(s), Parameters::Rational(s2)) => Parameters::Rational(s.div(s2)),
        (Parameters::Rational(s), Parameters::Int(i)) => Parameters::Rational(s.div(Rationals::new(1, i))),
        (Parameters::Int(i), Parameters::Rational(s)) => Parameters::Rational(Rationals::new(1, i).div(s)),
        (Parameters::Bool(_), Parameters::Int(i)) => Parameters::Int(i),
        (Parameters::Int(i), Parameters::Bool(_)) => Parameters::Int(i),
        (Parameters::Bool(b), Parameters::Null) => Parameters::Bool(b),
        (Parameters::Null, Parameters::Bool(b)) => Parameters::Bool(b),
        (Parameters::Bool(b), Parameters::Bool(b2)) => Parameters::Bool(b && b2),
        (Parameters::Identifier(s), Parameters::Identifier(s2)) => match ram {
            Some(_) => apply_operator_fuel(
                Parameters::Identifier(s),
                Parameters::Identifier(s2),
                ram,
                BinOp::Divide,
                fuel,
            ),
            None => divide_fuel(
                Parameters::Var(Box::new(Parameters::Int(1)), 1, s),
                Parameters::Var(Box::new(Parameters::Int(1)), 1, s2),
                ram,
                fuel - 1,
            ),
        },
        (Parameters::Rational(r), Parameters::Identifier(ss)) => match ram {
            Some(_) => apply_operator_reverse_fuel(
                Parameters::Rational(r),
                Parameters::Identifier(ss),
                ram,
                BinOp::Divide,
                fuel,
            ),
            None => Parameters::Div(
                Box::new(Parameters::Int(r.over)),
                Box::new(Parameters::Var(Box::new(Parameters::Int(r.under)), 1, ss)),
            ),
        },
        (Parameters::Identifier(ss), Parameters::Rational(r)) => match ram {
            Some(_) => apply_operator_fuel(
                Parameters::Identifier(ss),
                Parameters::Rational(r),
                ram,
                BinOp::Divide,
                fuel,
            ),
            None => match r.invert() {
                Ok(inv) => Parameters::Var(Box::new(Parameters::Rational(inv)), 1, ss),
                Err(_) => Parameters::Null,
            },
        },
        (Parameters::Identifier(s), Parameters::Int(i)) => match ram {
            None => Parameters::Var(
                Box::new(Parameters::Rational(Rationals::new(i, 1))),
                1,
                s,
            ),
            Some(_) => apply_operator_fuel(
                Parameters::Identifier(s),
                Parameters::Int(i),
                ram,
                BinOp::Divide,
                fuel,
            ),
        },
        (Parameters::Int(i), Parameters::Identifier(s)) => match ram {
            None => Parameters::Div(
                Box::new(Parameters::Int(i)),
                Box::new(Parameters::Var(Box::new(Parameters::Int(1)), 1, s)),
            ),
            Some(_) => divide_fuel(Parameters::Int(i), Parameters::Identifier(s), None, fuel - 1),
        },
        (Parameters::Null, Parameters::Identifier(s)) => match ram {
            None => Parameters::Div(Box::new(Parameters::Int(1)), Box::new(Parameters::Var(Box::new(Parameters::Int(1)), 1, s.clone()))),
            Some(_) => apply_operator_fuel(Parameters::Identifier(s.clone()), Parameters::Null, ram, BinOp::Divide, fuel),
        },
        (Parameters::Identifier(s), Parameters::Null) => match ram {
            None => Parameters::Div(Box::new(Parameters::Int(1)), Box::new(Parameters::Var(Box::new(Parameters::Int(1)), 1, s.clone()))),
            Some(_) => apply_operator_fuel(Parameters::Identifier(s.clone()), Parameters::Null, ram, BinOp::Divide, fuel),
        },
        (Parameters::Bool(b), Parameters::Identifier(s)) => match ram {
            None => Parameters::Bool(b),
            Some(_) => apply_operator_reverse_fuel(Parameters::Bool(b), Parameters::Identifier(s.clone()), ram, BinOp::Divide, fuel),
        },
        (Parameters::Identifier(s), Parameters::Bool(b)) => match ram {
            None => Parameters::Bool(b),
            Some(_) => apply_operator_fuel(Parameters::Identifier(s.clone()), Parameters::Bool(b), ram, BinOp::Divide, fuel),
        },
        (Parameters::Plus(s1, s2), Parameters::Plus(s3, s4)) => crate::functions::add::add_fuel(crate::functions::divide::divide_fuel((*s1).clone(), crate::functions::add::add_fuel((*s3).clone(), (*s4).clone(), ram, fuel - 1), ram, fuel - 1), crate::functions::divide::divide_fuel((*s2).clone(), crate::functions::add::add_fuel((*s3).clone(), (*s4).clone(), ram, fuel - 1), ram, fuel - 1), ram, fuel - 1),
        (Parameters::Plus(s1, s2), Parameters::Identifier(s3)) => crate::functions::add::add_fuel(crate::functions::divide::divide_fuel((*s1).clone(), Parameters::Var(Box::new(Parameters::Int(1)), 1, s3.clone()), ram, fuel - 1), crate::functions::divide::divide_fuel((*s2).clone(), Parameters::Var(Box::new(Parameters::Int(1)), 1, s3.clone()), ram, fuel - 1), ram, fuel - 1),
        (Parameters::Identifier(s3), Parameters::Plus(s1, s2)) => Parameters::Div(Box::new(Parameters::Var(Box::new(Parameters::Int(1)), 1, s3.clone())), Box::new(crate::functions::add::add_fuel((*s1).clone(), (*s2).clone(), ram, fuel - 1))),
        (Parameters::Int(i), Parameters::Plus(s1, s2)) => Parameters::Div(Box::new(Parameters::Int(i)), Box::new(crate::functions::add::add_fuel((*s1).clone(), (*s2).clone(), ram, fuel - 1))),
        (Parameters::Plus(s1, s2), Parameters::Int(i)) => crate::functions::add::add_fuel(crate::functions::divide::divide_fuel((*s1).clone(), Parameters::Int(i), ram, fuel - 1), crate::functions::divide::divide_fuel((*s2).clone(), Parameters::Int(i), ram, fuel - 1), ram, fuel - 1),
        (Parameters::Rational(r), Parameters::Plus(s1, s2)) => Parameters::Div(Box::new(Parameters::Rational(r)), Box::new(crate::functions::add::add_fuel((*s1).clone(), (*s2).clone(), ram, fuel - 1))),
        (Parameters::Plus(s1, s2), Parameters::Rational(r)) => crate::functions::add::add_fuel(crate::functions::divide::divide_fuel((*s1).clone(), Parameters::Rational(r), ram, fuel - 1), crate::functions::divide::divide_fuel((*s2).clone(), Parameters::Rational(r), ram, fuel - 1), ram, fuel - 1),
        (Parameters::Var(x, y, z), Parameters::Plus(s1, s2)) => Parameters::Div(Box::new(Parameters::Var(x.clone(), y, z.clone())), Box::new(crate::functions::add::add_fuel((*s1).clone(), (*s2).clone(), ram, fuel - 1))),
        (Parameters::Plus(s1, s2), Parameters::Var(x, y, z)) => crate::functions::add::add_fuel(crate::functions::divide::divide_fuel((*s1).clone(), Parameters::Var(x.clone(), y, z.clone()), ram, fuel - 1), crate::functions::divide::divide_fuel((*s2).clone(), Parameters::Var(x.clone(), y, z.clone()), ram, fuel - 1), ram, fuel - 1),
        (Parameters::Null, Parameters::Plus(s1, s2)) => crate::functions::add::add_fuel((*s1).clone(), (*s2).clone(), ram, fuel - 1),
        (Parameters::Plus(s1, s2), Parameters::Null) => crate::functions::add::add_fuel((*s1).clone(), (*s2).clone(), ram, fuel - 1),
        (Parameters::Var(x, y, z), Parameters::Mul(s1, s2)) => {
            let first = crate::functions::mult::mult_fuel(crate::functions::divide::divide_fuel(Parameters::Var(x.clone(), y, z.clone()), (*s1).clone(), ram, fuel - 1), crate::functions::divide::divide_fuel(Parameters::Int(1), (*s2).clone(), ram, fuel - 1), ram, fuel - 1);
            let second = crate::functions::mult::mult_fuel(crate::functions::divide::divide_fuel(Parameters::Int(1), (*s1).clone(), ram, fuel - 1), crate::functions::divide::divide_fuel(Parameters::Var(x.clone(), y, z.clone()), (*s2).clone(), ram, fuel - 1), ram, fuel - 1);
            let sz1 = crate::symbolic::size(&first);
            let sz2 = crate::symbolic::size(&second);
            if sz1 > sz2 {
                second
            } else {
                first
            }
        },
        (Parameters::Mul(s1, s2), Parameters::Var(x, y, z)) => {
            let first = crate::functions::mult::mult_fuel(crate::functions::divide::divide_fuel((*s1).clone(), Parameters::Var(x.clone(), y, z.clone()), ram, fuel - 1), (*s2).clone(), ram, fuel - 1);
            let second = crate::functions::mult::mult_fuel((*s1).clone(), crate::functions::divide::divide_fuel((*s2).clone(), Parameters::Var(x.clone(), y, z.clone()), ram, fuel - 1), ram, fuel - 1);
            let sz1 = crate::symbolic::size(&first);
            let sz2 = crate::symbolic::size(&second);
            if sz1 > sz2 {
                second
            } else {
                first
            }
        },
        (Parameters::Mul(s1, s2), Parameters::Mul(s3, s4)) => {
            let first = crate::functions::mult::mult_fuel(crate::functions::divide::divide_fuel((*s1).clone(), crate::functions::mult::mult_fuel((*s3).clone(), (*s4).clone(), ram, fuel - 1), ram, fuel - 1), (*s2).clone(), ram, fuel - 1);
            let second = crate::functions::mult::mult_fuel((*s1).clone(), crate::functions::divide::divide_fuel((*s2).clone(), crate::functions::mult::mult_fuel((*s3).clone(), (*s4).clone(), ram, fuel - 1), ram, fuel - 1), ram, fuel - 1);
            let sz1 = crate::symbolic::size(&first);
            let sz2 = crate::symbolic::size(&second);
            if sz1 > sz2 {
                second
            } else {
                first
            }
        },
        (Parameters::Mul(s1, s2), Parameters::Identifier(s)) => {
            let first = crate::functions::mult::mult_fuel(crate::functions::divide::divide_fuel((*s1).clone(), Parameters::Var(Box::new(Parameters::Int(1)), 1, s.clone()), ram, fuel - 1), (*s2).clone(), ram, fuel - 1);
            let second = crate::functions::mult::mult_fuel((*s1).clone(), crate::functions::divide::divide_fuel((*s2).clone(), Parameters::Var(Box::new(Parameters::Int(1)), 1, s.clone()), ram, fuel - 1), ram, fuel - 1);
            let sz1 = crate::symbolic::size(&first);
            let sz2 = crate::symbolic::size(&second);
            if sz1 > sz2 {
                second
            } else {
                first
            }
        },
        (Parameters::Identifier(s), Parameters::Mul(s1, s2)) => {
            let first = crate::functions::mult::mult_fuel(crate::functions::divide::divide_fuel(Parameters::Var(Box::new(Parameters::Int(1)), 1, s.clone()), (*s1).clone(), ram, fuel - 1), crate::functions::divide::divide_fuel(Parameters::Int(1), (*s2).clone(), ram, fuel - 1), ram, fuel - 1);
            let second = crate::functions::mult::mult_fuel(crate::functions::divide::divide_fuel(Parameters::Int(1), (*s1).clone(), ram, fuel - 1), crate::functions::divide::divide_fuel(Parameters::Var(Box::new(Parameters::Int(1)), 1, s.clone()), (*s2).clone(), ram, fuel - 1), ram, fuel - 1);
            let sz1 = crate::symbolic::size(&first);
            let sz2 = crate::symbolic::size(&second);
            if sz1 > sz2 {
                second
            } else {
                first
            }
        },
        (Parameters::Mul(s1, s2), Parameters::Int(i)) => {
            let first = crate::functions::mult::mult_fuel(crate::functions::divide::divide_fuel((*s1).clone(), Parameters::Int(i), ram, fuel - 1), (*s2).clone(), ram, fuel - 1);
            let second = crate::functions::mult::mult_fuel((*s1).clone(), crate::functions::divide::divide_fuel((*s2).clone(), Parameters::Int(i), ram, fuel - 1), ram, fuel - 1);
            let sz1 = crate::symbolic::size(&first);
            let sz2 = crate::symbolic::size(&second);
            if sz1 > sz2 {
                second
            } else {
                first
            }
        },
        (Parameters::Int(i), Parameters::Mul(s1, s2)) => {
            let first = crate::functions::mult::mult_fuel(crate::functions::divide::divide_fuel(Parameters::Int(i), (*s1).clone(), ram, fuel - 1), crate::functions::divide::divide_fuel(Parameters::Int(1), (*s2).clone(), ram, fuel - 1), ram, fuel - 1);
            let second = crate::functions::mult::mult_fuel(crate::functions::divide::divide_fuel(Parameters::Int(1), (*s1).clone(), ram, fuel - 1), crate::functions::divide::divide_fuel(Parameters::Int(i), (*s2).clone(), ram, fuel - 1), ram, fuel - 1);
            let sz1 = crate::symbolic::size(&first);
            let sz2 = crate::symbolic::size(&second);
            if sz1 > sz2 {
                second
            } else {
                first
            }
        },
        (Parameters::Mul(s1, s2), Parameters::Rational(r)) => {
            let first = crate::functions::mult::mult_fuel(crate::functions::divide::divide_fuel((*s1).clone(), Parameters::Rational(r), ram, fuel - 1), (*s2).clone(), ram, fuel - 1);
            let second = crate::functions::mult::mult_fuel((*s1).clone(), crate::functions::divide::divide_fuel((*s2).clone(), Parameters::Rational(r), ram, fuel - 1), ram, fuel - 1);
            let sz1 = crate::symbolic::size(&first);
            let sz2 = crate::symbolic::size(&second);
            if sz1 > sz2 {
                second
            } else {
                first
            }
        },
        (Parameters::Rational(r), Parameters::Mul(s1, s2)) => {
            let first = crate::functions::mult::mult_fuel(crate::functions::divide::divide_fuel(Parameters::Rational(r), (*s1).clone(), ram, fuel - 1), crate::functions::divide::divide_fuel(Parameters::Int(1), (*s2).clone(), ram, fuel - 1), ram, fuel - 1);
            let second = crate::functions::mult::mult_fuel(crate::functions::divide::divide_fuel(Parameters::Int(1), (*s1).clone(), ram, fuel - 1), crate::functions::divide::divide_fuel(Parameters::Rational(r), (*s2).clone(), ram, fuel - 1), ram, fuel - 1);
            let sz1 = crate::symbolic::size(&first);
            let sz2 = crate::symbolic::size(&second);
            if sz1 > sz2 {
                second
            } else {
                first
            }
        },
        (Parameters::Mul(s1, s2), Parameters::Plus(s3, s4)) => {
            let first = crate::functions::mult::mult_fuel(crate::functions::divide::divide_fuel((*s1).clone(), crate::functions::add::add_fuel((*s3).clone(), (*s4).clone(), ram, fuel - 1), ram, fuel - 1), crate::functions::divide::divide_fuel(Parameters::Int(1), (*s2).clone(), ram, fuel - 1), ram, fuel - 1);
            let second = crate::functions::mult::mult_fuel(crate::functions::divide::divide_fuel(Parameters::Int(1), (*s1).clone(), ram, fuel - 1), crate::functions::divide::divide_fuel((*s2).clone(), crate::functions::add::add_fuel((*s3).clone(), (*s4).clone(), ram, fuel - 1), ram, fuel - 1), ram, fuel - 1);
            let sz1 = crate::symbolic::size(&first);
            let sz2 = crate::symbolic::size(&second);
            if sz1 > sz2 {
                second
            } else {
                first
            }
        },
        (Parameters::Plus(s3, s4), Parameters::Mul(s1, s2)) => crate::functions::add::add_fuel(crate::functions::divide::divide_fuel((*s3).clone(), crate::functions::mult::mult_fuel((*s1).clone(), (*s2).clone(), ram, fuel - 1), ram, fuel - 1), crate::functions::divide::divide_fuel((*s4).clone(), crate::functions::mult::mult_fuel((*s1).clone(), (*s2).clone(), ram, fuel - 1), ram, fuel - 1), ram, fuel - 1),
        (Parameters::Null, Parameters::Mul(s1, s2)) => crate::functions::mult::mult_fuel((*s1).clone(), (*s2).clone(), ram, fuel - 1),
        (Parameters::Mul(s1, s2), Parameters::Null) => crate::functions::mult::mult_fuel((*s1).clone(), (*s2).clone(), ram, fuel - 1),
        (Parameters::Var(x, y, z), Parameters::Var(x1, y1, z1)) => if z == z1 {
            Parameters::Var(
                Box::new(divide_fuel((*x).clone(), (*x1).clone(), ram, fuel - 1)),
                y.wrapping_sub(y1),
                z,
            )
        } else {
            Parameters::Div(
                Box::new(Parameters::Var(x.clone(), y, z.clone())),
                Box::new(
                    Parameters::Var(
                        Box::new(divide_fuel(Parameters::Int(1), (*x1).clone(), ram, fuel - 1)),
                        y1,
                        z1,
                    ),
                ),
            )
        },
        (Parameters::Var(x, y, z), Parameters::Identifier(s)) => if z == s {
            Parameters::Var(x, y.wrapping_sub(1), z)
        } else {
            Parameters::Div(
                Box::new(Parameters::Var(x.clone(), y, z.clone())),
                Box::new(Parameters::Var(Box::new(Parameters::Int(1)), 1, s)),
            )
        },
        (Parameters::Identifier(s), Parameters::Var(x, y, z)) => if z == s {
            Parameters::Var(
                Box::new(divide_fuel(Parameters::Int(1), (*x).clone(), ram, fuel - 1)),
                (1i64).wrapping_sub(y),
                z,
            )
        } else {
            Parameters::Div(
                Box::new(Parameters::Var(Box::new(Parameters::Int(1)), 1, s)),
                Box::new(
                    Parameters::Var(
                        Box::new(
                            crate::functions::mult::mult_fuel(
                                Parameters::Int(1),
                                (*x).clone(),
                                ram,
                                fuel - 1,
                            ),
                        ),
                        y,
                        z.clone(),
                    ),
                ),
            )
        },
        (Parameters::Int(i), Parameters::Var(x, y, z)) => Parameters::Var(
            Box::new(divide_fuel(Parameters::Int(i), (*x).clone(), ram, fuel - 1)),
            (0i64).wrapping_sub(y),
            z,
        ),
        (Parameters::Var(x, y, z), Parameters::Int(i)) => Parameters::Var(Box::new(crate::functions::divide::divide_fuel((*x).clone(), Parameters::Int(i), ram, fuel - 1)), y, z.clone()),
        (Parameters::Rational(r), Parameters::Var(x, y, z)) => Parameters::Var(
            Box::new(divide_fuel(Parameters::Rational(r), (*x).clone(), ram, fuel - 1)),
            (0i64).wrapping_sub(y),
            z,
        ),
        (Parameters::Var(x, y, z), Parameters::Rational(r)) => Parameters::Var(Box::new(crate::functions::divide::divide_fuel((*x).clone(), Parameters::Rational(r), ram, fuel - 1)), y, z.clone()),
        (Parameters::Var(x, y, z), Parameters::Div(s1, s2)) => Parameters::Div(Box::new(crate::functions::mult::mult_fuel(Parameters::Var(x.clone(), y, z.clone()), (*s2).clone(), ram, fuel - 1)), s1.clone()),
        (Parameters::Div(s1, s2), Parameters::Var(x, y, z)) => Parameters::Div(s1.clone(), Box::new(crate::functions::mult::mult_fuel((*s2).clone(), Parameters::Var(x.clone(), y, z.clone()), ram, fuel - 1))),
        (Parameters::Mul(s1, s2), Parameters::Div(s3, s4)) => Parameters::Div(Box::new(crate::functions::mult::mult_fuel((*s4).clone(), crate::functions::mult::mult_fuel((*s1).clone(), (*s2).clone(), ram, fuel - 1), ram, fuel - 1)), s3.clone()),
        (Parameters::Div(s1, s2), Parameters::Mul(s3, s4)) => Parameters::Div(s1.clone(), Box::new(crate::functions::mult::mult_fuel((*s2).clone(), crate::functions::mult::mult_fuel((*s3).clone(), (*s4).clone(), ram, fuel - 1), ram, fuel - 1))),
        (Parameters::Div(s1, s2), Parameters::Div(s3, s4)) => Parameters::Div(Box::new(crate::functions::mult::mult_fuel((*s1).clone(), (*s4).clone(), ram, fuel - 1)), Box::new(crate::functions::mult::mult_fuel((*s2).clone(), (*s3).clone(), ram, fuel - 1))),
        (Parameters::Div(s1, s2), Parameters::Identifier(s)) => Parameters::Div(s1.clone(), Box::new(crate::functions::mult::mult_fuel((*s2).clone(), Parameters::Var(Box::new(Parameters::Int(1)), 1, s.clone()), ram, fuel - 1))),
        (Parameters::Identifier(s), Parameters::Div(s1, s2)) => Parameters::Div(Box::new(crate::functions::mult::mult_fuel(Parameters::Var(Box::new(Parameters::Int(1)), 1, s.clone()), (*s2).clone(), ram, fuel - 1)), s1.clone()),
        (Parameters::Div(s1, s2), Parameters::Int(i)) => Parameters::Div(s1.clone(), Box::new(crate::functions::mult::mult_fuel((*s2).clone(), Parameters::Int(i), ram, fuel - 1))),
        (Parameters::Int(i), Parameters::Div(s1, s2)) => Parameters::Div(Box::new(crate::functions::mult::mult_fuel(Parameters::Int(i), (*s2).clone(), ram, fuel - 1)), s1.clone()),
        (Parameters::Div(s1, s2), Parameters::Rational(r)) => Parameters::Div(
            Box::new(
                crate::functions::mult::mult_fuel(
                    (*s1).clone(),
                    Parameters::Int(r.under),
                    ram,
                    fuel - 1,
                ),
            ),
            Box::new(
                crate::functions::mult::mult_fuel(
                    (*s2).clone(),
                    Parameters::Int(r.over),
                    ram,
                    fuel - 1,
                ),
            ),
        ),
        (Parameters::Rational(r), Parameters::Div(s1, s2)) => Parameters::Div(
            Box::new(
                crate::functions::mult::mult_fuel(
                    Parameters::Int(r.under),
                    (*s2).clone(),
                    ram,
                    fuel - 1,
                ),
            ),
            Box::new(
                crate::functions::mult::mult_fuel(
                    (*s1).clone(),
                    Parameters::Int(r.over),
                    ram,
                    fuel - 1,
                ),
            ),
        ),
        (Parameters::Div(s1, s2), Parameters::Plus(s3, s4)) => Parameters::Div(Box::new(crate::functions::mult::mult_fuel((*s1).clone(), crate::functions::add::add_fuel((*s3).clone(), (*s4).clone(), ram, fuel - 1), ram, fuel - 1)), s2.clone()),
        (Parameters::Plus(s3, s4), Parameters::Div(s1, s2)) => Parameters::Div(Box::new(crate::functions::mult::mult_fuel((*s2).clone(), crate::functions::add::add_fuel((*s3).clone(), (*s4).clone(), ram, fuel - 1), ram, fuel - 1)), s1.clone()),
        (Parameters::Null, Parameters::Div(s1, s2)) => crate::functions::divide::divide_fuel((*s2).clone(), (*s1).clone(), ram, fuel - 1),
        (Parameters::Div(s1, s2), Parameters::Null) => crate::functions::divide::divide_fuel((*s2).clone(), (*s1).clone(), ram, fuel - 1),
        _ => divide_error(),
    }
}

/// Divide two values, resolving identifiers against the environment.
pub fn divide(i: Parameters, i2: Parameters, ram: Option<&Ram>) -> (r: Parameters)
    requires
        val_wf(i@),
        val_wf(i2@),
        oram_wf(oram(ram)),
    ensures
        r@ == spec_divide(i@, i2@, oram(ram), EVAL_DEPTH as nat),
        val_wf(r@),
{
    divide_fuel(i, i2, ram, EVAL_DEPTH)
}

} // verus!
