//! Addition over the whole value domain: exact numeric arithmetic, the
//! `Null` identity, element-wise vector addition, and the symbolic rewrite
//! rules that fold monomials and keep the structurally smaller of candidate
//! re-associations.

use vstd::prelude::*;

verus! {

broadcast use crate::value::group_value_views;

use crate::env::Ram;
use crate::functions::function::BinOp;
use crate::functions::function::EVAL_DEPTH;
use crate::functions::function::apply_operator_fuel;
use crate::functions::function::apply_operator_reverse_fuel;
use crate::functions::function::depth_error;
use crate::functions::function::depth_error_value;
use crate::functions::function::oram;
use crate::functions::function::oram_wf;
use crate::functions::function::spec_apply_operator;
use crate::functions::function::spec_apply_operator_reverse;
use crate::functions::minus::spec_minus;
use crate::functions::mult::spec_mult;
use crate::rational::Rationals;
use crate::rational::rat_add;
use crate::rational::rat_make;
use crate::symbolic::smaller_of;
use crate::value::Parameters;
use crate::value::Val;
use crate::value::lemma_param_views;
use crate::value::lemma_vals_wf;
use crate::value::param_views;
use crate::value::val_wf;
use crate::value::wrap_add64;
use vstd::string::StringExecFns;

/// Message of the incompatibility error for `add`.
pub open spec fn add_incompatible() -> Seq<char> {
    "@Those two values are incompatible with the + operator"@
}

/// Build the incompatibility error value for `add`.
fn add_error() -> (r: Parameters)
    ensures
        r@ == Val::Identifier(add_incompatible()),
{
    Parameters::Identifier("@Those two values are incompatible with the + operator".to_owned())
}

/// Element-wise sum of two vectors, truncated to the shorter one.
pub open spec fn spec_add_elems(
    v1: Seq<Val>,
    v2: Seq<Val>,
    m: Option<Map<Seq<char>, Val>>,
    fuel: nat,
) -> Seq<Val>
    decreases fuel, 5int, 0int,
{
    if fuel == 0 {
        Seq::empty()
    } else {
        Seq::new(
            if v1.len() <= v2.len() {
                v1.len()
            } else {
                v2.len()
            },
            |k: int| spec_add(v1[k], v2[k], m, (fuel - 1) as nat),
        )
    }
}

/// Element-wise sum with an explicit depth budget.
fn add_elems_fuel(v1: &Vec<Parameters>, v2: &Vec<Parameters>, ram: Option<&Ram>, fuel: u64) -> (r:
    Vec<Parameters>)
    requires
        val_wf(Val::InterpreterVector(param_views(v1@))),
        val_wf(Val::InterpreterVector(param_views(v2@))),
        oram_wf(oram(ram)),
    ensures
        param_views(r@) == spec_add_elems(param_views(v1@), param_views(v2@), oram(ram), fuel as nat),
        val_wf(Val::InterpreterVector(param_views(r@))),
    decreases fuel, 5int, 0int,
{
    proof {
        lemma_param_views(v1@);
        lemma_param_views(v2@);
        lemma_vals_wf(param_views(v1@));
        lemma_vals_wf(param_views(v2@));
        assert forall|j: int| 0 <= j < v1@.len() implies val_wf((#[trigger] v1@[j])@) by {
            assert(val_wf(param_views(v1@)[j]));
        }
        assert forall|j: int| 0 <= j < v2@.len() implies val_wf((#[trigger] v2@[j])@) by {
            assert(val_wf(param_views(v2@)[j]));
        }
    }
    let mut res: Vec<Parameters> = Vec::new();
    if fuel == 0 {
        proof {
            lemma_param_views(res@);
            lemma_vals_wf(param_views(res@));
            assert(param_views(res@) =~= spec_add_elems(
                param_views(v1@),
                param_views(v2@),
                oram(ram),
                fuel as nat,
            ));
        }
        return res;
    }
    let n = if v1.len() <= v2.len() {
        v1.len()
    } else {
        v2.len()
    };
    let mut k: usize = 0;
    while k < n
        invariant
            0 <= k <= n,
            n == (if v1@.len() <= v2@.len() {
                v1@.len()
            } else {
                v2@.len()
            }),
            fuel >= 1,
            res@.len() == k as int,
            forall|j: int| 0 <= j < k as int ==> (#[trigger] res@[j])@ == spec_add(
                v1@[j]@,
                v2@[j]@,
                oram(ram),
                (fuel - 1) as nat,
            ),
            forall|j: int| 0 <= j < k as int ==> val_wf((#[trigger] res@[j])@),
            forall|j: int| 0 <= j < v1@.len() ==> val_wf((#[trigger] v1@[j])@),
            forall|j: int| 0 <= j < v2@.len() ==> val_wf((#[trigger] v2@[j])@),
            oram_wf(oram(ram)),
        decreases n - k,
    {
        let e = add_fuel(v1[k].clone(), v2[k].clone(), ram, fuel - 1);
        res.push(e);
        k = k + 1;
    }
    proof {
        lemma_param_views(res@);
        lemma_param_views(v1@);
        lemma_param_views(v2@);
        lemma_vals_wf(param_views(res@));
        assert forall|j: int| 0 <= j < param_views(res@).len() implies val_wf(
            #[trigger] param_views(res@)[j],
        ) by {
            assert(param_views(res@)[j] == res@[j]@);
        }
        assert(param_views(res@) =~= spec_add_elems(
            param_views(v1@),
            param_views(v2@),
            oram(ram),
            fuel as nat,
        ));
    }
    res
}

/// Mathematical model of `add`.
pub open spec fn spec_add(a: Val, b: Val, m: Option<Map<Seq<char>, Val>>, fuel: nat) -> Val
    decreases fuel, 9int, 0int,
{
    if fuel == 0 {
        Val::Identifier(depth_error())
    } else {
        match (a, b) {
            (Val::Null, Val::Int(v)) => Val::Int(v),
            (Val::Null, Val::InterpreterVector(vec)) => Val::InterpreterVector(vec),
            (Val::InterpreterVector(vec), Val::Null) => Val::InterpreterVector(vec),
            (Val::Int(v), Val::Null) => Val::Int(v),
            (Val::Rational(s), Val::Null) => Val::Rational(s),
            (Val::Null, Val::Rational(s)) => Val::Rational(s),
            (Val::Rational(s), Val::Rational(s2)) => Val::Rational(rat_add(s, s2)),
            (Val::Rational(s), Val::Int(i)) => Val::Rational(rat_add(s, rat_make(i as int, 1))),
            (Val::Int(i), Val::Rational(s)) => Val::Rational(rat_add(s, rat_make(i as int, 1))),
            (Val::Int(v), Val::Int(v2)) => Val::Int(wrap_add64(v, v2)),
            (Val::InterpreterVector(vec), Val::InterpreterVector(vec2)) => Val::InterpreterVector(spec_add_elems(vec, vec2, m, fuel)),
            (Val::Bool(_), Val::Int(i)) => Val::Int(i),
            (Val::Int(i), Val::Bool(_)) => Val::Int(i),
            (Val::Bool(b), Val::Null) => Val::Bool(b),
            (Val::Null, Val::Bool(b)) => Val::Bool(b),
            (Val::Bool(b), Val::Bool(b2)) => Val::Bool(b && b2),
            (Val::Identifier(s), Val::Identifier(s2)) => match m {
                None => if s != s2 {
                    Val::Plus(Box::new(Val::Identifier(s)), Box::new(Val::Identifier(s2)))
                } else {
                    Val::Var(Box::new(Val::Int(2)), 1, s)
                },
                Some(_) => spec_apply_operator(
                    Val::Identifier(s),
                    Val::Identifier(s2),
                    m,
                    fuel,
                    BinOp::Add,
                ),
            },
            (Val::Identifier(s), Val::Int(i)) => match m {
                None => Val::Plus(Box::new(Val::Identifier(s)), Box::new(Val::Int(i))),
                Some(_) => spec_apply_operator(Val::Identifier(s), Val::Int(i), m, fuel, BinOp::Add),
            },
            (Val::Null, Val::Identifier(s)) => match m {
                None => Val::Identifier(s),
                Some(_) => spec_apply_operator(Val::Identifier(s), Val::Null, m, fuel, BinOp::Add),
            },
            (Val::Rational(r), Val::Identifier(ss)) => match m {
                None => Val::Plus(Box::new(Val::Rational(r)), Box::new(Val::Identifier(ss))),
                Some(_) => spec_apply_operator_reverse(Val::Rational(r), Val::Identifier(ss), m, fuel, BinOp::Add),
            },
            (Val::Identifier(ss), Val::Rational(r)) => match m {
                None => Val::Plus(Box::new(Val::Identifier(ss)), Box::new(Val::Rational(r))),
                Some(_) => spec_apply_operator(Val::Identifier(ss), Val::Rational(r), m, fuel, BinOp::Add),
            },
            (Val::Identifier(s), Val::Null) => match m {
                None => Val::Identifier(s),
                Some(_) => spec_apply_operator(Val::Identifier(s), Val::Null, m, fuel, BinOp::Add),
            },
            (Val::Int(i), Val::Identifier(s)) => match m {
                None => Val::Plus(Box::new(Val::Identifier(s)), Box::new(Val::Int(i))),
                Some(_) => spec_apply_operator(Val::Identifier(s), Val::Int(i), m, fuel, BinOp::Add),
            },
            (Val::Identifier(s), Val::InterpreterVector(vec)) => match m {
                None => Val::Null,
                Some(_) => spec_apply_operator(Val::Identifier(s), Val::InterpreterVector(vec), m, fuel, BinOp::Add),
            },
            (Val::InterpreterVector(vec), Val::Identifier(s)) => match m {
                None => Val::Null,
                Some(_) => spec_apply_operator(Val::Identifier(s), Val::InterpreterVector(vec), m, fuel, BinOp::Add),
            },
            (Val::Bool(b), Val::Identifier(s)) => match m {
                None => Val::Null,
                Some(_) => spec_apply_operator_reverse(Val::Bool(b), Val::Identifier(s), m, fuel, BinOp::Add),
            },
            (Val::Identifier(s), Val::Bool(b)) => match m {
                None => Val::Null,
                Some(_) => spec_apply_operator(Val::Identifier(s), Val::Bool(b), m, fuel, BinOp::Add),
            },
            (Val::Plus(s1, s2), Val::Plus(s3, s4)) => {
                let first = Val::Plus(Box::new(spec_add(*s1, *s3, m, (fuel - 1) as nat)), Box::new(spec_add(*s2, *s4, m, (fuel - 1) as nat)));
                let second = Val::Plus(Box::new(spec_add(*s1, *s4, m, (fuel - 1) as nat)), Box::new(spec_add(*s2, *s3, m, (fuel - 1) as nat)));
                smaller_of(first, second)
            },
            (Val::Plus(s1, s2), Val::Identifier(s3)) => {
                let first = Val::Plus(Box::new(spec_add(*s1, Val::Identifier(s3), m, (fuel - 1) as nat)), s2);
                let second = Val::Plus(s1, Box::new(spec_add(*s2, Val::Identifier(s3), m, (fuel - 1) as nat)));
                smaller_of(first, second)
            },
            (Val::Identifier(s3), Val::Plus(s1, s2)) => {
                let first = Val::Plus(Box::new(spec_add(*s1, Val::Identifier(s3), m, (fuel - 1) as nat)), s2);
                let second = Val::Plus(s1, Box::new(spec_add(*s2, Val::Identifier(s3), m, (fuel - 1) as nat)));
                smaller_of(first, second)
            },
            (Val::Int(i), Val::Plus(s1, s2)) => {
                let first = Val::Plus(Box::new(spec_add(*s1, Val::Int(i), m, (fuel - 1) as nat)), s2);
                let second = Val::Plus(s1, Box::new(spec_add(*s2, Val::Int(i), m, (fuel - 1) as nat)));
                smaller_of(first, second)
            },
            (Val::Plus(s1, s2), Val::Int(i)) => {
                let first = Val::Plus(Box::new(spec_add(*s1, Val::Int(i), m, (fuel - 1) as nat)), s2);
                let second = Val::Plus(s1, Box::new(spec_add(*s2, Val::Int(i), m, (fuel - 1) as nat)));
                smaller_of(first, second)
            },
            (Val::Plus(s1, s2), Val::Rational(r)) => {
                let first = Val::Plus(Box::new(spec_add(*s1, Val::Rational(r), m, (fuel - 1) as nat)), s2);
                let second = Val::Plus(s1, Box::new(spec_add(*s2, Val::Rational(r), m, (fuel - 1) as nat)));
                smaller_of(first, second)
            },
            (Val::Rational(r), Val::Plus(s1, s2)) => {
                let first = Val::Plus(Box::new(spec_add(*s1, Val::Rational(r), m, (fuel - 1) as nat)), s2);
                let second = Val::Plus(s1, Box::new(spec_add(*s2, Val::Rational(r), m, (fuel - 1) as nat)));
                smaller_of(first, second)
            },
            (Val::Plus(s1, s2), Val::Var(x, y, z)) => {
                let first = Val::Plus(Box::new(spec_add(*s1, Val::Var(x, y, z), m, (fuel - 1) as nat)), s2);
                let second = Val::Plus(s1, Box::new(spec_add(*s2, Val::Var(x, y, z), m, (fuel - 1) as nat)));
                smaller_of(first, second)
            },
            (Val::Var(x, y, z), Val::Plus(s1, s2)) => {
                let first = Val::Plus(Box::new(spec_add(Val::Var(x, y, z), *s1, m, (fuel - 1) as nat)), s2);
                let second = Val::Plus(s1, Box::new(spec_add(Val::Var(x, y, z), *s2, m, (fuel - 1) as nat)));
                smaller_of(first, second)
            },
            (Val::Plus(s1, s2), Val::Null) => Val::Plus(s1, s2),
            (Val::Null, Val::Plus(s1, s2)) => Val::Plus(s1, s2),
            (Val::Mul(s1, s2), Val::Mul(s3, s4)) => Val::Plus(Box::new(Val::Mul(s1, s2)), Box::new(Val::Mul(s3, s4))),
            (Val::Mul(s1, s2), Val::Identifier(s)) => Val::Plus(Box::new(Val::Mul(s1, s2)), Box::new(Val::Var(Box::new(Val::Int(1)), 1, s))),
            (Val::Identifier(s), Val::Mul(s1, s2)) => Val::Plus(Box::new(Val::Var(Box::new(Val::Int(1)), 1, s)), Box::new(Val::Mul(s1, s2))),
            (Val::Mul(s1, s2), Val::Int(i)) => Val::Plus(Box::new(Val::Mul(s1, s2)), Box::new(Val::Int(i))),
            (Val::Int(i), Val::Mul(s1, s2)) => Val::Plus(Box::new(Val::Int(i)), Box::new(Val::Mul(s1, s2))),
            (Val::Mul(s1, s2), Val::Rational(r)) => Val::Plus(Box::new(Val::Mul(s1, s2)), Box::new(Val::Rational(r))),
            (Val::Rational(r), Val::Mul(s1, s2)) => Val::Plus(Box::new(Val::Rational(r)), Box::new(Val::Mul(s1, s2))),
            (Val::Var(x, y, z), Val::Mul(s1, s2)) => Val::Plus(Box::new(Val::Var(x, y, z)), Box::new(Val::Mul(s1, s2))),
            (Val::Mul(s1, s2), Val::Var(x, y, z)) => Val::Plus(Box::new(Val::Mul(s1, s2)), Box::new(Val::Var(x, y, z))),
            (Val::Mul(s1, s2), Val::Plus(s3, s4)) => Val::Plus(Box::new(Val::Mul(s1, s2)), Box::new(Val::Plus(s3, s4))),
            (Val::Plus(s3, s4), Val::Mul(s1, s2)) => Val::Plus(Box::new(Val::Plus(s3, s4)), Box::new(Val::Mul(s1, s2))),
            (Val::Null, Val::Mul(s1, s2)) => Val::Mul(s1, s2),
            (Val::Mul(s1, s2), Val::Null) => Val::Mul(s1, s2),
            (Val::Var(x, y, z), Val::Var(x1, y1, z1)) => if z == z1 && y == y1 {
                Val::Var(Box::new(spec_add(*x, *x1, m, (fuel - 1) as nat)), y, z)
            } else {
                Val::Plus(Box::new(Val::Var(x, y, z)), Box::new(Val::Var(x1, y1, z1)))
            },
            (Val::Var(x, y, z), Val::Identifier(s)) => if z == s && y == 1 {
                Val::Var(Box::new(spec_add(*x, Val::Int(1), m, (fuel - 1) as nat)), y, z)
            } else {
                Val::Plus(Box::new(Val::Var(x, y, z)), Box::new(Val::Var(Box::new(Val::Int(1)), 1, s)))
            },
            (Val::Identifier(s), Val::Var(x, y, z)) => if z == s && y == 1 {
                Val::Var(Box::new(spec_add(*x, Val::Int(1), m, (fuel - 1) as nat)), y, z)
            } else {
                Val::Plus(Box::new(Val::Var(x, y, z)), Box::new(Val::Var(Box::new(Val::Int(1)), 1, s)))
            },
            (Val::Int(i), Val::Var(x, y, z)) => Val::Plus(Box::new(Val::Int(i)), Box::new(Val::Var(x, y, z))),
            (Val::Var(x, y, z), Val::Int(i)) => Val::Plus(Box::new(Val::Var(x, y, z)), Box::new(Val::Int(i))),
            (Val::Rational(r), Val::Var(x, y, z)) => Val::Plus(Box::new(Val::Rational(r)), Box::new(Val::Var(x, y, z))),
            (Val::Var(x, y, z), Val::Rational(r)) => Val::Plus(Box::new(Val::Var(x, y, z)), Box::new(Val::Rational(r))),
            (Val::Var(x, y, z), Val::Div(s1, s2)) => Val::Div(Box::new(spec_add(spec_mult(Val::Var(x, y, z), *s2, m, (fuel - 1) as nat), *s1, m, (fuel - 1) as nat)), s2),
            (Val::Div(s1, s2), Val::Var(x, y, z)) => Val::Div(Box::new(spec_add(spec_mult(Val::Var(x, y, z), *s2, m, (fuel - 1) as nat), *s1, m, (fuel - 1) as nat)), s2),
            (Val::Mul(s1, s2), Val::Div(s3, s4)) => Val::Div(Box::new(spec_add(spec_mult(*s4, spec_mult(*s1, *s2, m, (fuel - 1) as nat), m, (fuel - 1) as nat), *s3, m, (fuel - 1) as nat)), s4),
            (Val::Div(s1, s2), Val::Mul(s3, s4)) => Val::Div(Box::new(spec_add(spec_mult(*s2, spec_mult(*s3, *s4, m, (fuel - 1) as nat), m, (fuel - 1) as nat), *s1, m, (fuel - 1) as nat)), s2),
            (Val::Div(s1, s2), Val::Div(s3, s4)) => Val::Div(Box::new(spec_add(spec_mult(*s1, *s4, m, (fuel - 1) as nat), spec_mult(*s2, *s3, m, (fuel - 1) as nat), m, (fuel - 1) as nat)), Box::new(spec_mult(*s2, *s4, m, (fuel - 1) as nat))),
            (Val::Div(s1, s2), Val::Identifier(s)) => Val::Div(Box::new(spec_add(spec_mult(*s2, Val::Var(Box::new(Val::Int(1)), 1, s), m, (fuel - 1) as nat), *s1, m, (fuel - 1) as nat)), s2),
            (Val::Identifier(s), Val::Div(s1, s2)) => Val::Div(Box::new(spec_add(spec_mult(Val::Var(Box::new(Val::Int(1)), 1, s), *s1, m, (fuel - 1) as nat), *s1, m, (fuel - 1) as nat)), s2),
            (Val::Div(s1, s2), Val::Int(i)) => Val::Div(Box::new(spec_add(spec_mult(*s2, Val::Int(i), m, (fuel - 1) as nat), *s1, m, (fuel - 1) as nat)), s2),
            (Val::Int(i), Val::Div(s1, s2)) => Val::Div(Box::new(spec_add(spec_mult(Val::Int(i), *s2, m, (fuel - 1) as nat), *s1, m, (fuel - 1) as nat)), s2),
            (Val::Div(s1, s2), Val::Rational(r)) => Val::Div(Box::new(spec_add(spec_mult(*s2, Val::Rational(r), m, (fuel - 1) as nat), *s1, m, (fuel - 1) as nat)), s2),
            (Val::Rational(r), Val::Div(s1, s2)) => Val::Div(Box::new(spec_add(spec_mult(Val::Rational(r), *s2, m, (fuel - 1) as nat), *s1, m, (fuel - 1) as nat)), s2),
            (Val::Div(s1, s2), Val::Plus(s3, s4)) => Val::Div(Box::new(spec_add(*s1, spec_mult(*s2, spec_add(*s3, *s4, m, (fuel - 1) as nat), m, (fuel - 1) as nat), m, (fuel - 1) as nat)), s2),
            (Val::Plus(s3, s4), Val::Div(s1, s2)) => Val::Div(Box::new(spec_add(spec_mult(*s2, spec_add(*s3, *s4, m, (fuel - 1) as nat), m, (fuel - 1) as nat), *s1, m, (fuel - 1) as nat)), s1),
            (Val::Null, Val::Div(s1, s2)) => Val::Div(s1, s2),
            (Val::Div(s1, s2), Val::Null) => Val::Div(s1, s2),
            (Val::Call(x, y), Val::Call(a, b)) => Val::Plus(Box::new(Val::Call(x, y)), Box::new(Val::Call(a, b))),
            (Val::Call(x, y), Val::Null) => Val::Call(x, y),
            (Val::Null, Val::Call(x, y)) => Val::Call(x, y),
            (Val::Call(x, y), Val::Int(i)) => Val::Plus(Box::new(Val::Call(x, y)), Box::new(Val::Int(i))),
            (Val::Call(x, y), Val::Rational(r)) => Val::Plus(Box::new(Val::Call(x, y)), Box::new(Val::Rational(r))),
            (Val::Int(i), Val::Call(x, y)) => Val::Plus(Box::new(Val::Call(x, y)), Box::new(Val::Int(i))),
            (Val::Rational(r), Val::Call(x, y)) => Val::Plus(Box::new(Val::Call(x, y)), Box::new(Val::Rational(r))),
            (Val::Call(x, y), Val::Identifier(a)) => Val::Plus(Box::new(Val::Call(x, y)), Box::new(Val::Var(Box::new(Val::Int(1)), 1, a))),
            (Val::Identifier(a), Val::Call(x, y)) => Val::Plus(Box::new(Val::Var(Box::new(Val::Int(1)), 1, a)), Box::new(Val::Call(x, y))),
            (Val::Call(x, y), Val::Var(a, b, c)) => Val::Plus(Box::new(Val::Call(x, y)), Box::new(Val::Var(a, b, c))),
            (Val::Var(a, b, c), Val::Call(x, y)) => Val::Plus(Box::new(Val::Var(a, b, c)), Box::new(Val::Call(x, y))),
            (Val::Call(x, y), Val::Plus(a, b)) => Val::Plus(Box::new(Val::Plus(a, b)), Box::new(Val::Call(x, y))),
            (Val::Plus(a, b), Val::Call(x, y)) => Val::Plus(Box::new(Val::Call(x, y)), Box::new(Val::Plus(a, b))),
            (Val::Call(x, y), Val::Mul(a, b)) => Val::Plus(Box::new(Val::Call(x, y)), Box::new(Val::Mul(a, b))),
            (Val::Mul(a, b), Val::Call(x, y)) => Val::Plus(Box::new(Val::Mul(a, b)), Box::new(Val::Call(x, y))),
            (Val::Call(x, y), Val::Div(a, b)) => Val::Plus(Box::new(Val::Call(x, y)), Box::new(Val::Div(a, b))),
            (Val::Div(a, b), Val::Call(x, y)) => Val::Plus(Box::new(Val::Div(a, b)), Box::new(Val::Call(x, y))),
            _ => Val::Identifier(add_incompatible()),
        }
    }
}

/// `add` with an explicit depth budget.
#[verifier::rlimit(100)]
pub(crate) fn add_fuel(i: Parameters, i2: Parameters, ram: Option<&Ram>, fuel: u64) -> (r:
    Parameters)
    requires
        val_wf(i@),
        val_wf(i2@),
        oram_wf(oram(ram)),
    ensures
        r@ == spec_add(i@, i2@, oram(ram), fuel as nat),
        val_wf(r@),
    decreases fuel, 9int, 0int,
{
    if fuel == 0 {
        return depth_error_value();
    }
    match (i, i2) {
        (Parameters::Null, Parameters::Int(v)) => Parameters::Int(v),
        (Parameters::Null, Parameters::InterpreterVector(vec)) => Parameters::InterpreterVector(vec),
        (Parameters::InterpreterVector(vec), Parameters::Null) => Parameters::InterpreterVector(vec),
        (Parameters::Int(v), Parameters::Null) => Parameters::Int(v),
        (Parameters::Rational(s), Parameters::Null) => Parameters::Rational(s),
        (Parameters::Null, Parameters::Rational(s)) => Parameters::Rational(s),
        (Parameters::Rational(s), Parameters::Rational(s2)) => Parameters::Rational(s.add(s2)),
        (Parameters::Rational(s), Parameters::Int(i)) => Parameters::Rational(s.add(Rationals::new(1, i))),
        (Parameters::Int(i), Parameters::Rational(s)) => Parameters::Rational(s.add(Rationals::new(1, i))),
        (Parameters::Int(v), Parameters::Int(v2)) => Parameters::Int(v.wrapping_add(v2)),
        (Parameters::InterpreterVector(vec), Parameters::InterpreterVector(vec2)) => {
            let res = add_elems_fuel(&vec, &vec2, ram, fuel);
            Parameters::InterpreterVector(Box::new(res))
        },
        (Parameters::Bool(_), Parameters::Int(i)) => Parameters::Int(i),
        (Parameters::Int(i), Parameters::Bool(_)) => Parameters::Int(i),
        (Parameters::Bool(b), Parameters::Null) => Parameters::Bool(b),
        (Parameters::Null, Parameters::Bool(b)) => Parameters::Bool(b),
        (Parameters::Bool(b), Parameters::Bool(b2)) => Parameters::Bool(b && b2),
        (Parameters::Identifier(s), Parameters::Identifier(s2)) => match ram {
            None => if !(s == s2) {
                Parameters::Plus(
                    Box::new(Parameters::Identifier(s)),
                    Box::new(Parameters::Identifier(s2)),
                )
            } else {
                Parameters::Var(Box::new(Parameters::Int(2)), 1, s)
            },
            Some(_) => apply_operator_fuel(
                Parameters::Identifier(s),
                Parameters::Identifier(s2),
                ram,
                BinOp::Add,
                fuel,
            ),
        },
        (Parameters::Identifier(s), Parameters::Int(i)) => match ram {
            None => Parameters::Plus(Box::new(Parameters::Identifier(s.clone())), Box::new(Parameters::Int(i))),
            Some(_) => apply_operator_fuel(Parameters::Identifier(s.clone()), Parameters::Int(i), ram, BinOp::Add, fuel),
        },
        (Parameters::Null, Parameters::Identifier(s)) => match ram {
            None => Parameters::Identifier(s.clone()),
            Some(_) => apply_operator_fuel(Parameters::Identifier(s.clone()), Parameters::Null, ram, BinOp::Add, fuel),
        },
        (Parameters::Rational(r), Parameters::Identifier(ss)) => match ram {
            None => Parameters::Plus(Box::new(Parameters::Rational(r)), Box::new(Parameters::Identifier(ss.clone()))),
            Some(_) => apply_operator_reverse_fuel(Parameters::Rational(r), Parameters::Identifier(ss.clone()), ram, BinOp::Add, fuel),
        },
        (Parameters::Identifier(ss), Parameters::Rational(r)) => match ram {
            None => Parameters::Plus(Box::new(Parameters::Identifier(ss.clone())), Box::new(Parameters::Rational(r))),
            Some(_) => apply_operator_fuel(Parameters::Identifier(ss.clone()), Parameters::Rational(r), ram, BinOp::Add, fuel),
        },
        (Parameters::Identifier(s), Parameters::Null) => match ram {
            None => Parameters::Identifier(s.clone()),
            Some(_) => apply_operator_fuel(Parameters::Identifier(s.clone()), Parameters::Null, ram, BinOp::Add, fuel),
        },
        (Parameters::Int(i), Parameters::Identifier(s)) => match ram {
            None => Parameters::Plus(Box::new(Parameters::Identifier(s.clone())), Box::new(Parameters::Int(i))),
            Some(_) => apply_operator_fuel(Parameters::Identifier(s.clone()), Parameters::Int(i), ram, BinOp::Add, fuel),
        },
        (Parameters::Identifier(s), Parameters::InterpreterVector(vec)) => match ram {
            None => Parameters::Null,
            Some(_) => apply_operator_fuel(Parameters::Identifier(s.clone()), Parameters::InterpreterVector(vec), ram, BinOp::Add, fuel),
        },
        (Parameters::InterpreterVector(vec), Parameters::Identifier(s)) => match ram {
            None => Parameters::Null,
            Some(_) => apply_operator_fuel(Parameters::Identifier(s.clone()), Parameters::InterpreterVector(vec), ram, BinOp::Add, fuel),
        },
        (Parameters::Bool(b), Parameters::Identifier(s)) => match ram {
            None => Parameters::Null,
            Some(_) => apply_operator_reverse_fuel(Parameters::Bool(b), Parameters::Identifier(s.clone()), ram, BinOp::Add, fuel),
        },
        (Parameters::Identifier(s), Parameters::Bool(b)) => match ram {
            None => Parameters::Null,
            Some(_) => apply_operator_fuel(Parameters::Identifier(s.clone()), Parameters::Bool(b), ram, BinOp::Add, fuel),
        },
        (Parameters::Plus(s1, s2), Parameters::Plus(s3, s4)) => {
            let first = Parameters::Plus(Box::new(crate::functions::add::add_fuel((*s1).clone(), (*s3).clone(), ram, fuel - 1)), Box::new(crate::functions::add::add_fuel((*s2).clone(), (*s4).clone(), ram, fuel - 1)));
            let second = Parameters::Plus(Box::new(crate::functions::add::add_fuel((*s1).clone(), (*s4).clone(), ram, fuel - 1)), Box::new(crate::functions::add::add_fuel((*s2).clone(), (*s3).clone(), ram, fuel - 1)));
            let sz1 = crate::symbolic::size(&first);
            let sz2 = crate::symbolic::size(&second);
            if sz1 > sz2 {
                second
            } else {
                first
            }
        },
        (Parameters::Plus(s1, s2), Parameters::Identifier(s3)) => {
            let first = Parameters::Plus(Box::new(crate::functions::add::add_fuel((*s1).clone(), Parameters::Identifier(s3.clone()), ram, fuel - 1)), s2.clone());
            let second = Parameters::Plus(s1.clone(), Box::new(crate::functions::add::add_fuel((*s2).clone(), Parameters::Identifier(s3.clone()), ram, fuel - 1)));
            let sz1 = crate::symbolic::size(&first);
            let sz2 = crate::symbolic::size(&second);
            if sz1 > sz2 {
                second
            } else {
                first
            }
        },
        (Parameters::Identifier(s3), Parameters::Plus(s1, s2)) => {
            let first = Parameters::Plus(Box::new(crate::functions::add::add_fuel((*s1).clone(), Parameters::Identifier(s3.clone()), ram, fuel - 1)), s2.clone());
            let second = Parameters::Plus(s1.clone(), Box::new(crate::functions::add::add_fuel((*s2).clone(), Parameters::Identifier(s3.clone()), ram, fuel - 1)));
            let sz1 = crate::symbolic::size(&first);
            let sz2 = crate::symbolic::size(&second);
            if sz1 > sz2 {
                second
            } else {
                first
            }
        },
        (Parameters::Int(i), Parameters::Plus(s1, s2)) => {
            let first = Parameters::Plus(Box::new(crate::functions::add::add_fuel((*s1).clone(), Parameters::Int(i), ram, fuel - 1)), s2.clone());
            let second = Parameters::Plus(s1.clone(), Box::new(crate::functions::add::add_fuel((*s2).clone(), Parameters::Int(i), ram, fuel - 1)));
            let sz1 = crate::symbolic::size(&first);
            let sz2 = crate::symbolic::size(&second);
            if sz1 > sz2 {
                second
            } else {
                first
            }
        },
        (Parameters::Plus(s1, s2), Parameters::Int(i)) => {
            let first = Parameters::Plus(Box::new(crate::functions::add::add_fuel((*s1).clone(), Parameters::Int(i), ram, fuel - 1)), s2.clone());
            let second = Parameters::Plus(s1.clone(), Box::new(crate::functions::add::add_fuel((*s2).clone(), Parameters::Int(i), ram, fuel - 1)));
            let sz1 = crate::symbolic::size(&first);
            let sz2 = crate::symbolic::size(&second);
            if sz1 > sz2 {
                second
            } else {
                first
            }
        },
        (Parameters::Plus(s1, s2), Parameters::Rational(r)) => {
            let first = Parameters::Plus(Box::new(crate::functions::add::add_fuel((*s1).clone(), Parameters::Rational(r), ram, fuel - 1)), s2.clone());
            let second = Parameters::Plus(s1.clone(), Box::new(crate::functions::add::add_fuel((*s2).clone(), Parameters::Rational(r), ram, fuel - 1)));
            let sz1 = crate::symbolic::size(&first);
            let sz2 = crate::symbolic::size(&second);
            if sz1 > sz2 {
                second
            } else {
                first
            }
        },
        (Parameters::Rational(r), Parameters::Plus(s1, s2)) => {
            let first = Parameters::Plus(Box::new(crate::functions::add::add_fuel((*s1).clone(), Parameters::Rational(r), ram, fuel - 1)), s2.clone());
            let second = Parameters::Plus(s1.clone(), Box::new(crate::functions::add::add_fuel((*s2).clone(), Parameters::Rational(r), ram, fuel - 1)));
            let sz1 = crate::symbolic::size(&first);
            let sz2 = crate::symbolic::size(&second);
            if sz1 > sz2 {
                second
            } else {
                first
            }
        },
        (Parameters::Plus(s1, s2), Parameters::Var(x, y, z)) => {
            let first = Parameters::Plus(Box::new(crate::functions::add::add_fuel((*s1).clone(), Parameters::Var(x.clone(), y, z.clone()), ram, fuel - 1)), s2.clone());
            let second = Parameters::Plus(s1.clone(), Box::new(crate::functions::add::add_fuel((*s2).clone(), Parameters::Var(x.clone(), y, z.clone()), ram, fuel - 1)));
            let sz1 = crate::symbolic::size(&first);
            let sz2 = crate::symbolic::size(&second);
            if sz1 > sz2 {
                second
            } else {
                first
            }
        },
        (Parameters::Var(x, y, z), Parameters::Plus(s1, s2)) => {
            let first = Parameters::Plus(Box::new(crate::functions::add::add_fuel(Parameters::Var(x.clone(), y, z.clone()), (*s1).clone(), ram, fuel - 1)), s2.clone());
            let second = Parameters::Plus(s1.clone(), Box::new(crate::functions::add::add_fuel(Parameters::Var(x.clone(), y, z.clone()), (*s2).clone(), ram, fuel - 1)));
            let sz1 = crate::symbolic::size(&first);
            let sz2 = crate::symbolic::size(&second);
            if sz1 > sz2 {
                second
            } else {
                first
            }
        },
        (Parameters::Plus(s1, s2), Parameters::Null) => Parameters::Plus(s1.clone(), s2.clone()),
        (Parameters::Null, Parameters::Plus(s1, s2)) => Parameters::Plus(s1.clone(), s2.clone()),
        (Parameters::Mul(s1, s2), Parameters::Mul(s3, s4)) => Parameters::Plus(Box::new(Parameters::Mul(s1.clone(), s2.clone())), Box::new(Parameters::Mul(s3.clone(), s4.clone()))),
        (Parameters::Mul(s1, s2), Parameters::Identifier(s)) => Parameters::Plus(Box::new(Parameters::Mul(s1.clone(), s2.clone())), Box::new(Parameters::Var(Box::new(Parameters::Int(1)), 1, s.clone()))),
        (Parameters::Identifier(s), Parameters::Mul(s1, s2)) => Parameters::Plus(Box::new(Parameters::Var(Box::new(Parameters::Int(1)), 1, s.clone())), Box::new(Parameters::Mul(s1.clone(), s2.clone()))),
        (Parameters::Mul(s1, s2), Parameters::Int(i)) => Parameters::Plus(Box::new(Parameters::Mul(s1.clone(), s2.clone())), Box::new(Parameters::Int(i))),
        (Parameters::Int(i), Parameters::Mul(s1, s2)) => Parameters::Plus(Box::new(Parameters::Int(i)), Box::new(Parameters::Mul(s1.clone(), s2.clone()))),
        (Parameters::Mul(s1, s2), Parameters::Rational(r)) => Parameters::Plus(Box::new(Parameters::Mul(s1.clone(), s2.clone())), Box::new(Parameters::Rational(r))),
        (Parameters::Rational(r), Parameters::Mul(s1, s2)) => Parameters::Plus(Box::new(Parameters::Rational(r)), Box::new(Parameters::Mul(s1.clone(), s2.clone()))),
        (Parameters::Var(x, y, z), Parameters::Mul(s1, s2)) => Parameters::Plus(Box::new(Parameters::Var(x.clone(), y, z.clone())), Box::new(Parameters::Mul(s1.clone(), s2.clone()))),
        (Parameters::Mul(s1, s2), Parameters::Var(x, y, z)) => Parameters::Plus(Box::new(Parameters::Mul(s1.clone(), s2.clone())), Box::new(Parameters::Var(x.clone(), y, z.clone()))),
        (Parameters::Mul(s1, s2), Parameters::Plus(s3, s4)) => Parameters::Plus(Box::new(Parameters::Mul(s1.clone(), s2.clone())), Box::new(Parameters::Plus(s3.clone(), s4.clone()))),
        (Parameters::Plus(s3, s4), Parameters::Mul(s1, s2)) => Parameters::Plus(Box::new(Parameters::Plus(s3.clone(), s4.clone())), Box::new(Parameters::Mul(s1.clone(), s2.clone()))),
        (Parameters::Null, Parameters::Mul(s1, s2)) => Parameters::Mul(s1.clone(), s2.clone()),
        (Parameters::Mul(s1, s2), Parameters::Null) => Parameters::Mul(s1.clone(), s2.clone()),
        (Parameters::Var(x, y, z), Parameters::Var(x1, y1, z1)) => if z == z1 && y == y1 {
            Parameters::Var(Box::new(crate::functions::add::add_fuel((*x).clone(), (*x1).clone(), ram, fuel - 1)), y, z.clone())
        } else {
            Parameters::Plus(Box::new(Parameters::Var(x.clone(), y, z.clone())), Box::new(Parameters::Var(x1.clone(), y1, z1.clone())))
        },
        (Parameters::Var(x, y, z), Parameters::Identifier(s)) => if z == s && y == 1 {
            Parameters::Var(Box::new(crate::functions::add::add_fuel((*x).clone(), Parameters::Int(1), ram, fuel - 1)), y, z.clone())
        } else {
            Parameters::Plus(Box::new(Parameters::Var(x.clone(), y, z.clone())), Box::new(Parameters::Var(Box::new(Parameters::Int(1)), 1, s.clone())))
        },
        (Parameters::Identifier(s), Parameters::Var(x, y, z)) => if z == s && y == 1 {
            Parameters::Var(Box::new(crate::functions::add::add_fuel((*x).clone(), Parameters::Int(1), ram, fuel - 1)), y, z.clone())
        } else {
            Parameters::Plus(Box::new(Parameters::Var(x.clone(), y, z.clone())), Box::new(Parameters::Var(Box::new(Parameters::Int(1)), 1, s.clone())))
        },
        (Parameters::Int(i), Parameters::Var(x, y, z)) => Parameters::Plus(Box::new(Parameters::Int(i)), Box::new(Parameters::Var(x.clone(), y, z.clone()))),
        (Parameters::Var(x, y, z), Parameters::Int(i)) => Parameters::Plus(Box::new(Parameters::Var(x.clone(), y, z.clone())), Box::new(Parameters::Int(i))),
        (Parameters::Rational(r), Parameters::Var(x, y, z)) => Parameters::Plus(Box::new(Parameters::Rational(r)), Box::new(Parameters::Var(x.clone(), y, z.clone()))),
        (Parameters::Var(x, y, z), Parameters::Rational(r)) => Parameters::Plus(Box::new(Parameters::Var(x.clone(), y, z.clone())), Box::new(Parameters::Rational(r))),
        (Parameters::Var(x, y, z), Parameters::Div(s1, s2)) => Parameters::Div(Box::new(crate::functions::add::add_fuel(crate::functions::mult::mult_fuel(Parameters::Var(x.clone(), y, z.clone()), (*s2).clone(), ram, fuel - 1), (*s1).clone(), ram, fuel - 1)), s2.clone()),
        (Parameters::Div(s1, s2), Parameters::Var(x, y, z)) => Parameters::Div(Box::new(crate::functions::add::add_fuel(crate::functions::mult::mult_fuel(Parameters::Var(x.clone(), y, z.clone()), (*s2).clone(), ram, fuel - 1), (*s1).clone(), ram, fuel - 1)), s2.clone()),
        (Parameters::Mul(s1, s2), Parameters::Div(s3, s4)) => Parameters::Div(Box::new(crate::functions::add::add_fuel(crate::functions::mult::mult_fuel((*s4).clone(), crate::functions::mult::mult_fuel((*s1).clone(), (*s2).clone(), ram, fuel - 1), ram, fuel - 1), (*s3).clone(), ram, fuel - 1)), s4.clone()),
        (Parameters::Div(s1, s2), Parameters::Mul(s3, s4)) => Parameters::Div(Box::new(crate::functions::add::add_fuel(crate::functions::mult::mult_fuel((*s2).clone(), crate::functions::mult::mult_fuel((*s3).clone(), (*s4).clone(), ram, fuel - 1), ram, fuel - 1), (*s1).clone(), ram, fuel - 1)), s2.clone()),
        (Parameters::Div(s1, s2), Parameters::Div(s3, s4)) => Parameters::Div(Box::new(crate::functions::add::add_fuel(crate::functions::mult::mult_fuel((*s1).clone(), (*s4).clone(), ram, fuel - 1), crate::functions::mult::mult_fuel((*s2).clone(), (*s3).clone(), ram, fuel - 1), ram, fuel - 1)), Box::new(crate::functions::mult::mult_fuel((*s2).clone(), (*s4).clone(), ram, fuel - 1))),
        (Parameters::Div(s1, s2), Parameters::Identifier(s)) => Parameters::Div(Box::new(crate::functions::add::add_fuel(crate::functions::mult::mult_fuel((*s2).clone(), Parameters::Var(Box::new(Parameters::Int(1)), 1, s.clone()), ram, fuel - 1), (*s1).clone(), ram, fuel - 1)), s2.clone()),
        (Parameters::Identifier(s), Parameters::Div(s1, s2)) => Parameters::Div(Box::new(crate::functions::add::add_fuel(crate::functions::mult::mult_fuel(Parameters::Var(Box::new(Parameters::Int(1)), 1, s.clone()), (*s1).clone(), ram, fuel - 1), (*s1).clone(), ram, fuel - 1)), s2.clone()),
        (Parameters::Div(s1, s2), Parameters::Int(i)) => Parameters::Div(Box::new(crate::functions::add::add_fuel(crate::functions::mult::mult_fuel((*s2).clone(), Parameters::Int(i), ram, fuel - 1), (*s1).clone(), ram, fuel - 1)), s2.clone()),
        (Parameters::Int(i), Parameters::Div(s1, s2)) => Parameters::Div(Box::new(crate::functions::add::add_fuel(crate::functions::mult::mult_fuel(Parameters::Int(i), (*s2).clone(), ram, fuel - 1), (*s1).clone(), ram, fuel - 1)), s2.clone()),
        (Parameters::Div(s1, s2), Parameters::Rational(r)) => Parameters::Div(Box::new(crate::functions::add::add_fuel(crate::functions::mult::mult_fuel((*s2).clone(), Parameters::Rational(r), ram, fuel - 1), (*s1).clone(), ram, fuel - 1)), s2.clone()),
        (Parameters::Rational(r), Parameters::Div(s1, s2)) => Parameters::Div(Box::new(crate::functions::add::add_fuel(crate::functions::mult::mult_fuel(Parameters::Rational(r), (*s2).clone(), ram, fuel - 1), (*s1).clone(), ram, fuel - 1)), s2.clone()),
        (Parameters::Div(s1, s2), Parameters::Plus(s3, s4)) => Parameters::Div(Box::new(crate::functions::add::add_fuel((*s1).clone(), crate::functions::mult::mult_fuel((*s2).clone(), crate::functions::add::add_fuel((*s3).clone(), (*s4).clone(), ram, fuel - 1), ram, fuel - 1), ram, fuel - 1)), s2.clone()),
        (Parameters::Plus(s3, s4), Parameters::Div(s1, s2)) => Parameters::Div(Box::new(crate::functions::add::add_fuel(crate::functions::mult::mult_fuel((*s2).clone(), crate::functions::add::add_fuel((*s3).clone(), (*s4).clone(), ram, fuel - 1), ram, fuel - 1), (*s1).clone(), ram, fuel - 1)), s1.clone()),
        (Parameters::Null, Parameters::Div(s1, s2)) => Parameters::Div(s1.clone(), s2.clone()),
        (Parameters::Div(s1, s2), Parameters::Null) => Parameters::Div(s1.clone(), s2.clone()),
        (Parameters::Call(x, y), Parameters::Call(a, b)) => Parameters::Plus(Box::new(Parameters::Call(x.clone(), y.clone())), Box::new(Parameters::Call(a.clone(), b.clone()))),
        (Parameters::Call(x, y), Parameters::Null) => Parameters::Call(x.clone(), y.clone()),
        (Parameters::Null, Parameters::Call(x, y)) => Parameters::Call(x.clone(), y.clone()),
        (Parameters::Call(x, y), Parameters::Int(i)) => Parameters::Plus(Box::new(Parameters::Call(x.clone(), y.clone())), Box::new(Parameters::Int(i))),
        (Parameters::Call(x, y), Parameters::Rational(r)) => Parameters::Plus(Box::new(Parameters::Call(x.clone(), y.clone())), Box::new(Parameters::Rational(r))),
        (Parameters::Int(i), Parameters::Call(x, y)) => Parameters::Plus(Box::new(Parameters::Call(x.clone(), y.clone())), Box::new(Parameters::Int(i))),
        (Parameters::Rational(r), Parameters::Call(x, y)) => Parameters::Plus(Box::new(Parameters::Call(x.clone(), y.clone())), Box::new(Parameters::Rational(r))),
        (Parameters::Call(x, y), Parameters::Identifier(a)) => Parameters::Plus(Box::new(Parameters::Call(x.clone(), y.clone())), Box::new(Parameters::Var(Box::new(Parameters::Int(1)), 1, a.clone()))),
        (Parameters::Identifier(a), Parameters::Call(x, y)) => Parameters::Plus(Box::new(Parameters::Var(Box::new(Parameters::Int(1)), 1, a.clone())), Box::new(Parameters::Call(x.clone(), y.clone()))),
        (Parameters::Call(x, y), Parameters::Var(a, b, c)) => Parameters::Plus(Box::new(Parameters::Call(x.clone(), y.clone())), Box::new(Parameters::Var(a.clone(), b, c.clone()))),
        (Parameters::Var(a, b, c), Parameters::Call(x, y)) => Parameters::Plus(Box::new(Parameters::Var(a.clone(), b, c.clone())), Box::new(Parameters::Call(x.clone(), y.clone()))),
        (Parameters::Call(x, y), Parameters::Plus(a, b)) => Parameters::Plus(Box::new(Parameters::Plus(a.clone(), b.clone())), Box::new(Parameters::Call(x.clone(), y.clone()))),
        (Parameters::Plus(a, b), Parameters::Call(x, y)) => Parameters::Plus(Box::new(Parameters::Call(x.clone(), y.clone())), Box::new(Parameters::Plus(a.clone(), b.clone()))),
        (Parameters::Call(x, y), Parameters::Mul(a, b)) => Parameters::Plus(Box::new(Parameters::Call(x.clone(), y.clone())), Box::new(Parameters::Mul(a.clone(), b.clone()))),
        (Parameters::Mul(a, b), Parameters::Call(x, y)) => Parameters::Plus(Box::new(Parameters::Mul(a.clone(), b.clone())), Box::new(Parameters::Call(x.clone(), y.clone()))),
        (Parameters::Call(x, y), Parameters::Div(a, b)) => Parameters::Plus(Box::new(Parameters::Call(x.clone(), y.clone())), Box::new(Parameters::Div(a.clone(), b.clone()))),
        (Parameters::Div(a, b), Parameters::Call(x, y)) => Parameters::Plus(Box::new(Parameters::Div(a.clone(), b.clone())), Box::new(Parameters::Call(x.clone(), y.clone()))),
        _ => add_error(),
    }
}

/// Add two values, resolving identifiers against the environment.
pub fn add(i: Parameters, i2: Parameters, ram: Option<&Ram>) -> (r: Parameters)
    requires
        val_wf(i@),
        val_wf(i2@),
        oram_wf(oram(ram)),
    ensures
        r@ == spec_add(i@, i2@, oram(ram), EVAL_DEPTH as nat),
        val_wf(r@),
{
    add_fuel(i, i2, ram, EVAL_DEPTH)
}

} // verus!
