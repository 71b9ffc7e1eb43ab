//! Subtraction over the whole value domain, with `Null` acting as negation
//! on the missing side, element-wise vector subtraction, and the symbolic
//! rewrite rules mirroring those of addition.

use vstd::prelude::*;

verus! {

broadcast use crate::value::group_value_views;

use crate::env::Ram;
use crate::functions::function::BinOp;
use crate::functions::function::EVAL_DEPTH;
use crate::functions::function::apply_operator_fuel;
use crate::functions::function::apply_operator_reverse_fuel;
use crate::functions::function::depth_error;
use crate::functions::function::depth_error_value;
use crate::functions::function::oram;
use crate::functions::function::oram_wf;
use crate::functions::function::spec_apply_operator;
use crate::functions::function::spec_apply_operator_reverse;
use crate::functions::add::spec_add;
use crate::functions::divide::spec_divide;
use crate::functions::mult::spec_mult;
use crate::rational::Rationals;
use crate::rational::rat_make;
use crate::rational::rat_sub;
use crate::symbolic::smaller_of;
use crate::value::Parameters;
use crate::value::Val;
use crate::value::lemma_param_views;
use crate::value::lemma_vals_wf;
use crate::value::param_views;
use crate::value::val_wf;
use crate::value::wrap_sub64;
use vstd::string::StringExecFns;

/// Message of the incompatibility error for `minus`.
pub open spec fn minus_incompatible() -> Seq<char> {
    "@Those two values are incompatible with the - operator"@
}

/// Build the incompatibility error value for `minus`.
fn minus_error() -> (r: Parameters)
    ensures
        r@ == Val::Identifier(minus_incompatible()),
{
    Parameters::Identifier("@Those two values are incompatible with the - operator".to_owned())
}

/// Element-wise negation of a vector (each element subtracted from `Null`).
pub open spec fn spec_neg_elems(v: Seq<Val>, m: Option<Map<Seq<char>, Val>>, fuel: nat) -> Seq<Val>
    decreases fuel, 5int, 0int,
{
    if fuel == 0 {
        Seq::empty()
    } else {
        Seq::new(v.len(), |k: int| spec_minus(Val::Null, v[k], m, (fuel - 1) as nat))
    }
}

/// Element-wise difference of two vectors, truncated to the shorter one.
pub open spec fn spec_sub_elems(
    v1: Seq<Val>,
    v2: Seq<Val>,
    m: Option<Map<Seq<char>, Val>>,
    fuel: nat,
) -> Seq<Val>
    decreases fuel, 5int, 0int,
{
    if fuel == 0 {
        Seq::empty()
    } else {
        Seq::new(
            if v1.len() <= v2.len() {
                v1.len()
            } else {
                v2.len()
            },
            |k: int| spec_minus(v1[k], v2[k], m, (fuel - 1) as nat),
        )
    }
}

/// Element-wise negation with an explicit depth budget.
fn neg_elems_fuel(v1: &Vec<Parameters>, ram: Option<&Ram>, fuel: u64) -> (r: Vec<Parameters>)
    requires
        val_wf(Val::InterpreterVector(param_views(v1@))),
        oram_wf(oram(ram)),
    ensures
        param_views(r@) == spec_neg_elems(param_views(v1@), oram(ram), fuel as nat),
        val_wf(Val::InterpreterVector(param_views(r@))),
    decreases fuel, 5int, 0int,
{
    proof {
        lemma_param_views(v1@);
        lemma_vals_wf(param_views(v1@));
        assert forall|j: int| 0 <= j < v1@.len() implies val_wf((#[trigger] v1@[j])@) by {
            assert(val_wf(param_views(v1@)[j]));
        }
    }
    let mut res: Vec<Parameters> = Vec::new();
    if fuel == 0 {
        proof {
            lemma_param_views(res@);
            lemma_vals_wf(param_views(res@));
            assert(param_views(res@) =~= spec_neg_elems(param_views(v1@), oram(ram), fuel as nat));
        }
        return res;
    }
    let n = v1.len();
    let mut k: usize = 0;
    while k < n
        invariant
            0 <= k <= n,
            n == v1@.len(),
            fuel >= 1,
            res@.len() == k as int,
            forall|j: int| 0 <= j < k as int ==> (#[trigger] res@[j])@ == spec_minus(
                Val::Null,
                v1@[j]@,
                oram(ram),
                (fuel - 1) as nat,
            ),
            forall|j: int| 0 <= j < k as int ==> val_wf((#[trigger] res@[j])@),
            forall|j: int| 0 <= j < v1@.len() ==> val_wf((#[trigger] v1@[j])@),
            oram_wf(oram(ram)),
        decreases n - k,
    {
        let e = minus_fuel(Parameters::Null, v1[k].clone(), ram, fuel - 1);
        res.push(e);
        k = k + 1;
    }
    proof {
        lemma_param_views(res@);
        lemma_param_views(v1@);
        lemma_vals_wf(param_views(res@));
        assert forall|j: int| 0 <= j < param_views(res@).len() implies val_wf(
            #[trigger] param_views(res@)[j],
        ) by {
            assert(param_views(res@)[j] == res@[j]@);
        }
        assert(param_views(res@) =~= spec_neg_elems(param_views(v1@), oram(ram), fuel as nat));
    }
    res
}

/// Element-wise difference with an explicit depth budget.
fn sub_elems_fuel(v1: &Vec<Parameters>, v2: &Vec<Parameters>, ram: Option<&Ram>, fuel: u64) -> (r:
    Vec<Parameters>)
    requires
        val_wf(Val::InterpreterVector(param_views(v1@))),
        val_wf(Val::InterpreterVector(param_views(v2@))),
        oram_wf(oram(ram)),
    ensures
        param_views(r@) == spec_sub_elems(param_views(v1@), param_views(v2@), oram(ram), fuel as nat),
        val_wf(Val::InterpreterVector(param_views(r@))),
    decreases fuel, 5int, 0int,
{
    proof {
        lemma_param_views(v1@);
        lemma_param_views(v2@);
        lemma_vals_wf(param_views(v1@));
        lemma_vals_wf(param_views(v2@));
        assert forall|j: int| 0 <= j < v1@.len() implies val_wf((#[trigger] v1@[j])@) by {
            assert(val_wf(param_views(v1@)[j]));
        }
        assert forall|j: int| 0 <= j < v2@.len() implies val_wf((#[trigger] v2@[j])@) by {
            assert(val_wf(param_views(v2@)[j]));
        }
    }
    let mut res: Vec<Parameters> = Vec::new();
    if fuel == 0 {
        proof {
            lemma_param_views(res@);
            lemma_vals_wf(param_views(res@));
            assert(param_views(res@) =~= spec_sub_elems(
                param_views(v1@),
                param_views(v2@),
                oram(ram),
                fuel as nat,
            ));
        }
        return res;
    }
    let n = if v1.len() <= v2.len() {
        v1.len()
    } else {
        v2.len()
    };
    let mut k: usize = 0;
    while k < n
        invariant
            0 <= k <= n,
            n == (if v1@.len() <= v2@.len() {
                v1@.len()
            } else {
                v2@.len()
            }),
            fuel >= 1,
            res@.len() == k as int,
            forall|j: int| 0 <= j < k as int ==> (#[trigger] res@[j])@ == spec_minus(
                v1@[j]@,
                v2@[j]@,
                oram(ram),
                (fuel - 1) as nat,
            ),
            forall|j: int| 0 <= j < k as int ==> val_wf((#[trigger] res@[j])@),
            forall|j: int| 0 <= j < v1@.len() ==> val_wf((#[trigger] v1@[j])@),
            forall|j: int| 0 <= j < v2@.len() ==> val_wf((#[trigger] v2@[j])@),
            oram_wf(oram(ram)),
        decreases n - k,
    {
        let e = minus_fuel(v1[k].clone(), v2[k].clone(), ram, fuel - 1);
        res.push(e);
        k = k + 1;
    }
    proof {
        lemma_param_views(res@);
        lemma_param_views(v1@);
        lemma_param_views(v2@);
        lemma_vals_wf(param_views(res@));
        assert forall|j: int| 0 <= j < param_views(res@).len() implies val_wf(
            #[trigger] param_views(res@)[j],
        ) by {
            assert(param_views(res@)[j] == res@[j]@);
        }
        assert(param_views(res@) =~= spec_sub_elems(
            param_views(v1@),
            param_views(v2@),
            oram(ram),
            fuel as nat,
        ));
    }
    res
}

/// Mathematical model of `minus`.
pub open spec fn spec_minus(a: Val, b: Val, m: Option<Map<Seq<char>, Val>>, fuel: nat) -> Val
    decreases fuel, 9int, 0int,
{
    if fuel == 0 {
        Val::Identifier(depth_error())
    } else {
        match (a, b) {
            (Val::Null, Val::Int(v)) => Val::Int(wrap_sub64(0, v as int)),
            (Val::Int(v), Val::Null) => Val::Int(wrap_sub64(0, v as int)),
            (Val::Int(v), Val::Int(v2)) => Val::Int(wrap_sub64(v as int, v2 as int)),
            (Val::Rational(s), Val::Null) => Val::Rational(rat_sub(rat_make(0, 1), s)),
            (Val::Null, Val::Rational(s)) => Val::Rational(rat_make(-(s.n), s.d)),
            (Val::Rational(s), Val::Rational(s2)) => Val::Rational(rat_sub(s, s2)),
            (Val::Rational(s), Val::Int(i)) => Val::Rational(rat_sub(s, rat_make(i as int, 1))),
            (Val::Int(i), Val::Rational(s)) => Val::Rational(rat_sub(rat_make(i as int, 1), s)),
            (Val::InterpreterVector(vec), Val::Null) => Val::InterpreterVector(spec_neg_elems(vec, m, fuel)),
            (Val::Null, Val::InterpreterVector(vec)) => Val::InterpreterVector(spec_neg_elems(vec, m, fuel)),
            (Val::InterpreterVector(vec), Val::InterpreterVector(vec2)) => Val::InterpreterVector(spec_sub_elems(vec, vec2, m, fuel)),
            (Val::Bool(_), Val::Int(i)) => Val::Int(i),
            (Val::Int(i), Val::Bool(_)) => Val::Int(i),
            (Val::Bool(b), Val::Null) => Val::Bool(b),
            (Val::Null, Val::Bool(b)) => Val::Bool(b),
            (Val::Bool(b), Val::Bool(b2)) => Val::Bool(b && b2),
            (Val::Identifier(s), Val::Identifier(s2)) => match m {
                None => if s != s2 {
                    Val::Plus(
                        Box::new(Val::Var(Box::new(Val::Int(1)), 1, s)),
                        Box::new(Val::Var(Box::new(Val::Int(-1)), 1, s2)),
                    )
                } else {
                    Val::Int(0)
                },
                Some(_) => spec_apply_operator(
                    Val::Identifier(s),
                    Val::Identifier(s2),
                    m,
                    fuel,
                    BinOp::Minus,
                ),
            },
            (Val::Identifier(s), Val::Int(i)) => match m {
                None => Val::Plus(
                    Box::new(Val::Identifier(s)),
                    Box::new(Val::Int(wrap_sub64(0, i as int))),
                ),
                Some(_) => spec_apply_operator_reverse(
                    Val::Int(i as int),
                    Val::Identifier(s),
                    m,
                    fuel,
                    BinOp::Minus,
                ),
            },
            (Val::Null, Val::Identifier(s)) => match m {
                None => Val::Var(Box::new(Val::Int(-1)), 1, s),
                Some(_) => spec_apply_operator(Val::Identifier(s), Val::Null, m, fuel, BinOp::Minus),
            },
            (Val::Identifier(s), Val::Null) => match m {
                None => Val::Var(Box::new(Val::Int(-1)), 1, s),
                Some(_) => spec_apply_operator_reverse(Val::Identifier(s), Val::Null, m, fuel, BinOp::Minus),
            },
            (Val::Rational(r), Val::Identifier(ss)) => match m {
                None => Val::Plus(Box::new(Val::Rational(r)), Box::new(Val::Var(Box::new(Val::Int(-1)), 1, ss))),
                Some(_) => spec_apply_operator_reverse(Val::Rational(r), Val::Identifier(ss), m, fuel, BinOp::Minus),
            },
            (Val::Identifier(ss), Val::Rational(r)) => match m {
                None => Val::Plus(
                    Box::new(Val::Var(Box::new(Val::Int(1)), 1, ss)),
                    Box::new(Val::Rational(rat_make(-(r.n), r.d))),
                ),
                Some(_) => spec_apply_operator(
                    Val::Identifier(ss),
                    Val::Rational(r),
                    m,
                    fuel,
                    BinOp::Minus,
                ),
            },
            (Val::Int(i), Val::Identifier(s)) => match m {
                None => Val::Plus(
                    Box::new(Val::Int(i as int)),
                    Box::new(Val::Var(Box::new(Val::Int(-1)), 1, s)),
                ),
                Some(_) => {
                    let v = spec_apply_operator(
                        Val::Identifier(s),
                        Val::Int(i as int),
                        m,
                        fuel,
                        BinOp::Minus,
                    );
                    match v {
                        Val::Int(n) => Val::Int(wrap_sub64(0, n)),
                        _ => spec_minus(Val::Int(0), v, None, (fuel - 1) as nat),
                    }
                },
            },
            (Val::InterpreterVector(vec), Val::Identifier(s)) => match m {
                None => Val::InterpreterVector(vec),
                Some(_) => spec_apply_operator_reverse(Val::InterpreterVector(vec), Val::Identifier(s), m, fuel, BinOp::Minus),
            },
            (Val::Identifier(s), Val::InterpreterVector(vec)) => match m {
                None => Val::InterpreterVector(vec),
                Some(_) => spec_apply_operator(Val::Identifier(s), Val::InterpreterVector(vec), m, fuel, BinOp::Minus),
            },
            (Val::Bool(b), Val::Identifier(s)) => match m {
                None => Val::Bool(b),
                Some(_) => spec_apply_operator_reverse(Val::Bool(b), Val::Identifier(s), m, fuel, BinOp::Minus),
            },
            (Val::Identifier(s), Val::Bool(b)) => match m {
                None => Val::Bool(b),
                Some(_) => spec_apply_operator(Val::Identifier(s), Val::Bool(b), m, fuel, BinOp::Minus),
            },
            (Val::Plus(s1, s2), Val::Plus(s3, s4)) => {
                let first = Val::Plus(Box::new(spec_minus(*s1, *s3, m, (fuel - 1) as nat)), Box::new(spec_minus(*s2, *s4, m, (fuel - 1) as nat)));
                let second = Val::Plus(Box::new(spec_minus(*s1, *s4, m, (fuel - 1) as nat)), Box::new(spec_minus(*s2, *s3, m, (fuel - 1) as nat)));
                smaller_of(first, second)
            },
            (Val::Plus(s1, s2), Val::Identifier(s3)) => {
                let first = Val::Plus(Box::new(spec_minus(*s1, Val::Identifier(s3), m, (fuel - 1) as nat)), s2);
                let second = Val::Plus(s1, Box::new(spec_minus(*s2, Val::Identifier(s3), m, (fuel - 1) as nat)));
                smaller_of(first, second)
            },
            (Val::Identifier(s3), Val::Plus(s1, s2)) => {
                let first = Val::Plus(Box::new(spec_minus(Val::Identifier(s3), *s1, m, (fuel - 1) as nat)), Box::new(spec_minus(Val::Int(0), *s2, m, (fuel - 1) as nat)));
                let second = Val::Plus(Box::new(spec_minus(Val::Int(0), *s1, m, (fuel - 1) as nat)), Box::new(spec_minus(Val::Identifier(s3), *s2, m, (fuel - 1) as nat)));
                smaller_of(first, second)
            },
            (Val::Int(i), Val::Plus(s1, s2)) => {
                let first = Val::Plus(Box::new(spec_minus(Val::Int(i), *s1, m, (fuel - 1) as nat)), Box::new(spec_minus(Val::Int(0), *s2, m, (fuel - 1) as nat)));
                let second = Val::Plus(Box::new(spec_minus(Val::Int(0), *s1, m, (fuel - 1) as nat)), Box::new(spec_minus(Val::Int(i), *s2, m, (fuel - 1) as nat)));
                smaller_of(first, second)
            },
            (Val::Plus(s1, s2), Val::Int(i)) => {
                let first = Val::Plus(Box::new(spec_minus(*s1, Val::Int(i), m, (fuel - 1) as nat)), s2);
                let second = Val::Plus(s1, Box::new(spec_minus(*s2, Val::Int(i), m, (fuel - 1) as nat)));
                smaller_of(first, second)
            },
            (Val::Plus(s1, s2), Val::Rational(r)) => {
                let first = Val::Plus(Box::new(spec_minus(*s1, Val::Rational(r), m, (fuel - 1) as nat)), s2);
                let second = Val::Plus(s1, Box::new(spec_minus(*s2, Val::Rational(r), m, (fuel - 1) as nat)));
                smaller_of(first, second)
            },
            (Val::Rational(r), Val::Plus(s1, s2)) => {
                let first = Val::Plus(Box::new(spec_minus(Val::Rational(r), *s1, m, (fuel - 1) as nat)), Box::new(spec_minus(Val::Int(0), *s2, m, (fuel - 1) as nat)));
                let second = Val::Plus(Box::new(spec_minus(Val::Int(0), *s1, m, (fuel - 1) as nat)), Box::new(spec_minus(Val::Rational(r), *s2, m, (fuel - 1) as nat)));
                smaller_of(first, second)
            },
            (Val::Plus(s1, s2), Val::Var(x, y, z)) => {
                let first = Val::Plus(Box::new(spec_minus(*s1, Val::Var(x, y, z), m, (fuel - 1) as nat)), s2);
                let second = Val::Plus(s1, Box::new(spec_minus(*s2, Val::Var(x, y, z), m, (fuel - 1) as nat)));
                smaller_of(first, second)
            },
            (Val::Var(x, y, z), Val::Plus(s1, s2)) => {
                let first = Val::Plus(Box::new(spec_minus(Val::Var(x, y, z), *s1, m, (fuel - 1) as nat)), Box::new(spec_minus(Val::Int(0), *s2, m, (fuel - 1) as nat)));
                let second = Val::Plus(Box::new(spec_minus(Val::Int(0), *s1, m, (fuel - 1) as nat)), Box::new(spec_minus(Val::Var(x, y, z), *s2, m, (fuel - 1) as nat)));
                smaller_of(first, second)
            },
            (Val::Null, Val::Plus(s1, s2)) => Val::Plus(Box::new(spec_minus(Val::Int(0), *s1, m, (fuel - 1) as nat)), Box::new(spec_minus(Val::Int(0), *s2, m, (fuel - 1) as nat))),
            (Val::Plus(s1, s2), Val::Null) => Val::Plus(Box::new(spec_minus(Val::Int(0), *s1, m, (fuel - 1) as nat)), Box::new(spec_minus(Val::Int(0), *s2, m, (fuel - 1) as nat))),
            (Val::Mul(s1, s2), Val::Mul(s3, s4)) => Val::Plus(Box::new(Val::Mul(s1, s2)), Box::new(Val::Mul(Box::new(spec_minus(Val::Int(0), *s3, m, (fuel - 1) as nat)), s4))),
            (Val::Mul(s1, s2), Val::Identifier(s)) => Val::Plus(Box::new(Val::Mul(s1, s2)), Box::new(Val::Var(Box::new(Val::Int(-1)), 1, s))),
            (Val::Identifier(s), Val::Mul(s1, s2)) => Val::Plus(Box::new(Val::Var(Box::new(Val::Int(1)), 1, s)), Box::new(Val::Mul(Box::new(spec_minus(Val::Int(0), *s1, m, (fuel - 1) as nat)), s2))),
            (Val::Mul(s1, s2), Val::Int(i)) => Val::Plus(Box::new(Val::Mul(s1, s2)), Box::new(Val::Int(wrap_sub64(0, i as int)))),
            (Val::Int(i), Val::Mul(s1, s2)) => Val::Plus(Box::new(Val::Int(i)), Box::new(Val::Mul(Box::new(spec_minus(Val::Int(0), *s1, m, (fuel - 1) as nat)), s2))),
            (Val::Mul(s1, s2), Val::Rational(r)) => Val::Plus(Box::new(Val::Mul(s1, s2)), Box::new(Val::Rational(rat_make(-(r.n), r.d)))),
            (Val::Rational(r), Val::Mul(s1, s2)) => Val::Plus(Box::new(Val::Rational(r)), Box::new(Val::Mul(Box::new(spec_minus(Val::Int(0), *s1, m, (fuel - 1) as nat)), s2))),
            (Val::Var(x, y, z), Val::Mul(s1, s2)) => Val::Plus(Box::new(Val::Var(x, y, z)), Box::new(Val::Mul(Box::new(spec_minus(Val::Int(0), *s1, m, (fuel - 1) as nat)), s2))),
            (Val::Mul(s1, s2), Val::Var(x, y, z)) => Val::Plus(Box::new(Val::Mul(s1, s2)), Box::new(Val::Var(Box::new(spec_minus(Val::Int(0), *x, m, (fuel - 1) as nat)), y, z))),
            (Val::Mul(s1, s2), Val::Plus(s3, s4)) => Val::Plus(Box::new(Val::Mul(s1, s2)), Box::new(Val::Plus(Box::new(spec_minus(Val::Int(0), *s3, m, (fuel - 1) as nat)), Box::new(spec_minus(Val::Int(0), *s4, m, (fuel - 1) as nat))))),
            (Val::Plus(s3, s4), Val::Mul(s1, s2)) => Val::Plus(Box::new(Val::Plus(s3, s4)), Box::new(Val::Mul(Box::new(spec_minus(Val::Int(0), *s1, m, (fuel - 1) as nat)), s2))),
            (Val::Null, Val::Mul(s1, s2)) => Val::Mul(Box::new(spec_minus(Val::Int(0), *s1, m, (fuel - 1) as nat)), s2),
            (Val::Mul(s1, s2), Val::Null) => Val::Mul(Box::new(spec_minus(Val::Int(0), *s1, m, (fuel - 1) as nat)), s2),
            (Val::Var(x, y, z), Val::Var(x1, y1, z1)) => if z == z1 && y == y1 {
                Val::Var(Box::new(spec_minus(*x, *x1, m, (fuel - 1) as nat)), y, z)
            } else {
                Val::Plus(Box::new(Val::Var(x, y, z)), Box::new(Val::Var(Box::new(spec_minus(Val::Int(0), *x1, m, (fuel - 1) as nat)), y1, z1)))
            },
            (Val::Var(x, y, z), Val::Identifier(s)) => if z == s && y == 1 {
                Val::Var(Box::new(spec_minus(*x, Val::Int(1), m, (fuel - 1) as nat)), y, z)
            } else {
                Val::Plus(Box::new(Val::Var(x, y, z)), Box::new(Val::Var(Box::new(Val::Int(-1)), 1, s)))
            },
            (Val::Identifier(s), Val::Var(x, y, z)) => if z == s && y == 1 {
                Val::Var(Box::new(spec_minus(Val::Int(1), *x, m, (fuel - 1) as nat)), y, z)
            } else {
                Val::Plus(Box::new(Val::Var(Box::new(spec_minus(Val::Int(0), *x, m, (fuel - 1) as nat)), y, z)), Box::new(Val::Var(Box::new(Val::Int(1)), 1, s)))
            },
            (Val::Int(i), Val::Var(x, y, z)) => Val::Plus(Box::new(Val::Int(i)), Box::new(Val::Var(Box::new(spec_minus(Val::Int(0), *x, m, (fuel - 1) as nat)), y, z))),
            (Val::Var(x, y, z), Val::Int(i)) => Val::Plus(Box::new(Val::Var(x, y, z)), Box::new(Val::Int(wrap_sub64(0, i as int)))),
            (Val::Rational(r), Val::Var(x, y, z)) => Val::Plus(Box::new(Val::Rational(r)), Box::new(Val::Var(Box::new(spec_minus(Val::Int(0), *x, m, (fuel - 1) as nat)), y, z))),
            (Val::Var(x, y, z), Val::Rational(r)) => Val::Plus(Box::new(Val::Var(x, y, z)), Box::new(Val::Rational(rat_make(-(r.n), r.d)))),
            (Val::Var(x, y, z), Val::Div(s1, s2)) => Val::Div(Box::new(spec_minus(spec_mult(Val::Var(x, y, z), *s2, m, (fuel - 1) as nat), *s1, m, (fuel - 1) as nat)), s2),
            (Val::Div(s1, s2), Val::Var(x, y, z)) => Val::Div(Box::new(spec_minus(*s1, spec_mult(*s2, Val::Var(x, y, z), m, (fuel - 1) as nat), m, (fuel - 1) as nat)), s2),
            (Val::Mul(s1, s2), Val::Div(s3, s4)) => Val::Div(Box::new(spec_minus(spec_mult(*s4, spec_mult(*s1, *s2, m, (fuel - 1) as nat), m, (fuel - 1) as nat), *s3, m, (fuel - 1) as nat)), s4),
            (Val::Div(s1, s2), Val::Mul(s3, s4)) => Val::Div(Box::new(spec_minus(*s3, spec_mult(*s4, spec_mult(*s1, *s2, m, (fuel - 1) as nat), m, (fuel - 1) as nat), m, (fuel - 1) as nat)), s4),
            (Val::Div(s1, s2), Val::Div(s3, s4)) => Val::Div(Box::new(spec_minus(spec_mult(*s1, *s4, m, (fuel - 1) as nat), spec_mult(*s2, *s3, m, (fuel - 1) as nat), m, (fuel - 1) as nat)), Box::new(spec_mult(*s2, *s4, m, (fuel - 1) as nat))),
            (Val::Div(s1, s2), Val::Identifier(s)) => Val::Div(Box::new(spec_minus(*s1, spec_mult(*s2, Val::Var(Box::new(Val::Int(1)), 1, s), m, (fuel - 1) as nat), m, (fuel - 1) as nat)), s2),
            (Val::Identifier(s), Val::Div(s1, s2)) => Val::Div(Box::new(spec_minus(spec_mult(*s2, Val::Var(Box::new(Val::Int(1)), 1, s), m, (fuel - 1) as nat), *s1, m, (fuel - 1) as nat)), s2),
            (Val::Div(s1, s2), Val::Int(i)) => Val::Div(Box::new(spec_mult(*s1, Val::Int(i), m, (fuel - 1) as nat)), s2),
            (Val::Int(i), Val::Div(s1, s2)) => Val::Div(Box::new(spec_mult(Val::Int(i), *s1, m, (fuel - 1) as nat)), s2),
            (Val::Div(s1, s2), Val::Rational(r)) => Val::Div(Box::new(spec_minus(*s1, spec_mult(*s2, Val::Rational(r), m, (fuel - 1) as nat), m, (fuel - 1) as nat)), s2),
            (Val::Rational(r), Val::Div(s1, s2)) => Val::Div(Box::new(spec_minus(spec_mult(Val::Rational(r), *s2, m, (fuel - 1) as nat), *s1, m, (fuel - 1) as nat)), s2),
            (Val::Div(s1, s2), Val::Plus(s3, s4)) => Val::Div(Box::new(spec_minus(*s1, spec_mult(*s2, spec_add(*s3, *s4, m, (fuel - 1) as nat), m, (fuel - 1) as nat), m, (fuel - 1) as nat)), s2),
            (Val::Plus(s3, s4), Val::Div(s1, s2)) => Val::Div(Box::new(spec_minus(spec_mult(*s2, spec_add(*s3, *s4, m, (fuel - 1) as nat), m, (fuel - 1) as nat), *s1, m, (fuel - 1) as nat)), s1),
            (Val::Null, Val::Div(s1, s2)) => spec_divide(spec_minus(Val::Int(0), *s1, m, (fuel - 1) as nat), *s2, m, (fuel - 1) as nat),
            (Val::Div(s1, s2), Val::Null) => spec_divide(spec_minus(Val::Int(0), *s1, m, (fuel - 1) as nat), *s2, m, (fuel - 1) as nat),
            _ => Val::Identifier(minus_incompatible()),
        }
    }
}

/// `minus` with an explicit depth budget.
#[verifier::rlimit(100)]
pub(crate) fn minus_fuel(i: Parameters, i2: Parameters, ram: Option<&Ram>, fuel: u64) -> (r:
    Parameters)
    requires
        val_wf(i@),
        val_wf(i2@),
        oram_wf(oram(ram)),
    ensures
        r@ == spec_minus(i@, i2@, oram(ram), fuel as nat),
        val_wf(r@),
    decreases fuel, 9int, 0int,
{
    if fuel == 0 {
        return depth_error_value();
    }
    match (i, i2) {
        (Parameters::Null, Parameters::Int(v)) => Parameters::Int((0i64).wrapping_sub(v)),
        (Parameters::Int(v), Parameters::Null) => Parameters::Int((0i64).wrapping_sub(v)),
        (Parameters::Int(v), Parameters::Int(v2)) => Parameters::Int(v.wrapping_sub(v2)),
        (Parameters::Rational(s), Parameters::Null) => Parameters::Rational(Rationals::new(1, 0).sub(s)),
        (Parameters::Null, Parameters::Rational(s)) => Parameters::Rational(s.opposite()),
        (Parameters::Rational(s), Parameters::Rational(s2)) => Parameters::Rational(s.sub(s2)),
        (Parameters::Rational(s), Parameters::Int(i)) => Parameters::Rational(s.sub(Rationals::new(1, i))),
        (Parameters::Int(i), Parameters::Rational(s)) => Parameters::Rational(Rationals::new(1, i).sub(s)),
        (Parameters::InterpreterVector(vec), Parameters::Null) => {
            let res = neg_elems_fuel(&vec, ram, fuel);
            Parameters::InterpreterVector(Box::new(res))
        },
        (Parameters::Null, Parameters::InterpreterVector(vec)) => {
            let res = neg_elems_fuel(&vec, ram, fuel);
            Parameters::InterpreterVector(Box::new(res))
        },
        (Parameters::InterpreterVector(vec), Parameters::InterpreterVector(vec2)) => {
            let res = sub_elems_fuel(&vec, &vec2, ram, fuel);
            Parameters::InterpreterVector(Box::new(res))
        },
        (Parameters::Bool(_), Parameters::Int(i)) => Parameters::Int(i),
        (Parameters::Int(i), Parameters::Bool(_)) => Parameters::Int(i),
        (Parameters::Bool(b), Parameters::Null) => Parameters::Bool(b),
        (Parameters::Null, Parameters::Bool(b)) => Parameters::Bool(b),
        (Parameters::Bool(b), Parameters::Bool(b2)) => Parameters::Bool(b && b2),
        (Parameters::Identifier(s), Parameters::Identifier(s2)) => match ram {
            None => if !(s == s2) {
                Parameters::Plus(
                    Box::new(Parameters::Var(Box::new(Parameters::Int(1)), 1, s)),
                    Box::new(Parameters::Var(Box::new(Parameters::Int(-1)), 1, s2)),
                )
            } else {
                Parameters::Int(0)
            },
            Some(_) => apply_operator_fuel(
                Parameters::Identifier(s),
                Parameters::Identifier(s2),
                ram,
                BinOp::Minus,
                fuel,
            ),
        },
        (Parameters::Identifier(s), Parameters::Int(i)) => match ram {
            None => Parameters::Plus(
                Box::new(Parameters::Identifier(s)),
                Box::new(Parameters::Int((0i64).wrapping_sub(i))),
            ),
            Some(_) => apply_operator_reverse_fuel(
                Parameters::Int(i),
                Parameters::Identifier(s),
                ram,
                BinOp::Minus,
                fuel,
            ),
        },
        (Parameters::Null, Parameters::Identifier(s)) => match ram {
            None => Parameters::Var(Box::new(Parameters::Int(-1)), 1, s.clone()),
            Some(_) => apply_operator_fuel(Parameters::Identifier(s.clone()), Parameters::Null, ram, BinOp::Minus, fuel),
        },
        (Parameters::Identifier(s), Parameters::Null) => match ram {
            None => Parameters::Var(Box::new(Parameters::Int(-1)), 1, s.clone()),
            Some(_) => apply_operator_reverse_fuel(Parameters::Identifier(s.clone()), Parameters::Null, ram, BinOp::Minus, fuel),
        },
        (Parameters::Rational(r), Parameters::Identifier(ss)) => match ram {
            None => Parameters::Plus(Box::new(Parameters::Rational(r)), Box::new(Parameters::Var(Box::new(Parameters::Int(-1)), 1, ss.clone()))),
            Some(_) => apply_operator_reverse_fuel(Parameters::Rational(r), Parameters::Identifier(ss.clone()), ram, BinOp::Minus, fuel),
        },
        (Parameters::Identifier(ss), Parameters::Rational(r)) => match ram {
            None => Parameters::Plus(
                Box::new(Parameters::Var(Box::new(Parameters::Int(1)), 1, ss)),
                Box::new(Parameters::Rational(r.opposite())),
            ),
            Some(_) => apply_operator_fuel(
                Parameters::Identifier(ss),
                Parameters::Rational(r),
                ram,
                BinOp::Minus,
                fuel,
            ),
        },
        (Parameters::Int(i), Parameters::Identifier(s)) => match ram {
            None => Parameters::Plus(
                Box::new(Parameters::Int(i)),
                Box::new(Parameters::Var(Box::new(Parameters::Int(-1)), 1, s)),
            ),
            Some(_) => {
                let v = apply_operator_fuel(
                    Parameters::Identifier(s),
                    Parameters::Int(i),
                    ram,
                    BinOp::Minus,
                    fuel,
                );
                match v {
                    Parameters::Int(n) => Parameters::Int((0i64).wrapping_sub(n)),
                    p => minus_fuel(Parameters::Int(0), p, None, fuel - 1),
                }
            },
        },
        (Parameters::InterpreterVector(vec), Parameters::Identifier(s)) => match ram {
            None => Parameters::InterpreterVector(vec),
            Some(_) => apply_operator_reverse_fuel(Parameters::InterpreterVector(vec), Parameters::Identifier(s.clone()), ram, BinOp::Minus, fuel),
        },
        (Parameters::Identifier(s), Parameters::InterpreterVector(vec)) => match ram {
            None => Parameters::InterpreterVector(vec),
            Some(_) => apply_operator_fuel(Parameters::Identifier(s.clone()), Parameters::InterpreterVector(vec), ram, BinOp::Minus, fuel),
        },
        (Parameters::Bool(b), Parameters::Identifier(s)) => match ram {
            None => Parameters::Bool(b),
            Some(_) => apply_operator_reverse_fuel(Parameters::Bool(b), Parameters::Identifier(s.clone()), ram, BinOp::Minus, fuel),
        },
        (Parameters::Identifier(s), Parameters::Bool(b)) => match ram {
            None => Parameters::Bool(b),
            Some(_) => apply_operator_fuel(Parameters::Identifier(s.clone()), Parameters::Bool(b), ram, BinOp::Minus, fuel),
        },
        (Parameters::Plus(s1, s2), Parameters::Plus(s3, s4)) => {
            let first = Parameters::Plus(Box::new(crate::functions::minus::minus_fuel((*s1).clone(), (*s3).clone(), ram, fuel - 1)), Box::new(crate::functions::minus::minus_fuel((*s2).clone(), (*s4).clone(), ram, fuel - 1)));
            let second = Parameters::Plus(Box::new(crate::functions::minus::minus_fuel((*s1).clone(), (*s4).clone(), ram, fuel - 1)), Box::new(crate::functions::minus::minus_fuel((*s2).clone(), (*s3).clone(), ram, fuel - 1)));
            let sz1 = crate::symbolic::size(&first);
            let sz2 = crate::symbolic::size(&second);
            if sz1 > sz2 {
                second
            } else {
                first
            }
        },
        (Parameters::Plus(s1, s2), Parameters::Identifier(s3)) => {
            let first = Parameters::Plus(Box::new(crate::functions::minus::minus_fuel((*s1).clone(), Parameters::Identifier(s3.clone()), ram, fuel - 1)), s2.clone());
            let second = Parameters::Plus(s1.clone(), Box::new(crate::functions::minus::minus_fuel((*s2).clone(), Parameters::Identifier(s3.clone()), ram, fuel - 1)));
            let sz1 = crate::symbolic::size(&first);
            let sz2 = crate::symbolic::size(&second);
            if sz1 > sz2 {
                second
            } else {
                first
            }
        },
        (Parameters::Identifier(s3), Parameters::Plus(s1, s2)) => {
            let first = Parameters::Plus(Box::new(crate::functions::minus::minus_fuel(Parameters::Identifier(s3.clone()), (*s1).clone(), ram, fuel - 1)), Box::new(crate::functions::minus::minus_fuel(Parameters::Int(0), (*s2).clone(), ram, fuel - 1)));
            let second = Parameters::Plus(Box::new(crate::functions::minus::minus_fuel(Parameters::Int(0), (*s1).clone(), ram, fuel - 1)), Box::new(crate::functions::minus::minus_fuel(Parameters::Identifier(s3.clone()), (*s2).clone(), ram, fuel - 1)));
            let sz1 = crate::symbolic::size(&first);
            let sz2 = crate::symbolic::size(&second);
            if sz1 > sz2 {
                second
            } else {
                first
            }
        },
        (Parameters::Int(i), Parameters::Plus(s1, s2)) => {
            let first = Parameters::Plus(Box::new(crate::functions::minus::minus_fuel(Parameters::Int(i), (*s1).clone(), ram, fuel - 1)), Box::new(crate::functions::minus::minus_fuel(Parameters::Int(0), (*s2).clone(), ram, fuel - 1)));
            let second = Parameters::Plus(Box::new(crate::functions::minus::minus_fuel(Parameters::Int(0), (*s1).clone(), ram, fuel - 1)), Box::new(crate::functions::minus::minus_fuel(Parameters::Int(i), (*s2).clone(), ram, fuel - 1)));
            let sz1 = crate::symbolic::size(&first);
            let sz2 = crate::symbolic::size(&second);
            if sz1 > sz2 {
                second
            } else {
                first
            }
        },
        (Parameters::Plus(s1, s2), Parameters::Int(i)) => {
            let first = Parameters::Plus(Box::new(crate::functions::minus::minus_fuel((*s1).clone(), Parameters::Int(i), ram, fuel - 1)), s2.clone());
            let second = Parameters::Plus(s1.clone(), Box::new(crate::functions::minus::minus_fuel((*s2).clone(), Parameters::Int(i), ram, fuel - 1)));
            let sz1 = crate::symbolic::size(&first);
            let sz2 = crate::symbolic::size(&second);
            if sz1 > sz2 {
                second
            } else {
                first
            }
        },
        (Parameters::Plus(s1, s2), Parameters::Rational(r)) => {
            let first = Parameters::Plus(Box::new(crate::functions::minus::minus_fuel((*s1).clone(), Parameters::Rational(r), ram, fuel - 1)), s2.clone());
            let second = Parameters::Plus(s1.clone(), Box::new(crate::functions::minus::minus_fuel((*s2).clone(), Parameters::Rational(r), ram, fuel - 1)));
            let sz1 = crate::symbolic::size(&first);
            let sz2 = crate::symbolic::size(&second);
            if sz1 > sz2 {
                second
            } else {
                first
            }
        },
        (Parameters::Rational(r), Parameters::Plus(s1, s2)) => {
            let first = Parameters::Plus(Box::new(crate::functions::minus::minus_fuel(Parameters::Rational(r), (*s1).clone(), ram, fuel - 1)), Box::new(crate::functions::minus::minus_fuel(Parameters::Int(0), (*s2).clone(), ram, fuel - 1)));
            let second = Parameters::Plus(Box::new(crate::functions::minus::minus_fuel(Parameters::Int(0), (*s1).clone(), ram, fuel - 1)), Box::new(crate::functions::minus::minus_fuel(Parameters::Rational(r), (*s2).clone(), ram, fuel - 1)));
            let sz1 = crate::symbolic::size(&first);
            let sz2 = crate::symbolic::size(&second);
            if sz1 > sz2 {
                second
            } else {
                first
            }
        },
        (Parameters::Plus(s1, s2), Parameters::Var(x, y, z)) => {
            let first = Parameters::Plus(Box::new(crate::functions::minus::minus_fuel((*s1).clone(), Parameters::Var(x.clone(), y, z.clone()), ram, fuel - 1)), s2.clone());
            let second = Parameters::Plus(s1.clone(), Box::new(crate::functions::minus::minus_fuel((*s2).clone(), Parameters::Var(x.clone(), y, z.clone()), ram, fuel - 1)));
            let sz1 = crate::symbolic::size(&first);
            let sz2 = crate::symbolic::size(&second);
            if sz1 > sz2 {
                second
            } else {
                first
            }
        },
        (Parameters::Var(x, y, z), Parameters::Plus(s1, s2)) => {
            let first = Parameters::Plus(Box::new(crate::functions::minus::minus_fuel(Parameters::Var(x.clone(), y, z.clone()), (*s1).clone(), ram, fuel - 1)), Box::new(crate::functions::minus::minus_fuel(Parameters::Int(0), (*s2).clone(), ram, fuel - 1)));
            let second = Parameters::Plus(Box::new(crate::functions::minus::minus_fuel(Parameters::Int(0), (*s1).clone(), ram, fuel - 1)), Box::new(crate::functions::minus::minus_fuel(Parameters::Var(x.clone(), y, z.clone()), (*s2).clone(), ram, fuel - 1)));
            let sz1 = crate::symbolic::size(&first);
            let sz2 = crate::symbolic::size(&second);
            if sz1 > sz2 {
                second
            } else {
                first
            }
        },
        (Parameters::Null, Parameters::Plus(s1, s2)) => Parameters::Plus(Box::new(crate::functions::minus::minus_fuel(Parameters::Int(0), (*s1).clone(), ram, fuel - 1)), Box::new(crate::functions::minus::minus_fuel(Parameters::Int(0), (*s2).clone(), ram, fuel - 1))),
        (Parameters::Plus(s1, s2), Parameters::Null) => Parameters::Plus(Box::new(crate::functions::minus::minus_fuel(Parameters::Int(0), (*s1).clone(), ram, fuel - 1)), Box::new(crate::functions::minus::minus_fuel(Parameters::Int(0), (*s2).clone(), ram, fuel - 1))),
        (Parameters::Mul(s1, s2), Parameters::Mul(s3, s4)) => Parameters::Plus(Box::new(Parameters::Mul(s1.clone(), s2.clone())), Box::new(Parameters::Mul(Box::new(crate::functions::minus::minus_fuel(Parameters::Int(0), (*s3).clone(), ram, fuel - 1)), s4.clone()))),
        (Parameters::Mul(s1, s2), Parameters::Identifier(s)) => Parameters::Plus(Box::new(Parameters::Mul(s1.clone(), s2.clone())), Box::new(Parameters::Var(Box::new(Parameters::Int(-1)), 1, s.clone()))),
        (Parameters::Identifier(s), Parameters::Mul(s1, s2)) => Parameters::Plus(Box::new(Parameters::Var(Box::new(Parameters::Int(1)), 1, s.clone())), Box::new(Parameters::Mul(Box::new(crate::functions::minus::minus_fuel(Parameters::Int(0), (*s1).clone(), ram, fuel - 1)), s2.clone()))),
        (Parameters::Mul(s1, s2), Parameters::Int(i)) => Parameters::Plus(Box::new(Parameters::Mul(s1.clone(), s2.clone())), Box::new(Parameters::Int((0i64).wrapping_sub(i)))),
        (Parameters::Int(i), Parameters::Mul(s1, s2)) => Parameters::Plus(Box::new(Parameters::Int(i)), Box::new(Parameters::Mul(Box::new(crate::functions::minus::minus_fuel(Parameters::Int(0), (*s1).clone(), ram, fuel - 1)), s2.clone()))),
        (Parameters::Mul(s1, s2), Parameters::Rational(r)) => Parameters::Plus(Box::new(Parameters::Mul(s1.clone(), s2.clone())), Box::new(Parameters::Rational(r.opposite()))),
        (Parameters::Rational(r), Parameters::Mul(s1, s2)) => Parameters::Plus(Box::new(Parameters::Rational(r)), Box::new(Parameters::Mul(Box::new(crate::functions::minus::minus_fuel(Parameters::Int(0), (*s1).clone(), ram, fuel - 1)), s2.clone()))),
        (Parameters::Var(x, y, z), Parameters::Mul(s1, s2)) => Parameters::Plus(Box::new(Parameters::Var(x.clone(), y, z.clone())), Box::new(Parameters::Mul(Box::new(crate::functions::minus::minus_fuel(Parameters::Int(0), (*s1).clone(), ram, fuel - 1)), s2.clone()))),
        (Parameters::Mul(s1, s2), Parameters::Var(x, y, z)) => Parameters::Plus(Box::new(Parameters::Mul(s1.clone(), s2.clone())), Box::new(Parameters::Var(Box::new(crate::functions::minus::minus_fuel(Parameters::Int(0), (*x).clone(), ram, fuel - 1)), y, z.clone()))),
        (Parameters::Mul(s1, s2), Parameters::Plus(s3, s4)) => Parameters::Plus(Box::new(Parameters::Mul(s1.clone(), s2.clone())), Box::new(Parameters::Plus(Box::new(crate::functions::minus::minus_fuel(Parameters::Int(0), (*s3).clone(), ram, fuel - 1)), Box::new(crate::functions::minus::minus_fuel(Parameters::Int(0), (*s4).clone(), ram, fuel - 1))))),
        (Parameters::Plus(s3, s4), Parameters::Mul(s1, s2)) => Parameters::Plus(Box::new(Parameters::Plus(s3.clone(), s4.clone())), Box::new(Parameters::Mul(Box::new(crate::functions::minus::minus_fuel(Parameters::Int(0), (*s1).clone(), ram, fuel - 1)), s2.clone()))),
        (Parameters::Null, Parameters::Mul(s1, s2)) => Parameters::Mul(Box::new(crate::functions::minus::minus_fuel(Parameters::Int(0), (*s1).clone(), ram, fuel - 1)), s2.clone()),
        (Parameters::Mul(s1, s2), Parameters::Null) => Parameters::Mul(Box::new(crate::functions::minus::minus_fuel(Parameters::Int(0), (*s1).clone(), ram, fuel - 1)), s2.clone()),
        (Parameters::Var(x, y, z), Parameters::Var(x1, y1, z1)) => if z == z1 && y == y1 {
            Parameters::Var(Box::new(crate::functions::minus::minus_fuel((*x).clone(), (*x1).clone(), ram, fuel - 1)), y, z.clone())
        } else {
            Parameters::Plus(Box::new(Parameters::Var(x.clone(), y, z.clone())), Box::new(Parameters::Var(Box::new(crate::functions::minus::minus_fuel(Parameters::Int(0), (*x1).clone(), ram, fuel - 1)), y1, z1.clone())))
        },
        (Parameters::Var(x, y, z), Parameters::Identifier(s)) => if z == s && y == 1 {
            Parameters::Var(Box::new(crate::functions::minus::minus_fuel((*x).clone(), Parameters::Int(1), ram, fuel - 1)), y, z.clone())
        } else {
            Parameters::Plus(Box::new(Parameters::Var(x.clone(), y, z.clone())), Box::new(Parameters::Var(Box::new(Parameters::Int(-1)), 1, s.clone())))
        },
        (Parameters::Identifier(s), Parameters::Var(x, y, z)) => if z == s && y == 1 {
            Parameters::Var(Box::new(crate::functions::minus::minus_fuel(Parameters::Int(1), (*x).clone(), ram, fuel - 1)), y, z.clone())
        } else {
            Parameters::Plus(Box::new(Parameters::Var(Box::new(crate::functions::minus::minus_fuel(Parameters::Int(0), (*x).clone(), ram, fuel - 1)), y, z.clone())), Box::new(Parameters::Var(Box::new(Parameters::Int(1)), 1, s.clone())))
        },
        (Parameters::Int(i), Parameters::Var(x, y, z)) => Parameters::Plus(Box::new(Parameters::Int(i)), Box::new(Parameters::Var(Box::new(crate::functions::minus::minus_fuel(Parameters::Int(0), (*x).clone(), ram, fuel - 1)), y, z.clone()))),
        (Parameters::Var(x, y, z), Parameters::Int(i)) => Parameters::Plus(Box::new(Parameters::Var(x.clone(), y, z.clone())), Box::new(Parameters::Int((0i64).wrapping_sub(i)))),
        (Parameters::Rational(r), Parameters::Var(x, y, z)) => Parameters::Plus(Box::new(Parameters::Rational(r)), Box::new(Parameters::Var(Box::new(crate::functions::minus::minus_fuel(Parameters::Int(0), (*x).clone(), ram, fuel - 1)), y, z.clone()))),
        (Parameters::Var(x, y, z), Parameters::Rational(r)) => Parameters::Plus(Box::new(Parameters::Var(x.clone(), y, z.clone())), Box::new(Parameters::Rational(r.opposite()))),
        (Parameters::Var(x, y, z), Parameters::Div(s1, s2)) => Parameters::Div(Box::new(crate::functions::minus::minus_fuel(crate::functions::mult::mult_fuel(Parameters::Var(x.clone(), y, z.clone()), (*s2).clone(), ram, fuel - 1), (*s1).clone(), ram, fuel - 1)), s2.clone()),
        (Parameters::Div(s1, s2), Parameters::Var(x, y, z)) => Parameters::Div(Box::new(crate::functions::minus::minus_fuel((*s1).clone(), crate::functions::mult::mult_fuel((*s2).clone(), Parameters::Var(x.clone(), y, z.clone()), ram, fuel - 1), ram, fuel - 1)), s2.clone()),
        (Parameters::Mul(s1, s2), Parameters::Div(s3, s4)) => Parameters::Div(Box::new(crate::functions::minus::minus_fuel(crate::functions::mult::mult_fuel((*s4).clone(), crate::functions::mult::mult_fuel((*s1).clone(), (*s2).clone(), ram, fuel - 1), ram, fuel - 1), (*s3).clone(), ram, fuel - 1)), s4.clone()),
        (Parameters::Div(s1, s2), Parameters::Mul(s3, s4)) => Parameters::Div(Box::new(crate::functions::minus::minus_fuel((*s3).clone(), crate::functions::mult::mult_fuel((*s4).clone(), crate::functions::mult::mult_fuel((*s1).clone(), (*s2).clone(), ram, fuel - 1), ram, fuel - 1), ram, fuel - 1)), s4.clone()),
        (Parameters::Div(s1, s2), Parameters::Div(s3, s4)) => Parameters::Div(Box::new(crate::functions::minus::minus_fuel(crate::functions::mult::mult_fuel((*s1).clone(), (*s4).clone(), ram, fuel - 1), crate::functions::mult::mult_fuel((*s2).clone(), (*s3).clone(), ram, fuel - 1), ram, fuel - 1)), Box::new(crate::functions::mult::mult_fuel((*s2).clone(), (*s4).clone(), ram, fuel - 1))),
        (Parameters::Div(s1, s2), Parameters::Identifier(s)) => Parameters::Div(Box::new(crate::functions::minus::minus_fuel((*s1).clone(), crate::functions::mult::mult_fuel((*s2).clone(), Parameters::Var(Box::new(Parameters::Int(1)), 1, s.clone()), ram, fuel - 1), ram, fuel - 1)), s2.clone()),
        (Parameters::Identifier(s), Parameters::Div(s1, s2)) => Parameters::Div(Box::new(crate::functions::minus::minus_fuel(crate::functions::mult::mult_fuel((*s2).clone(), Parameters::Var(Box::new(Parameters::Int(1)), 1, s.clone()), ram, fuel - 1), (*s1).clone(), ram, fuel - 1)), s2.clone()),
        (Parameters::Div(s1, s2), Parameters::Int(i)) => Parameters::Div(Box::new(crate::functions::mult::mult_fuel((*s1).clone(), Parameters::Int(i), ram, fuel - 1)), s2.clone()),
        (Parameters::Int(i), Parameters::Div(s1, s2)) => Parameters::Div(Box::new(crate::functions::mult::mult_fuel(Parameters::Int(i), (*s1).clone(), ram, fuel - 1)), s2.clone()),
        (Parameters::Div(s1, s2), Parameters::Rational(r)) => Parameters::Div(Box::new(crate::functions::minus::minus_fuel((*s1).clone(), crate::functions::mult::mult_fuel((*s2).clone(), Parameters::Rational(r), ram, fuel - 1), ram, fuel - 1)), s2.clone()),
        (Parameters::Rational(r), Parameters::Div(s1, s2)) => Parameters::Div(Box::new(crate::functions::minus::minus_fuel(crate::functions::mult::mult_fuel(Parameters::Rational(r), (*s2).clone(), ram, fuel - 1), (*s1).clone(), ram, fuel - 1)), s2.clone()),
        (Parameters::Div(s1, s2), Parameters::Plus(s3, s4)) => Parameters::Div(Box::new(crate::functions::minus::minus_fuel((*s1).clone(), crate::functions::mult::mult_fuel((*s2).clone(), crate::functions::add::add_fuel((*s3).clone(), (*s4).clone(), ram, fuel - 1), ram, fuel - 1), ram, fuel - 1)), s2.clone()),
        (Parameters::Plus(s3, s4), Parameters::Div(s1, s2)) => Parameters::Div(Box::new(crate::functions::minus::minus_fuel(crate::functions::mult::mult_fuel((*s2).clone(), crate::functions::add::add_fuel((*s3).clone(), (*s4).clone(), ram, fuel - 1), ram, fuel - 1), (*s1).clone(), ram, fuel - 1)), s1.clone()),
        (Parameters::Null, Parameters::Div(s1, s2)) => crate::functions::divide::divide_fuel(crate::functions::minus::minus_fuel(Parameters::Int(0), (*s1).clone(), ram, fuel - 1), (*s2).clone(), ram, fuel - 1),
        (Parameters::Div(s1, s2), Parameters::Null) => crate::functions::divide::divide_fuel(crate::functions::minus::minus_fuel(Parameters::Int(0), (*s1).clone(), ram, fuel - 1), (*s2).clone(), ram, fuel - 1),
        _ => minus_error(),
    }
}

/// Subtract two values, resolving identifiers against the environment.
pub fn minus(i: Parameters, i2: Parameters, ram: Option<&Ram>) -> (r: Parameters)
    requires
        val_wf(i@),
        val_wf(i2@),
        oram_wf(oram(ram)),
    ensures
        r@ == spec_minus(i@, i2@, oram(ram), EVAL_DEPTH as nat),
        val_wf(r@),
{
    minus_fuel(i, i2, ram, EVAL_DEPTH)
}

} // verus!
