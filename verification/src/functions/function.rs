//! The identifier-resolution protocol shared by every binary operator, and
//! the comparison and boolean operators themselves.
//!
//! `apply_operator` and `apply_operator_reverse` are the single mechanism by
//! which operators handle `Identifier` operands: the binding is substituted
//! and the same operator retried with the environment still attached, so
//! nested identifiers resolve transitively.  Because bindings such as
//! `x -> x + 1` make that retry genuinely non-terminating, every evaluation
//! carries a depth budget; when it runs out the engine answers with an
//! `@`-tagged error value instead of recursing further.

use vstd::prelude::*;

verus! {

broadcast use crate::value::group_value_views;

use crate::env::Ram;
use crate::env::ram_vals_wf;
use crate::rational::Rationals;
use crate::rational::rat_gt;
use crate::rational::rat_lt;
use crate::rational::rat_make;
use crate::value::Parameters;
use crate::value::Val;
use crate::value::val_wf;
use crate::functions::add::spec_add;
use crate::functions::divide::spec_divide;
use crate::functions::expo::spec_expo;
use crate::functions::minus::spec_minus;
use crate::functions::mult::spec_mult;
use vstd::string::StringExecFns;

/// The depth budget every public operator starts from.
pub const EVAL_DEPTH: u64 = u64::MAX;

/// A binary operator of the engine, used to retry an operator after an
/// identifier has been resolved.
#[derive(Clone, Copy, Debug)]
pub enum BinOp {
    Add,
    Minus,
    Mult,
    Divide,
    Expo,
    Greater,
    Lesser,
    GreaterOrEqual,
    LesserOrEqual,
    Equal,
    Not,
    And,
    Or,
}

/// Message of the error value produced when the depth budget runs out.
pub open spec fn depth_error() -> Seq<char> {
    "@recursion depth exceeded"@
}

/// Build the depth-budget error value.
pub(crate) fn depth_error_value() -> (r: Parameters)
    ensures
        r@ == Val::Identifier(depth_error()),
{
    Parameters::Identifier("@recursion depth exceeded".to_owned())
}

/// The environment an operator call sees, as a map.
pub open spec fn oram(ram: Option<&Ram>) -> Option<Map<Seq<char>, Val>> {
    match ram {
        None => None,
        Some(r) => Some(r@),
    }
}

/// Every value bound in the (optional) environment is well-formed.
pub open spec fn oram_wf(m: Option<Map<Seq<char>, Val>>) -> bool {
    match m {
        None => true,
        Some(mm) => ram_vals_wf(mm),
    }
}

/// One full retry of an operator, spending one unit of the depth budget.
pub open spec fn spec_call_op(
    op: BinOp,
    a: Val,
    b: Val,
    m: Option<Map<Seq<char>, Val>>,
    fuel: nat,
) -> Val
    decreases fuel, 10int, 0int,
{
    match op {
        BinOp::Add => spec_add(a, b, m, fuel),
        BinOp::Minus => spec_minus(a, b, m, fuel),
        BinOp::Mult => spec_mult(a, b, m, fuel),
        BinOp::Divide => spec_divide(a, b, m, fuel),
        BinOp::Expo => spec_expo(a, b, m, fuel),
        BinOp::Greater => spec_greater(a, b, m, fuel),
        BinOp::Lesser => spec_lesser(a, b, m, fuel),
        BinOp::GreaterOrEqual => spec_greater_or_equal(a, b, m, fuel),
        BinOp::LesserOrEqual => spec_lesser_or_equal(a, b, m, fuel),
        BinOp::Equal => spec_equal(a, b, m, fuel),
        BinOp::Not => spec_not(a, b, m, fuel),
        BinOp::And => spec_and(a, b, m, fuel),
        BinOp::Or => spec_or(a, b, m, fuel),
    }
}

/// Resolution on the left operand: a confirmed `Identifier` is looked up and
/// the operator retried on its binding; anything else degenerates to `Null`.
pub open spec fn spec_apply_operator(
    value: Val,
    value2: Val,
    m: Option<Map<Seq<char>, Val>>,
    fuel: nat,
    op: BinOp,
) -> Val
    decreases fuel, 0int, 0int,
{
    if !(value is Identifier) || value->Identifier_0.len() == 0 {
        Val::Null
    } else if fuel == 0 {
        Val::Identifier(depth_error())
    } else {
        let s = value->Identifier_0;
        match m {
            None => spec_call_op(op, value, value2, None, (fuel - 1) as nat),
            Some(mm) => if mm.dom().contains(s) {
                spec_call_op(op, mm[s], value2, m, (fuel - 1) as nat)
            } else {
                spec_call_op(op, value, value2, None, (fuel - 1) as nat)
            },
        }
    }
}

/// Resolution on the right operand, the mirror image of
/// `spec_apply_operator`.
pub open spec fn spec_apply_operator_reverse(
    value: Val,
    value2: Val,
    m: Option<Map<Seq<char>, Val>>,
    fuel: nat,
    op: BinOp,
) -> Val
    decreases fuel, 0int, 0int,
{
    if !(value2 is Identifier) || value2->Identifier_0.len() == 0 {
        Val::Null
    } else if fuel == 0 {
        Val::Identifier(depth_error())
    } else {
        let s = value2->Identifier_0;
        match m {
            None => spec_call_op(op, value, value2, None, (fuel - 1) as nat),
            Some(mm) => if mm.dom().contains(s) {
                spec_call_op(op, value, mm[s], m, (fuel - 1) as nat)
            } else {
                spec_call_op(op, value, value2, None, (fuel - 1) as nat)
            },
        }
    }
}

/// Retry `op` with the given operands and one unit of budget spent.
pub(crate) fn call_op_fuel(
    op: BinOp,
    a: Parameters,
    b: Parameters,
    ram: Option<&Ram>,
    fuel: u64,
) -> (r: Parameters)
    requires
        val_wf(a@),
        val_wf(b@),
        oram_wf(oram(ram)),
    ensures
        r@ == spec_call_op(op, a@, b@, oram(ram), fuel as nat),
        val_wf(r@),
    decreases fuel, 10int, 0int,
{
    match op {
        BinOp::Add => crate::functions::add::add_fuel(a, b, ram, fuel),
        BinOp::Minus => crate::functions::minus::minus_fuel(a, b, ram, fuel),
        BinOp::Mult => crate::functions::mult::mult_fuel(a, b, ram, fuel),
        BinOp::Divide => crate::functions::divide::divide_fuel(a, b, ram, fuel),
        BinOp::Expo => crate::functions::expo::expo_fuel(a, b, ram, fuel),
        BinOp::Greater => greater_fuel(a, b, ram, fuel),
        BinOp::Lesser => lesser_fuel(a, b, ram, fuel),
        BinOp::GreaterOrEqual => greater_or_equal_fuel(a, b, ram, fuel),
        BinOp::LesserOrEqual => lesser_or_equal_fuel(a, b, ram, fuel),
        BinOp::Equal => equal_fuel(a, b, ram, fuel),
        BinOp::Not => not_fuel(a, b, ram, fuel),
        BinOp::And => and_fuel(a, b, ram, fuel),
        BinOp::Or => or_fuel(a, b, ram, fuel),
    }
}

/// Left-operand resolution with an explicit depth budget.
pub(crate) fn apply_operator_fuel(
    value: Parameters,
    value2: Parameters,
    ram: Option<&Ram>,
    op: BinOp,
    fuel: u64,
) -> (r: Parameters)
    requires
        val_wf(value@),
        val_wf(value2@),
        oram_wf(oram(ram)),
    ensures
        r@ == spec_apply_operator(value@, value2@, oram(ram), fuel as nat, op),
        val_wf(r@),
    decreases fuel, 0int, 0int,
{
    let is_named = match &value {
        Parameters::Identifier(s) => !s.as_str().is_empty(),
        _ => false,
    };
    if !is_named {
        return Parameters::Null;
    }
    if fuel == 0 {
        return depth_error_value();
    }
    match &value {
        Parameters::Identifier(s) => {
            match ram {
                None => call_op_fuel(op, value.clone(), value2, None, fuel - 1),
                Some(r) => {
                    match r.get(s) {
                        None => call_op_fuel(op, value.clone(), value2, None, fuel - 1),
                        Some(val) => {
                            let bound = val.clone();
                            call_op_fuel(op, bound, value2, ram, fuel - 1)
                        },
                    }
                },
            }
        },
        _ => Parameters::Null,
    }
}

/// Right-operand resolution with an explicit depth budget.
pub(crate) fn apply_operator_reverse_fuel(
    value: Parameters,
    value2: Parameters,
    ram: Option<&Ram>,
    op: BinOp,
    fuel: u64,
) -> (r: Parameters)
    requires
        val_wf(value@),
        val_wf(value2@),
        oram_wf(oram(ram)),
    ensures
        r@ == spec_apply_operator_reverse(value@, value2@, oram(ram), fuel as nat, op),
        val_wf(r@),
    decreases fuel, 0int, 0int,
{
    let is_named = match &value2 {
        Parameters::Identifier(s) => !s.as_str().is_empty(),
        _ => false,
    };
    if !is_named {
        return Parameters::Null;
    }
    if fuel == 0 {
        return depth_error_value();
    }
    match &value2 {
        Parameters::Identifier(s) => {
            match ram {
                None => call_op_fuel(op, value, value2.clone(), None, fuel - 1),
                Some(r) => {
                    match r.get(s) {
                        None => call_op_fuel(op, value, value2.clone(), None, fuel - 1),
                        Some(val) => {
                            let bound = val.clone();
                            call_op_fuel(op, value, bound, ram, fuel - 1)
                        },
                    }
                },
            }
        },
        _ => Parameters::Null,
    }
}

/// Resolve the left operand against the environment, then retry `f`.
pub fn apply_operator(
    value: Parameters,
    value2: Parameters,
    ram: Option<&Ram>,
    f: BinOp,
) -> (r: Parameters)
    requires
        val_wf(value@),
        val_wf(value2@),
        oram_wf(oram(ram)),
    ensures
        r@ == spec_apply_operator(value@, value2@, oram(ram), EVAL_DEPTH as nat, f),
        val_wf(r@),
{
    apply_operator_fuel(value, value2, ram, f, EVAL_DEPTH)
}

/// Resolve the right operand against the environment, then retry `f`.
pub fn apply_operator_reverse(
    value: Parameters,
    value2: Parameters,
    ram: Option<&Ram>,
    f: BinOp,
) -> (r: Parameters)
    requires
        val_wf(value@),
        val_wf(value2@),
        oram_wf(oram(ram)),
    ensures
        r@ == spec_apply_operator_reverse(value@, value2@, oram(ram), EVAL_DEPTH as nat, f),
        val_wf(r@),
{
    apply_operator_reverse_fuel(value, value2, ram, f, EVAL_DEPTH)
}

/// What an assignment's left side binds: an identifier keeps its name, any
/// other shape yields the empty name (and the value is passed through).
pub fn assign(s: Parameters, s2: Parameters) -> (r: (String, Parameters))
    ensures
        r.0@ == (if s@ is Identifier {
            s@->Identifier_0
        } else {
            Seq::<char>::empty()
        }),
        r.1@ == s2@,
{
    match s {
        Parameters::Identifier(name) => (name, s2),
        _ => (String::new(), s2),
    }
}

/// Message of the incompatibility error for `greater`.
pub open spec fn greater_incompatible() -> Seq<char> {
    "@Those two values are incompatible with the > operator"@
}

/// Mathematical model of `greater`.
pub open spec fn spec_greater(a: Val, b: Val, m: Option<Map<Seq<char>, Val>>, fuel: nat) -> Val
    decreases fuel, 9int, 0int,
{
    if fuel == 0 {
        Val::Identifier(depth_error())
    } else {
        match (a, b) {
            (Val::Null, Val::Int(_)) => Val::Bool(true),
            (Val::Int(_), Val::Null) => Val::Bool(true),
            (Val::Int(v), Val::Int(v2)) => Val::Bool(v > v2),
            (Val::Bool(bb), Val::Int(_)) => Val::Bool(bb),
            (Val::Int(_), Val::Bool(bb)) => Val::Bool(bb),
            (Val::Bool(bb), Val::Null) => Val::Bool(bb),
            (Val::Null, Val::Bool(bb)) => Val::Bool(bb),
            (Val::Bool(bb), Val::Bool(b2)) => Val::Bool(bb && b2),
            (Val::Rational(_), Val::Null) => Val::Bool(true),
            (Val::Null, Val::Rational(_)) => Val::Bool(true),
            (Val::Rational(s), Val::Rational(s2)) => Val::Bool(rat_gt(s, s2)),
            (Val::Rational(s), Val::Int(i)) => Val::Bool(rat_gt(s, rat_make(i as int, 1))),
            (Val::Int(i), Val::Rational(s)) => Val::Bool(rat_gt(rat_make(i as int, 1), s)),
            (Val::Identifier(s), Val::Identifier(s2)) => match m {
                None => Val::Identifier(s),
                Some(_) => spec_apply_operator(
                    Val::Identifier(s),
                    Val::Identifier(s2),
                    m,
                    fuel,
                    BinOp::Greater,
                ),
            },
            (Val::Rational(s), Val::Identifier(ss)) => match m {
                None => Val::Rational(s),
                Some(_) => spec_apply_operator_reverse(
                    Val::Rational(s),
                    Val::Identifier(ss),
                    m,
                    fuel,
                    BinOp::Greater,
                ),
            },
            (Val::Identifier(ss), Val::Rational(s)) => match m {
                None => Val::Rational(s),
                Some(_) => spec_apply_operator(
                    Val::Identifier(ss),
                    Val::Rational(s),
                    m,
                    fuel,
                    BinOp::Greater,
                ),
            },
            (Val::Identifier(s), Val::Int(i)) => match m {
                None => Val::Int(i),
                Some(_) => spec_apply_operator(Val::Identifier(s), Val::Int(i), m, fuel, BinOp::Greater),
            },
            (Val::Null, Val::Identifier(s)) => match m {
                None => Val::Identifier(s),
                Some(_) => spec_apply_operator(Val::Identifier(s), Val::Null, m, fuel, BinOp::Greater),
            },
            (Val::Identifier(s), Val::Null) => match m {
                None => Val::Identifier(s),
                Some(_) => spec_apply_operator(Val::Identifier(s), Val::Null, m, fuel, BinOp::Greater),
            },
            (Val::Int(i), Val::Identifier(s)) => match m {
                None => Val::Int(i),
                Some(_) => spec_apply_operator_reverse(
                    Val::Int(i),
                    Val::Identifier(s),
                    m,
                    fuel,
                    BinOp::Greater,
                ),
            },
            (Val::Bool(bb), Val::Identifier(s)) => match m {
                None => Val::Bool(bb),
                Some(_) => spec_apply_operator_reverse(
                    Val::Bool(bb),
                    Val::Identifier(s),
                    m,
                    fuel,
                    BinOp::Greater,
                ),
            },
            (Val::Identifier(s), Val::Bool(bb)) => match m {
                None => Val::Bool(bb),
                Some(_) => spec_apply_operator(
                    Val::Identifier(s),
                    Val::Bool(bb),
                    m,
                    fuel,
                    BinOp::Greater,
                ),
            },
            _ => Val::Identifier(greater_incompatible()),
        }
    }
}

/// Build the incompatibility error value for `greater`.
fn greater_error() -> (r: Parameters)
    ensures
        r@ == Val::Identifier(greater_incompatible()),
{
    Parameters::Identifier("@Those two values are incompatible with the > operator".to_owned())
}

/// `greater` with an explicit depth budget.
pub(crate) fn greater_fuel(i: Parameters, i2: Parameters, ram: Option<&Ram>, fuel: u64) -> (r:
    Parameters)
    requires
        val_wf(i@),
        val_wf(i2@),
        oram_wf(oram(ram)),
    ensures
        r@ == spec_greater(i@, i2@, oram(ram), fuel as nat),
        val_wf(r@),
    decreases fuel, 9int, 0int,
{
    if fuel == 0 {
        return depth_error_value();
    }
    match (i, i2) {
        (Parameters::Null, Parameters::Int(_)) => Parameters::Bool(true),
        (Parameters::Int(_), Parameters::Null) => Parameters::Bool(true),
        (Parameters::Int(v), Parameters::Int(v2)) => Parameters::Bool(v > v2),
        (Parameters::Bool(bb), Parameters::Int(_)) => Parameters::Bool(bb),
        (Parameters::Int(_), Parameters::Bool(bb)) => Parameters::Bool(bb),
        (Parameters::Bool(bb), Parameters::Null) => Parameters::Bool(bb),
        (Parameters::Null, Parameters::Bool(bb)) => Parameters::Bool(bb),
        (Parameters::Bool(bb), Parameters::Bool(b2)) => Parameters::Bool(bb && b2),
        (Parameters::Rational(_), Parameters::Null) => Parameters::Bool(true),
        (Parameters::Null, Parameters::Rational(_)) => Parameters::Bool(true),
        (Parameters::Rational(s), Parameters::Rational(s2)) => Parameters::Bool(s.gt(s2)),
        (Parameters::Rational(s), Parameters::Int(i)) => Parameters::Bool(s.gt(Rationals::new(1, i))),
        (Parameters::Int(i), Parameters::Rational(s)) => Parameters::Bool(Rationals::new(1, i).gt(s)),
        (Parameters::Identifier(s), Parameters::Identifier(s2)) => match ram {
            None => Parameters::Identifier(s),
            Some(_) => apply_operator_fuel(
                Parameters::Identifier(s),
                Parameters::Identifier(s2),
                ram,
                BinOp::Greater,
                fuel,
            ),
        },
        (Parameters::Rational(s), Parameters::Identifier(ss)) => match ram {
            None => Parameters::Rational(s),
            Some(_) => apply_operator_reverse_fuel(
                Parameters::Rational(s),
                Parameters::Identifier(ss),
                ram,
                BinOp::Greater,
                fuel,
            ),
        },
        (Parameters::Identifier(ss), Parameters::Rational(s)) => match ram {
            None => Parameters::Rational(s),
            Some(_) => apply_operator_fuel(
                Parameters::Identifier(ss),
                Parameters::Rational(s),
                ram,
                BinOp::Greater,
                fuel,
            ),
        },
        (Parameters::Identifier(s), Parameters::Int(i)) => match ram {
            None => Parameters::Int(i),
            Some(_) => apply_operator_fuel(
                Parameters::Identifier(s),
                Parameters::Int(i),
                ram,
                BinOp::Greater,
                fuel,
            ),
        },
        (Parameters::Null, Parameters::Identifier(s)) => match ram {
            None => Parameters::Identifier(s),
            Some(_) => apply_operator_fuel(
                Parameters::Identifier(s),
                Parameters::Null,
                ram,
                BinOp::Greater,
                fuel,
            ),
        },
        (Parameters::Identifier(s), Parameters::Null) => match ram {
            None => Parameters::Identifier(s),
            Some(_) => apply_operator_fuel(
                Parameters::Identifier(s),
                Parameters::Null,
                ram,
                BinOp::Greater,
                fuel,
            ),
        },
        (Parameters::Int(i), Parameters::Identifier(s)) => match ram {
            None => Parameters::Int(i),
            Some(_) => apply_operator_reverse_fuel(
                Parameters::Int(i),
                Parameters::Identifier(s),
                ram,
                BinOp::Greater,
                fuel,
            ),
        },
        (Parameters::Bool(bb), Parameters::Identifier(s)) => match ram {
            None => Parameters::Bool(bb),
            Some(_) => apply_operator_reverse_fuel(
                Parameters::Bool(bb),
                Parameters::Identifier(s),
                ram,
                BinOp::Greater,
                fuel,
            ),
        },
        (Parameters::Identifier(s), Parameters::Bool(bb)) => match ram {
            None => Parameters::Bool(bb),
            Some(_) => apply_operator_fuel(
                Parameters::Identifier(s),
                Parameters::Bool(bb),
                ram,
                BinOp::Greater,
                fuel,
            ),
        },
        _ => greater_error(),
    }
}

/// Compare two values with `>`, resolving identifiers against the
/// environment.
pub fn greater(i: Parameters, i2: Parameters, ram: Option<&Ram>) -> (r: Parameters)
    requires
        val_wf(i@),
        val_wf(i2@),
        oram_wf(oram(ram)),
    ensures
        r@ == spec_greater(i@, i2@, oram(ram), EVAL_DEPTH as nat),
        val_wf(r@),
{
    greater_fuel(i, i2, ram, EVAL_DEPTH)
}


/// Message of the incompatibility error for `lesser`.
pub open spec fn lesser_incompatible() -> Seq<char> {
    "@Those two values are incompatible with the < operator"@
}

/// Mathematical model of `lesser`.
pub open spec fn spec_lesser(a: Val, b: Val, m: Option<Map<Seq<char>, Val>>, fuel: nat) -> Val
    decreases fuel, 9int, 0int,
{
    if fuel == 0 {
        Val::Identifier(depth_error())
    } else {
        match (a, b) {
            (Val::Null, Val::Int(_)) => Val::Bool(false),
            (Val::Int(_), Val::Null) => Val::Bool(false),
            (Val::Int(v), Val::Int(v2)) => Val::Bool(v < v2),
            (Val::Bool(bb), Val::Int(_)) => Val::Bool(bb),
            (Val::Int(_), Val::Bool(bb)) => Val::Bool(bb),
            (Val::Bool(bb), Val::Null) => Val::Bool(bb),
            (Val::Null, Val::Bool(bb)) => Val::Bool(bb),
            (Val::Bool(bb), Val::Bool(b2)) => Val::Bool(bb && b2),
            (Val::Rational(_), Val::Null) => Val::Bool(true),
            (Val::Null, Val::Rational(_)) => Val::Bool(true),
            (Val::Rational(s), Val::Rational(s2)) => Val::Bool(rat_lt(s, s2)),
            (Val::Rational(s), Val::Int(i)) => Val::Bool(rat_lt(s, rat_make(i as int, 1))),
            (Val::Int(i), Val::Rational(s)) => Val::Bool(rat_lt(rat_make(i as int, 1), s)),
            (Val::Identifier(s), Val::Identifier(s2)) => match m {
                None => Val::Identifier(s),
                Some(_) => spec_apply_operator(
                    Val::Identifier(s),
                    Val::Identifier(s2),
                    m,
                    fuel,
                    BinOp::Lesser,
                ),
            },
            (Val::Rational(s), Val::Identifier(ss)) => match m {
                None => Val::Rational(s),
                Some(_) => spec_apply_operator_reverse(
                    Val::Rational(s),
                    Val::Identifier(ss),
                    m,
                    fuel,
                    BinOp::Lesser,
                ),
            },
            (Val::Identifier(ss), Val::Rational(s)) => match m {
                None => Val::Rational(s),
                Some(_) => spec_apply_operator(
                    Val::Identifier(ss),
                    Val::Rational(s),
                    m,
                    fuel,
                    BinOp::Lesser,
                ),
            },
            (Val::Identifier(s), Val::Int(i)) => match m {
                None => Val::Int(i),
                Some(_) => spec_apply_operator(Val::Identifier(s), Val::Int(i), m, fuel, BinOp::Lesser),
            },
            (Val::Null, Val::Identifier(s)) => match m {
                None => Val::Identifier(s),
                Some(_) => spec_apply_operator(Val::Identifier(s), Val::Null, m, fuel, BinOp::Lesser),
            },
            (Val::Identifier(s), Val::Null) => match m {
                None => Val::Identifier(s),
                Some(_) => spec_apply_operator(Val::Identifier(s), Val::Null, m, fuel, BinOp::Lesser),
            },
            (Val::Int(i), Val::Identifier(s)) => match m {
                None => Val::Int(i),
                Some(_) => spec_apply_operator_reverse(
                    Val::Int(i),
                    Val::Identifier(s),
                    m,
                    fuel,
                    BinOp::Lesser,
                ),
            },
            (Val::Bool(bb), Val::Identifier(s)) => match m {
                None => Val::Bool(bb),
                Some(_) => spec_apply_operator_reverse(
                    Val::Bool(bb),
                    Val::Identifier(s),
                    m,
                    fuel,
                    BinOp::Lesser,
                ),
            },
            (Val::Identifier(s), Val::Bool(bb)) => match m {
                None => Val::Bool(bb),
                Some(_) => spec_apply_operator(
                    Val::Identifier(s),
                    Val::Bool(bb),
                    m,
                    fuel,
                    BinOp::Lesser,
                ),
            },
            _ => Val::Identifier(lesser_incompatible()),
        }
    }
}

/// Build the incompatibility error value for `lesser`.
fn lesser_error() -> (r: Parameters)
    ensures
        r@ == Val::Identifier(lesser_incompatible()),
{
    Parameters::Identifier("@Those two values are incompatible with the < operator".to_owned())
}

/// `lesser` with an explicit depth budget.
pub(crate) fn lesser_fuel(i: Parameters, i2: Parameters, ram: Option<&Ram>, fuel: u64) -> (r:
    Parameters)
    requires
        val_wf(i@),
        val_wf(i2@),
        oram_wf(oram(ram)),
    ensures
        r@ == spec_lesser(i@, i2@, oram(ram), fuel as nat),
        val_wf(r@),
    decreases fuel, 9int, 0int,
{
    if fuel == 0 {
        return depth_error_value();
    }
    match (i, i2) {
        (Parameters::Null, Parameters::Int(_)) => Parameters::Bool(false),
        (Parameters::Int(_), Parameters::Null) => Parameters::Bool(false),
        (Parameters::Int(v), Parameters::Int(v2)) => Parameters::Bool(v < v2),
        (Parameters::Bool(bb), Parameters::Int(_)) => Parameters::Bool(bb),
        (Parameters::Int(_), Parameters::Bool(bb)) => Parameters::Bool(bb),
        (Parameters::Bool(bb), Parameters::Null) => Parameters::Bool(bb),
        (Parameters::Null, Parameters::Bool(bb)) => Parameters::Bool(bb),
        (Parameters::Bool(bb), Parameters::Bool(b2)) => Parameters::Bool(bb && b2),
        (Parameters::Rational(_), Parameters::Null) => Parameters::Bool(true),
        (Parameters::Null, Parameters::Rational(_)) => Parameters::Bool(true),
        (Parameters::Rational(s), Parameters::Rational(s2)) => Parameters::Bool(s.lt(s2)),
        (Parameters::Rational(s), Parameters::Int(i)) => Parameters::Bool(s.lt(Rationals::new(1, i))),
        (Parameters::Int(i), Parameters::Rational(s)) => Parameters::Bool(Rationals::new(1, i).lt(s)),
        (Parameters::Identifier(s), Parameters::Identifier(s2)) => match ram {
            None => Parameters::Identifier(s),
            Some(_) => apply_operator_fuel(
                Parameters::Identifier(s),
                Parameters::Identifier(s2),
                ram,
                BinOp::Lesser,
                fuel,
            ),
        },
        (Parameters::Rational(s), Parameters::Identifier(ss)) => match ram {
            None => Parameters::Rational(s),
            Some(_) => apply_operator_reverse_fuel(
                Parameters::Rational(s),
                Parameters::Identifier(ss),
                ram,
                BinOp::Lesser,
                fuel,
            ),
        },
        (Parameters::Identifier(ss), Parameters::Rational(s)) => match ram {
            None => Parameters::Rational(s),
            Some(_) => apply_operator_fuel(
                Parameters::Identifier(ss),
                Parameters::Rational(s),
                ram,
                BinOp::Lesser,
                fuel,
            ),
        },
        (Parameters::Identifier(s), Parameters::Int(i)) => match ram {
            None => Parameters::Int(i),
            Some(_) => apply_operator_fuel(
                Parameters::Identifier(s),
                Parameters::Int(i),
                ram,
                BinOp::Lesser,
                fuel,
            ),
        },
        (Parameters::Null, Parameters::Identifier(s)) => match ram {
            None => Parameters::Identifier(s),
            Some(_) => apply_operator_fuel(
                Parameters::Identifier(s),
                Parameters::Null,
                ram,
                BinOp::Lesser,
                fuel,
            ),
        },
        (Parameters::Identifier(s), Parameters::Null) => match ram {
            None => Parameters::Identifier(s),
            Some(_) => apply_operator_fuel(
                Parameters::Identifier(s),
                Parameters::Null,
                ram,
                BinOp::Lesser,
                fuel,
            ),
        },
        (Parameters::Int(i), Parameters::Identifier(s)) => match ram {
            None => Parameters::Int(i),
            Some(_) => apply_operator_reverse_fuel(
                Parameters::Int(i),
                Parameters::Identifier(s),
                ram,
                BinOp::Lesser,
                fuel,
            ),
        },
        (Parameters::Bool(bb), Parameters::Identifier(s)) => match ram {
            None => Parameters::Bool(bb),
            Some(_) => apply_operator_reverse_fuel(
                Parameters::Bool(bb),
                Parameters::Identifier(s),
                ram,
                BinOp::Lesser,
                fuel,
            ),
        },
        (Parameters::Identifier(s), Parameters::Bool(bb)) => match ram {
            None => Parameters::Bool(bb),
            Some(_) => apply_operator_fuel(
                Parameters::Identifier(s),
                Parameters::Bool(bb),
                ram,
                BinOp::Lesser,
                fuel,
            ),
        },
        _ => lesser_error(),
    }
}

/// Compare two values with `<`, resolving identifiers against the
/// environment.
pub fn lesser(i: Parameters, i2: Parameters, ram: Option<&Ram>) -> (r: Parameters)
    requires
        val_wf(i@),
        val_wf(i2@),
        oram_wf(oram(ram)),
    ensures
        r@ == spec_lesser(i@, i2@, oram(ram), EVAL_DEPTH as nat),
        val_wf(r@),
{
    lesser_fuel(i, i2, ram, EVAL_DEPTH)
}


/// Message of the incompatibility error for `greater_or_equal`.
pub open spec fn greater_or_equal_incompatible() -> Seq<char> {
    "@Those two values are incompatible with the >= operator"@
}

/// Mathematical model of `greater_or_equal`.
pub open spec fn spec_greater_or_equal(a: Val, b: Val, m: Option<Map<Seq<char>, Val>>, fuel: nat) -> Val
    decreases fuel, 9int, 0int,
{
    if fuel == 0 {
        Val::Identifier(depth_error())
    } else {
        match (a, b) {
            (Val::Null, Val::Int(_)) => Val::Bool(true),
            (Val::Int(_), Val::Null) => Val::Bool(true),
            (Val::Int(v), Val::Int(v2)) => Val::Bool(v >= v2),
            (Val::Bool(bb), Val::Int(_)) => Val::Bool(bb),
            (Val::Int(_), Val::Bool(bb)) => Val::Bool(bb),
            (Val::Bool(bb), Val::Null) => Val::Bool(bb),
            (Val::Null, Val::Bool(bb)) => Val::Bool(bb),
            (Val::Bool(bb), Val::Bool(b2)) => Val::Bool(bb == b2),
            (Val::Rational(_), Val::Null) => Val::Bool(true),
            (Val::Null, Val::Rational(_)) => Val::Bool(true),
            (Val::Rational(s), Val::Rational(s2)) => Val::Bool(!rat_lt(s, s2)),
            (Val::Rational(s), Val::Int(i)) => Val::Bool(!rat_lt(s, rat_make(i as int, 1))),
            (Val::Int(i), Val::Rational(s)) => Val::Bool(!rat_lt(rat_make(i as int, 1), s)),
            (Val::Identifier(s), Val::Identifier(s2)) => match m {
                None => Val::Identifier(s),
                Some(_) => spec_apply_operator(
                    Val::Identifier(s),
                    Val::Identifier(s2),
                    m,
                    fuel,
                    BinOp::GreaterOrEqual,
                ),
            },
            (Val::Rational(s), Val::Identifier(ss)) => match m {
                None => Val::Rational(s),
                Some(_) => spec_apply_operator_reverse(
                    Val::Rational(s),
                    Val::Identifier(ss),
                    m,
                    fuel,
                    BinOp::GreaterOrEqual,
                ),
            },
            (Val::Identifier(ss), Val::Rational(s)) => match m {
                None => Val::Rational(s),
                Some(_) => spec_apply_operator(
                    Val::Identifier(ss),
                    Val::Rational(s),
                    m,
                    fuel,
                    BinOp::GreaterOrEqual,
                ),
            },
            (Val::Identifier(s), Val::Int(i)) => match m {
                None => Val::Int(i),
                Some(_) => spec_apply_operator(Val::Identifier(s), Val::Int(i), m, fuel, BinOp::GreaterOrEqual),
            },
            (Val::Null, Val::Identifier(s)) => match m {
                None => Val::Identifier(s),
                Some(_) => spec_apply_operator(Val::Identifier(s), Val::Null, m, fuel, BinOp::GreaterOrEqual),
            },
            (Val::Identifier(s), Val::Null) => match m {
                None => Val::Identifier(s),
                Some(_) => spec_apply_operator(Val::Identifier(s), Val::Null, m, fuel, BinOp::GreaterOrEqual),
            },
            (Val::Int(i), Val::Identifier(s)) => match m {
                None => Val::Int(i),
                Some(_) => spec_apply_operator_reverse(
                    Val::Int(i),
                    Val::Identifier(s),
                    m,
                    fuel,
                    BinOp::GreaterOrEqual,
                ),
            },
            (Val::Bool(bb), Val::Identifier(s)) => match m {
                None => Val::Bool(bb),
                Some(_) => spec_apply_operator_reverse(
                    Val::Bool(bb),
                    Val::Identifier(s),
                    m,
                    fuel,
                    BinOp::GreaterOrEqual,
                ),
            },
            (Val::Identifier(s), Val::Bool(bb)) => match m {
                None => Val::Bool(bb),
                Some(_) => spec_apply_operator(
                    Val::Identifier(s),
                    Val::Bool(bb),
                    m,
                    fuel,
                    BinOp::GreaterOrEqual,
                ),
            },
            _ => Val::Identifier(greater_or_equal_incompatible()),
        }
    }
}

/// Build the incompatibility error value for `greater_or_equal`.
fn greater_or_equal_error() -> (r: Parameters)
    ensures
        r@ == Val::Identifier(greater_or_equal_incompatible()),
{
    Parameters::Identifier("@Those two values are incompatible with the >= operator".to_owned())
}

/// `greater_or_equal` with an explicit depth budget.
pub(crate) fn greater_or_equal_fuel(i: Parameters, i2: Parameters, ram: Option<&Ram>, fuel: u64) -> (r:
    Parameters)
    requires
        val_wf(i@),
        val_wf(i2@),
        oram_wf(oram(ram)),
    ensures
        r@ == spec_greater_or_equal(i@, i2@, oram(ram), fuel as nat),
        val_wf(r@),
    decreases fuel, 9int, 0int,
{
    if fuel == 0 {
        return depth_error_value();
    }
    match (i, i2) {
        (Parameters::Null, Parameters::Int(_)) => Parameters::Bool(true),
        (Parameters::Int(_), Parameters::Null) => Parameters::Bool(true),
        (Parameters::Int(v), Parameters::Int(v2)) => Parameters::Bool(v >= v2),
        (Parameters::Bool(bb), Parameters::Int(_)) => Parameters::Bool(bb),
        (Parameters::Int(_), Parameters::Bool(bb)) => Parameters::Bool(bb),
        (Parameters::Bool(bb), Parameters::Null) => Parameters::Bool(bb),
        (Parameters::Null, Parameters::Bool(bb)) => Parameters::Bool(bb),
        (Parameters::Bool(bb), Parameters::Bool(b2)) => Parameters::Bool(bb == b2),
        (Parameters::Rational(_), Parameters::Null) => Parameters::Bool(true),
        (Parameters::Null, Parameters::Rational(_)) => Parameters::Bool(true),
        (Parameters::Rational(s), Parameters::Rational(s2)) => Parameters::Bool(s.ge(s2)),
        (Parameters::Rational(s), Parameters::Int(i)) => Parameters::Bool(s.ge(Rationals::new(1, i))),
        (Parameters::Int(i), Parameters::Rational(s)) => Parameters::Bool(Rationals::new(1, i).ge(s)),
        (Parameters::Identifier(s), Parameters::Identifier(s2)) => match ram {
            None => Parameters::Identifier(s),
            Some(_) => apply_operator_fuel(
                Parameters::Identifier(s),
                Parameters::Identifier(s2),
                ram,
                BinOp::GreaterOrEqual,
                fuel,
            ),
        },
        (Parameters::Rational(s), Parameters::Identifier(ss)) => match ram {
            None => Parameters::Rational(s),
            Some(_) => apply_operator_reverse_fuel(
                Parameters::Rational(s),
                Parameters::Identifier(ss),
                ram,
                BinOp::GreaterOrEqual,
                fuel,
            ),
        },
        (Parameters::Identifier(ss), Parameters::Rational(s)) => match ram {
            None => Parameters::Rational(s),
            Some(_) => apply_operator_fuel(
                Parameters::Identifier(ss),
                Parameters::Rational(s),
                ram,
                BinOp::GreaterOrEqual,
                fuel,
            ),
        },
        (Parameters::Identifier(s), Parameters::Int(i)) => match ram {
            None => Parameters::Int(i),
            Some(_) => apply_operator_fuel(
                Parameters::Identifier(s),
                Parameters::Int(i),
                ram,
                BinOp::GreaterOrEqual,
                fuel,
            ),
        },
        (Parameters::Null, Parameters::Identifier(s)) => match ram {
            None => Parameters::Identifier(s),
            Some(_) => apply_operator_fuel(
                Parameters::Identifier(s),
                Parameters::Null,
                ram,
                BinOp::GreaterOrEqual,
                fuel,
            ),
        },
        (Parameters::Identifier(s), Parameters::Null) => match ram {
            None => Parameters::Identifier(s),
            Some(_) => apply_operator_fuel(
                Parameters::Identifier(s),
                Parameters::Null,
                ram,
                BinOp::GreaterOrEqual,
                fuel,
            ),
        },
        (Parameters::Int(i), Parameters::Identifier(s)) => match ram {
            None => Parameters::Int(i),
            Some(_) => apply_operator_reverse_fuel(
                Parameters::Int(i),
                Parameters::Identifier(s),
                ram,
                BinOp::GreaterOrEqual,
                fuel,
            ),
        },
        (Parameters::Bool(bb), Parameters::Identifier(s)) => match ram {
            None => Parameters::Bool(bb),
            Some(_) => apply_operator_reverse_fuel(
                Parameters::Bool(bb),
                Parameters::Identifier(s),
                ram,
                BinOp::GreaterOrEqual,
                fuel,
            ),
        },
        (Parameters::Identifier(s), Parameters::Bool(bb)) => match ram {
            None => Parameters::Bool(bb),
            Some(_) => apply_operator_fuel(
                Parameters::Identifier(s),
                Parameters::Bool(bb),
                ram,
                BinOp::GreaterOrEqual,
                fuel,
            ),
        },
        _ => greater_or_equal_error(),
    }
}

/// Compare two values with `>=`, resolving identifiers against the
/// environment.
pub fn greater_or_equal(i: Parameters, i2: Parameters, ram: Option<&Ram>) -> (r: Parameters)
    requires
        val_wf(i@),
        val_wf(i2@),
        oram_wf(oram(ram)),
    ensures
        r@ == spec_greater_or_equal(i@, i2@, oram(ram), EVAL_DEPTH as nat),
        val_wf(r@),
{
    greater_or_equal_fuel(i, i2, ram, EVAL_DEPTH)
}


/// Message of the incompatibility error for `lesser_or_equal`.
pub open spec fn lesser_or_equal_incompatible() -> Seq<char> {
    "@Those two values are incompatible with the <= operator"@
}

/// Mathematical model of `lesser_or_equal`.
pub open spec fn spec_lesser_or_equal(a: Val, b: Val, m: Option<Map<Seq<char>, Val>>, fuel: nat) -> Val
    decreases fuel, 9int, 0int,
{
    if fuel == 0 {
        Val::Identifier(depth_error())
    } else {
        match (a, b) {
            (Val::Null, Val::Int(_)) => Val::Bool(false),
            (Val::Int(_), Val::Null) => Val::Bool(false),
            (Val::Int(v), Val::Int(v2)) => Val::Bool(v <= v2),
            (Val::Bool(bb), Val::Int(_)) => Val::Bool(bb),
            (Val::Int(_), Val::Bool(bb)) => Val::Bool(bb),
            (Val::Bool(bb), Val::Null) => Val::Bool(bb),
            (Val::Null, Val::Bool(bb)) => Val::Bool(bb),
            (Val::Bool(bb), Val::Bool(b2)) => Val::Bool(bb == b2),
            (Val::Rational(_), Val::Null) => Val::Bool(true),
            (Val::Null, Val::Rational(_)) => Val::Bool(true),
            (Val::Rational(s), Val::Rational(s2)) => Val::Bool(!rat_gt(s, s2)),
            (Val::Rational(s), Val::Int(i)) => Val::Bool(!rat_gt(s, rat_make(i as int, 1))),
            (Val::Int(i), Val::Rational(s)) => Val::Bool(!rat_gt(rat_make(i as int, 1), s)),
            (Val::Identifier(s), Val::Identifier(s2)) => match m {
                None => Val::Identifier(s),
                Some(_) => spec_apply_operator(
                    Val::Identifier(s),
                    Val::Identifier(s2),
                    m,
                    fuel,
                    BinOp::LesserOrEqual,
                ),
            },
            (Val::Rational(s), Val::Identifier(ss)) => match m {
                None => Val::Rational(s),
                Some(_) => spec_apply_operator_reverse(
                    Val::Rational(s),
                    Val::Identifier(ss),
                    m,
                    fuel,
                    BinOp::LesserOrEqual,
                ),
            },
            (Val::Identifier(ss), Val::Rational(s)) => match m {
                None => Val::Rational(s),
                Some(_) => spec_apply_operator(
                    Val::Identifier(ss),
                    Val::Rational(s),
                    m,
                    fuel,
                    BinOp::LesserOrEqual,
                ),
            },
            (Val::Identifier(s), Val::Int(i)) => match m {
                None => Val::Int(i),
                Some(_) => spec_apply_operator(Val::Identifier(s), Val::Int(i), m, fuel, BinOp::LesserOrEqual),
            },
            (Val::Null, Val::Identifier(s)) => match m {
                None => Val::Identifier(s),
                Some(_) => spec_apply_operator(Val::Identifier(s), Val::Null, m, fuel, BinOp::LesserOrEqual),
            },
            (Val::Identifier(s), Val::Null) => match m {
                None => Val::Identifier(s),
                Some(_) => spec_apply_operator(Val::Identifier(s), Val::Null, m, fuel, BinOp::LesserOrEqual),
            },
            (Val::Int(i), Val::Identifier(s)) => match m {
                None => Val::Int(i),
                Some(_) => spec_apply_operator_reverse(
                    Val::Int(i),
                    Val::Identifier(s),
                    m,
                    fuel,
                    BinOp::LesserOrEqual,
                ),
            },
            (Val::Bool(bb), Val::Identifier(s)) => match m {
                None => Val::Bool(bb),
                Some(_) => spec_apply_operator_reverse(
                    Val::Bool(bb),
                    Val::Identifier(s),
                    m,
                    fuel,
                    BinOp::LesserOrEqual,
                ),
            },
            (Val::Identifier(s), Val::Bool(bb)) => match m {
                None => Val::Bool(bb),
                Some(_) => spec_apply_operator(
                    Val::Identifier(s),
                    Val::Bool(bb),
                    m,
                    fuel,
                    BinOp::LesserOrEqual,
                ),
            },
            _ => Val::Identifier(lesser_or_equal_incompatible()),
        }
    }
}

/// Build the incompatibility error value for `lesser_or_equal`.
fn lesser_or_equal_error() -> (r: Parameters)
    ensures
        r@ == Val::Identifier(lesser_or_equal_incompatible()),
{
    Parameters::Identifier("@Those two values are incompatible with the <= operator".to_owned())
}

/// `lesser_or_equal` with an explicit depth budget.
pub(crate) fn lesser_or_equal_fuel(i: Parameters, i2: Parameters, ram: Option<&Ram>, fuel: u64) -> (r:
    Parameters)
    requires
        val_wf(i@),
        val_wf(i2@),
        oram_wf(oram(ram)),
    ensures
        r@ == spec_lesser_or_equal(i@, i2@, oram(ram), fuel as nat),
        val_wf(r@),
    decreases fuel, 9int, 0int,
{
    if fuel == 0 {
        return depth_error_value();
    }
    match (i, i2) {
        (Parameters::Null, Parameters::Int(_)) => Parameters::Bool(false),
        (Parameters::Int(_), Parameters::Null) => Parameters::Bool(false),
        (Parameters::Int(v), Parameters::Int(v2)) => Parameters::Bool(v <= v2),
        (Parameters::Bool(bb), Parameters::Int(_)) => Parameters::Bool(bb),
        (Parameters::Int(_), Parameters::Bool(bb)) => Parameters::Bool(bb),
        (Parameters::Bool(bb), Parameters::Null) => Parameters::Bool(bb),
        (Parameters::Null, Parameters::Bool(bb)) => Parameters::Bool(bb),
        (Parameters::Bool(bb), Parameters::Bool(b2)) => Parameters::Bool(bb == b2),
        (Parameters::Rational(_), Parameters::Null) => Parameters::Bool(true),
        (Parameters::Null, Parameters::Rational(_)) => Parameters::Bool(true),
        (Parameters::Rational(s), Parameters::Rational(s2)) => Parameters::Bool(s.le(s2)),
        (Parameters::Rational(s), Parameters::Int(i)) => Parameters::Bool(s.le(Rationals::new(1, i))),
        (Parameters::Int(i), Parameters::Rational(s)) => Parameters::Bool(Rationals::new(1, i).le(s)),
        (Parameters::Identifier(s), Parameters::Identifier(s2)) => match ram {
            None => Parameters::Identifier(s),
            Some(_) => apply_operator_fuel(
                Parameters::Identifier(s),
                Parameters::Identifier(s2),
                ram,
                BinOp::LesserOrEqual,
                fuel,
            ),
        },
        (Parameters::Rational(s), Parameters::Identifier(ss)) => match ram {
            None => Parameters::Rational(s),
            Some(_) => apply_operator_reverse_fuel(
                Parameters::Rational(s),
                Parameters::Identifier(ss),
                ram,
                BinOp::LesserOrEqual,
                fuel,
            ),
        },
        (Parameters::Identifier(ss), Parameters::Rational(s)) => match ram {
            None => Parameters::Rational(s),
            Some(_) => apply_operator_fuel(
                Parameters::Identifier(ss),
                Parameters::Rational(s),
                ram,
                BinOp::LesserOrEqual,
                fuel,
            ),
        },
        (Parameters::Identifier(s), Parameters::Int(i)) => match ram {
            None => Parameters::Int(i),
            Some(_) => apply_operator_fuel(
                Parameters::Identifier(s),
                Parameters::Int(i),
                ram,
                BinOp::LesserOrEqual,
                fuel,
            ),
        },
        (Parameters::Null, Parameters::Identifier(s)) => match ram {
            None => Parameters::Identifier(s),
            Some(_) => apply_operator_fuel(
                Parameters::Identifier(s),
                Parameters::Null,
                ram,
                BinOp::LesserOrEqual,
                fuel,
            ),
        },
        (Parameters::Identifier(s), Parameters::Null) => match ram {
            None => Parameters::Identifier(s),
            Some(_) => apply_operator_fuel(
                Parameters::Identifier(s),
                Parameters::Null,
                ram,
                BinOp::LesserOrEqual,
                fuel,
            ),
        },
        (Parameters::Int(i), Parameters::Identifier(s)) => match ram {
            None => Parameters::Int(i),
            Some(_) => apply_operator_reverse_fuel(
                Parameters::Int(i),
                Parameters::Identifier(s),
                ram,
                BinOp::LesserOrEqual,
                fuel,
            ),
        },
        (Parameters::Bool(bb), Parameters::Identifier(s)) => match ram {
            None => Parameters::Bool(bb),
            Some(_) => apply_operator_reverse_fuel(
                Parameters::Bool(bb),
                Parameters::Identifier(s),
                ram,
                BinOp::LesserOrEqual,
                fuel,
            ),
        },
        (Parameters::Identifier(s), Parameters::Bool(bb)) => match ram {
            None => Parameters::Bool(bb),
            Some(_) => apply_operator_fuel(
                Parameters::Identifier(s),
                Parameters::Bool(bb),
                ram,
                BinOp::LesserOrEqual,
                fuel,
            ),
        },
        _ => lesser_or_equal_error(),
    }
}

/// Compare two values with `<=`, resolving identifiers against the
/// environment.
pub fn lesser_or_equal(i: Parameters, i2: Parameters, ram: Option<&Ram>) -> (r: Parameters)
    requires
        val_wf(i@),
        val_wf(i2@),
        oram_wf(oram(ram)),
    ensures
        r@ == spec_lesser_or_equal(i@, i2@, oram(ram), EVAL_DEPTH as nat),
        val_wf(r@),
{
    lesser_or_equal_fuel(i, i2, ram, EVAL_DEPTH)
}

/// Message of the incompatibility error for `equal`.
pub open spec fn equal_incompatible() -> Seq<char> {
    "@Those two values are incompatible with the == operator"@
}

/// Mathematical model of `equal`.
pub open spec fn spec_equal(a: Val, b: Val, m: Option<Map<Seq<char>, Val>>, fuel: nat) -> Val
    decreases fuel, 9int, 0int,
{
    if fuel == 0 {
        Val::Identifier(depth_error())
    } else {
        match (a, b) {
            (Val::Null, Val::Int(_)) => Val::Bool(true),
            (Val::Int(_), Val::Null) => Val::Bool(true),
            (Val::Int(v), Val::Int(v2)) => Val::Bool(v == v2),
            (Val::Bool(_), Val::Int(_)) => Val::Bool(false),
            (Val::Int(_), Val::Bool(_)) => Val::Bool(false),
            (Val::Bool(_), Val::Null) => Val::Bool(false),
            (Val::Null, Val::Bool(_)) => Val::Bool(false),
            (Val::Bool(bb), Val::Bool(b2)) => Val::Bool(bb == b2),
            (Val::Rational(_), Val::Null) => Val::Bool(true),
            (Val::Null, Val::Rational(_)) => Val::Bool(true),
            (Val::Rational(s), Val::Rational(s2)) => Val::Bool(s == s2),
            (Val::Rational(s), Val::Int(i)) => Val::Bool(s == rat_make(i as int, 1)),
            (Val::Int(i), Val::Rational(s)) => Val::Bool(rat_make(i as int, 1) == s),
            (Val::Identifier(s), Val::Identifier(s2)) => spec_apply_operator(
                Val::Identifier(s),
                Val::Identifier(s2),
                m,
                fuel,
                BinOp::Equal,
            ),
            (Val::Identifier(s), Val::Int(i)) => spec_apply_operator(
                Val::Identifier(s),
                Val::Int(i),
                m,
                fuel,
                BinOp::Equal,
            ),
            (Val::Null, Val::Identifier(s)) => spec_apply_operator(
                Val::Identifier(s),
                Val::Null,
                m,
                fuel,
                BinOp::Equal,
            ),
            (Val::Identifier(s), Val::Null) => spec_apply_operator(
                Val::Identifier(s),
                Val::Null,
                m,
                fuel,
                BinOp::Equal,
            ),
            (Val::Int(i), Val::Identifier(s)) => spec_apply_operator_reverse(
                Val::Int(i),
                Val::Identifier(s),
                m,
                fuel,
                BinOp::Equal,
            ),
            (Val::Bool(bb), Val::Identifier(s)) => spec_apply_operator_reverse(
                Val::Bool(bb),
                Val::Identifier(s),
                m,
                fuel,
                BinOp::Equal,
            ),
            (Val::Identifier(s), Val::Bool(bb)) => spec_apply_operator(
                Val::Identifier(s),
                Val::Bool(bb),
                m,
                fuel,
                BinOp::Equal,
            ),
            (Val::Rational(s), Val::Identifier(ss)) => spec_apply_operator_reverse(
                Val::Rational(s),
                Val::Identifier(ss),
                m,
                fuel,
                BinOp::Equal,
            ),
            (Val::Identifier(ss), Val::Rational(s)) => spec_apply_operator(
                Val::Identifier(ss),
                Val::Rational(s),
                m,
                fuel,
                BinOp::Equal,
            ),
            _ => Val::Identifier(equal_incompatible()),
        }
    }
}

/// Build the incompatibility error value for `equal`.
fn equal_error() -> (r: Parameters)
    ensures
        r@ == Val::Identifier(equal_incompatible()),
{
    Parameters::Identifier("@Those two values are incompatible with the == operator".to_owned())
}

/// `equal` with an explicit depth budget.
pub(crate) fn equal_fuel(i: Parameters, i2: Parameters, ram: Option<&Ram>, fuel: u64) -> (r:
    Parameters)
    requires
        val_wf(i@),
        val_wf(i2@),
        oram_wf(oram(ram)),
    ensures
        r@ == spec_equal(i@, i2@, oram(ram), fuel as nat),
        val_wf(r@),
    decreases fuel, 9int, 0int,
{
    if fuel == 0 {
        return depth_error_value();
    }
    match (i, i2) {
        (Parameters::Null, Parameters::Int(_)) => Parameters::Bool(true),
        (Parameters::Int(_), Parameters::Null) => Parameters::Bool(true),
        (Parameters::Int(v), Parameters::Int(v2)) => Parameters::Bool(v == v2),
        (Parameters::Bool(_), Parameters::Int(_)) => Parameters::Bool(false),
        (Parameters::Int(_), Parameters::Bool(_)) => Parameters::Bool(false),
        (Parameters::Bool(_), Parameters::Null) => Parameters::Bool(false),
        (Parameters::Null, Parameters::Bool(_)) => Parameters::Bool(false),
        (Parameters::Bool(bb), Parameters::Bool(b2)) => Parameters::Bool(bb == b2),
        (Parameters::Rational(_), Parameters::Null) => Parameters::Bool(true),
        (Parameters::Null, Parameters::Rational(_)) => Parameters::Bool(true),
        (Parameters::Rational(s), Parameters::Rational(s2)) => Parameters::Bool(s == s2),
        (Parameters::Rational(s), Parameters::Int(i)) => Parameters::Bool(
            s == Rationals::new(1, i),
        ),
        (Parameters::Int(i), Parameters::Rational(s)) => Parameters::Bool(
            Rationals::new(1, i) == s,
        ),
        (Parameters::Identifier(s), Parameters::Identifier(s2)) => apply_operator_fuel(
            Parameters::Identifier(s),
            Parameters::Identifier(s2),
            ram,
            BinOp::Equal,
            fuel,
        ),
        (Parameters::Identifier(s), Parameters::Int(i)) => apply_operator_fuel(
            Parameters::Identifier(s),
            Parameters::Int(i),
            ram,
            BinOp::Equal,
            fuel,
        ),
        (Parameters::Null, Parameters::Identifier(s)) => apply_operator_fuel(
            Parameters::Identifier(s),
            Parameters::Null,
            ram,
            BinOp::Equal,
            fuel,
        ),
        (Parameters::Identifier(s), Parameters::Null) => apply_operator_fuel(
            Parameters::Identifier(s),
            Parameters::Null,
            ram,
            BinOp::Equal,
            fuel,
        ),
        (Parameters::Int(i), Parameters::Identifier(s)) => apply_operator_reverse_fuel(
            Parameters::Int(i),
            Parameters::Identifier(s),
            ram,
            BinOp::Equal,
            fuel,
        ),
        (Parameters::Bool(bb), Parameters::Identifier(s)) => apply_operator_reverse_fuel(
            Parameters::Bool(bb),
            Parameters::Identifier(s),
            ram,
            BinOp::Equal,
            fuel,
        ),
        (Parameters::Identifier(s), Parameters::Bool(bb)) => apply_operator_fuel(
            Parameters::Identifier(s),
            Parameters::Bool(bb),
            ram,
            BinOp::Equal,
            fuel,
        ),
        (Parameters::Rational(s), Parameters::Identifier(ss)) => apply_operator_reverse_fuel(
            Parameters::Rational(s),
            Parameters::Identifier(ss),
            ram,
            BinOp::Equal,
            fuel,
        ),
        (Parameters::Identifier(ss), Parameters::Rational(s)) => apply_operator_fuel(
            Parameters::Identifier(ss),
            Parameters::Rational(s),
            ram,
            BinOp::Equal,
            fuel,
        ),
        _ => equal_error(),
    }
}

/// Equality over the value domain, resolving identifiers against the
/// environment.
pub fn equal(i: Parameters, i2: Parameters, ram: Option<&Ram>) -> (r: Parameters)
    requires
        val_wf(i@),
        val_wf(i2@),
        oram_wf(oram(ram)),
    ensures
        r@ == spec_equal(i@, i2@, oram(ram), EVAL_DEPTH as nat),
        val_wf(r@),
{
    equal_fuel(i, i2, ram, EVAL_DEPTH)
}

/// Mathematical model of `not`.
pub open spec fn spec_not(a: Val, b: Val, m: Option<Map<Seq<char>, Val>>, fuel: nat) -> Val
    decreases fuel, 9int, 0int,
{
    if fuel == 0 {
        Val::Identifier(depth_error())
    } else {
        match a {
            Val::Bool(bb) => Val::Bool(!bb),
            Val::Identifier(s) => spec_apply_operator(
                Val::Identifier(s),
                Val::Null,
                m,
                fuel,
                BinOp::Not,
            ),
            _ => Val::Bool(false),
        }
    }
}

/// Boolean negation; any non-boolean collapses to `false`.
pub(crate) fn not_fuel(i: Parameters, _i2: Parameters, ram: Option<&Ram>, fuel: u64) -> (r:
    Parameters)
    requires
        val_wf(i@),
        val_wf(_i2@),
        oram_wf(oram(ram)),
    ensures
        r@ == spec_not(i@, _i2@, oram(ram), fuel as nat),
        val_wf(r@),
    decreases fuel, 9int, 0int,
{
    if fuel == 0 {
        return depth_error_value();
    }
    match i {
        Parameters::Bool(bb) => Parameters::Bool(!bb),
        Parameters::Identifier(s) => apply_operator_fuel(
            Parameters::Identifier(s),
            Parameters::Null,
            ram,
            BinOp::Not,
            fuel,
        ),
        _ => Parameters::Bool(false),
    }
}

/// Boolean negation, resolving identifiers against the environment.
pub fn not(i: Parameters, _i2: Parameters, ram: Option<&Ram>) -> (r: Parameters)
    requires
        val_wf(i@),
        val_wf(_i2@),
        oram_wf(oram(ram)),
    ensures
        r@ == spec_not(i@, _i2@, oram(ram), EVAL_DEPTH as nat),
        val_wf(r@),
{
    not_fuel(i, _i2, ram, EVAL_DEPTH)
}

/// Mathematical model of `and`.
pub open spec fn spec_and(a: Val, b: Val, m: Option<Map<Seq<char>, Val>>, fuel: nat) -> Val
    decreases fuel, 9int, 0int,
{
    if fuel == 0 {
        Val::Identifier(depth_error())
    } else {
        match (a, b) {
            (Val::Bool(bb), Val::Bool(b2)) => Val::Bool(bb && b2),
            (Val::Bool(bb), Val::Null) => Val::Bool(bb),
            (Val::Null, Val::Bool(bb)) => Val::Bool(bb),
            (Val::Identifier(s), Val::Bool(bb)) => spec_apply_operator(
                Val::Identifier(s),
                Val::Bool(bb),
                m,
                fuel,
                BinOp::And,
            ),
            (Val::Bool(bb), Val::Identifier(s)) => spec_apply_operator_reverse(
                Val::Bool(bb),
                Val::Identifier(s),
                m,
                fuel,
                BinOp::And,
            ),
            (Val::Identifier(s), Val::Identifier(s2)) => spec_apply_operator(
                Val::Identifier(s),
                Val::Identifier(s2),
                m,
                fuel,
                BinOp::And,
            ),
            _ => Val::Bool(false),
        }
    }
}

/// Boolean conjunction with an explicit depth budget.
pub(crate) fn and_fuel(i: Parameters, i2: Parameters, ram: Option<&Ram>, fuel: u64) -> (r:
    Parameters)
    requires
        val_wf(i@),
        val_wf(i2@),
        oram_wf(oram(ram)),
    ensures
        r@ == spec_and(i@, i2@, oram(ram), fuel as nat),
        val_wf(r@),
    decreases fuel, 9int, 0int,
{
    if fuel == 0 {
        return depth_error_value();
    }
    match (i, i2) {
        (Parameters::Bool(bb), Parameters::Bool(b2)) => Parameters::Bool(bb && b2),
        (Parameters::Bool(bb), Parameters::Null) => Parameters::Bool(bb),
        (Parameters::Null, Parameters::Bool(bb)) => Parameters::Bool(bb),
        (Parameters::Identifier(s), Parameters::Bool(bb)) => apply_operator_fuel(
            Parameters::Identifier(s),
            Parameters::Bool(bb),
            ram,
            BinOp::And,
            fuel,
        ),
        (Parameters::Bool(bb), Parameters::Identifier(s)) => apply_operator_reverse_fuel(
            Parameters::Bool(bb),
            Parameters::Identifier(s),
            ram,
            BinOp::And,
            fuel,
        ),
        (Parameters::Identifier(s), Parameters::Identifier(s2)) => apply_operator_fuel(
            Parameters::Identifier(s),
            Parameters::Identifier(s2),
            ram,
            BinOp::And,
            fuel,
        ),
        _ => Parameters::Bool(false),
    }
}

/// Boolean conjunction, resolving identifiers against the environment.
pub fn and(i: Parameters, i2: Parameters, ram: Option<&Ram>) -> (r: Parameters)
    requires
        val_wf(i@),
        val_wf(i2@),
        oram_wf(oram(ram)),
    ensures
        r@ == spec_and(i@, i2@, oram(ram), EVAL_DEPTH as nat),
        val_wf(r@),
{
    and_fuel(i, i2, ram, EVAL_DEPTH)
}

/// Mathematical model of `or`.
pub open spec fn spec_or(a: Val, b: Val, m: Option<Map<Seq<char>, Val>>, fuel: nat) -> Val
    decreases fuel, 9int, 0int,
{
    if fuel == 0 {
        Val::Identifier(depth_error())
    } else {
        match (a, b) {
            (Val::Bool(bb), Val::Bool(b2)) => Val::Bool(bb || b2),
            (Val::Bool(bb), Val::Null) => Val::Bool(bb),
            (Val::Null, Val::Bool(bb)) => Val::Bool(bb),
            (Val::Identifier(s), Val::Bool(bb)) => spec_apply_operator(
                Val::Identifier(s),
                Val::Bool(bb),
                m,
                fuel,
                BinOp::Or,
            ),
            (Val::Bool(bb), Val::Identifier(s)) => spec_apply_operator_reverse(
                Val::Bool(bb),
                Val::Identifier(s),
                m,
                fuel,
                BinOp::Or,
            ),
            (Val::Identifier(s), Val::Identifier(s2)) => spec_apply_operator(
                Val::Identifier(s),
                Val::Identifier(s2),
                m,
                fuel,
                BinOp::Or,
            ),
            _ => Val::Bool(false),
        }
    }
}

/// Boolean disjunction with an explicit depth budget.
pub(crate) fn or_fuel(i: Parameters, i2: Parameters, ram: Option<&Ram>, fuel: u64) -> (r:
    Parameters)
    requires
        val_wf(i@),
        val_wf(i2@),
        oram_wf(oram(ram)),
    ensures
        r@ == spec_or(i@, i2@, oram(ram), fuel as nat),
        val_wf(r@),
    decreases fuel, 9int, 0int,
{
    if fuel == 0 {
        return depth_error_value();
    }
    match (i, i2) {
        (Parameters::Bool(bb), Parameters::Bool(b2)) => Parameters::Bool(bb || b2),
        (Parameters::Bool(bb), Parameters::Null) => Parameters::Bool(bb),
        (Parameters::Null, Parameters::Bool(bb)) => Parameters::Bool(bb),
        (Parameters::Identifier(s), Parameters::Bool(bb)) => apply_operator_fuel(
            Parameters::Identifier(s),
            Parameters::Bool(bb),
            ram,
            BinOp::Or,
            fuel,
        ),
        (Parameters::Bool(bb), Parameters::Identifier(s)) => apply_operator_reverse_fuel(
            Parameters::Bool(bb),
            Parameters::Identifier(s),
            ram,
            BinOp::Or,
            fuel,
        ),
        (Parameters::Identifier(s), Parameters::Identifier(s2)) => apply_operator_fuel(
            Parameters::Identifier(s),
            Parameters::Identifier(s2),
            ram,
            BinOp::Or,
            fuel,
        ),
        _ => Parameters::Bool(false),
    }
}

/// Boolean disjunction, resolving identifiers against the environment.
pub fn or(i: Parameters, i2: Parameters, ram: Option<&Ram>) -> (r: Parameters)
    requires
        val_wf(i@),
        val_wf(i2@),
        oram_wf(oram(ram)),
    ensures
        r@ == spec_or(i@, i2@, oram(ram), EVAL_DEPTH as nat),
        val_wf(r@),
{
    or_fuel(i, i2, ram, EVAL_DEPTH)
}

} // verus!
