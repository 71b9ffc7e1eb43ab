//! The tree-walking interpreter: post-order evaluation of binary nodes,
//! literal conversion at the leaves (decimal literals become exact
//! fractions), identifier lookup, assignment (insert-or-replace for
//! variables, one-shot definition for functions) and function-call dispatch.

use vstd::prelude::*;

verus! {

broadcast use crate::value::group_value_views;

use crate::env::Functions;
use crate::env::Ram;
use crate::env::ram_vals_wf;
use crate::functions::function::EVAL_DEPTH;
use crate::functions::add::spec_add;
use crate::functions::function::spec_and;
use crate::functions::function::spec_equal;
use crate::functions::function::spec_greater;
use crate::functions::function::spec_greater_or_equal;
use crate::functions::function::spec_lesser;
use crate::functions::function::spec_lesser_or_equal;
use crate::functions::function::spec_not;
use crate::functions::function::spec_or;
use crate::functions::divide::spec_divide;
use crate::functions::expo::spec_expo;
use crate::functions::minus::spec_minus;
use crate::functions::mult::spec_mult;
use crate::rational::Rat;
use crate::rational::Rationals;
use crate::rational::rat_make;
use crate::rational::rat_wf;
use crate::stdlib::spec_exec_fn;
use crate::value::Ast;
use crate::value::AstV;
use crate::value::Parameters;
use crate::value::Val;
use crate::value::ast_views;
use crate::value::ast_wf;
use crate::value::asts_size;
use crate::value::asts_wf;
use crate::value::astv_size;
use crate::value::lemma_ast_views;
use crate::value::lemma_asts_size_split;
use crate::value::lemma_asts_wf;
use crate::value::lemma_param_views;
use crate::value::lemma_vals_wf;
use crate::value::param_views;
use crate::value::val_wf;
use vstd::string::StringExecFns;
use vstd::string::StrSliceExecFns;

/// What one evaluation step leaves behind: the value, and the two
/// environments as the step left them.
pub ghost struct InterpOut {
    pub v: Val,
    pub ram: Map<Seq<char>, Val>,
    pub funs: Map<Seq<char>, (Seq<AstV>, AstV)>,
}

/// What evaluating a list of nodes leaves behind.
pub ghost struct ListOut {
    pub vs: Seq<Val>,
    pub ram: Map<Seq<char>, Val>,
    pub funs: Map<Seq<char>, (Seq<AstV>, AstV)>,
}

/// Every recorded function has well-formed parameters and body.
pub open spec fn funs_wf(f: Map<Seq<char>, (Seq<AstV>, AstV)>) -> bool {
    forall|k: Seq<char>| f.dom().contains(k) ==> asts_wf((#[trigger] f[k]).0) && ast_wf(f[k].1)
}

/// A recorded function's parts are well-formed.
pub proof fn lemma_funs_wf_lookup(f: Map<Seq<char>, (Seq<AstV>, AstV)>, k: Seq<char>)
    requires
        funs_wf(f),
        f.dom().contains(k),
    ensures
        asts_wf(f[k].0),
        ast_wf(f[k].1),
{
}

/// Powers of ten, for decimal fractions.
pub open spec fn pow10(k: int) -> int
    decreases (if k > 0 {
        k
    } else {
        0
    }),
{
    if k <= 0 {
        1
    } else {
        10 * pow10(k - 1)
    }
}

/// Powers of ten up to nine digits stay within an `i64`.
pub proof fn lemma_pow10_small(k: int)
    ensures
        1 <= pow10(k),
        k <= 9 ==> pow10(k) <= 1000000000,
{
    reveal_with_fuel(pow10, 11);
    if k <= 0 {
    } else if k == 1 {
    } else if k == 2 {
    } else if k == 3 {
    } else if k == 4 {
    } else if k == 5 {
    } else if k == 6 {
    } else if k == 7 {
    } else if k == 8 {
    } else if k == 9 {
    } else {
        lemma_pow10_pos(k);
    }
}

/// Powers of ten are positive.
proof fn lemma_pow10_pos(k: int)
    ensures
        1 <= pow10(k),
    decreases (if k > 0 {
        k
    } else {
        0
    }),
{
    if k > 0 {
        lemma_pow10_pos(k - 1);
        assert(pow10(k) == 10 * pow10(k - 1));
        assert(10 * pow10(k - 1) >= 10 * 1) by (nonlinear_arith)
            requires
                pow10(k - 1) >= 1,
        ;
    }
}

/// The digit a character denotes, zero for anything else.
pub open spec fn digit_of(c: char) -> int {
    if 48 <= (c as u32) && (c as u32) <= 57 {
        (c as u32) - 48
    } else {
        0
    }
}

/// Value of the first `k` fraction digits read as an integer.
pub open spec fn digits_val(f: Seq<char>, k: int) -> int
    decreases (if k > 0 {
        k
    } else {
        0
    }),
{
    if k <= 0 {
        0
    } else {
        digits_val(f, k - 1) * 10 + digit_of(f[k - 1])
    }
}

/// The exact fraction a decimal literal denotes, keeping at most nine
/// fraction digits (a bounded-denominator approximation).
pub open spec fn spec_dec_rat(w: int, f: Seq<char>) -> Rat {
    let k = if f.len() <= 9 {
        f.len() as int
    } else {
        9
    };
    rat_make(w * pow10(k) + digits_val(f, k), pow10(k))
}

/// Mathematical model of the interpreter.
pub open spec fn spec_interpret(
    ast: AstV,
    ram: Map<Seq<char>, Val>,
    funs: Map<Seq<char>, (Seq<AstV>, AstV)>,
    fuel: nat,
) -> InterpOut
    decreases fuel, astv_size(ast) as int, 2int,
{
    match ast {
        AstV::Nil => InterpOut { v: Val::Null, ram, funs },
        AstV::Node { value, left, right } => {
            let o1 = spec_interpret(*left, ram, funs, fuel);
            let o2 = spec_interpret(*right, o1.ram, o1.funs, fuel);
            let m = Some(o2.ram);
            match value {
                Val::PlusOperation => InterpOut {
                    v: spec_add(o1.v, o2.v, m, EVAL_DEPTH as nat),
                    ram: o2.ram,
                    funs: o2.funs,
                },
                Val::MinusOperation => InterpOut {
                    v: spec_minus(o1.v, o2.v, m, EVAL_DEPTH as nat),
                    ram: o2.ram,
                    funs: o2.funs,
                },
                Val::MultiplicationOperation => InterpOut {
                    v: spec_mult(o1.v, o2.v, m, EVAL_DEPTH as nat),
                    ram: o2.ram,
                    funs: o2.funs,
                },
                Val::DivideOperation => InterpOut {
                    v: spec_divide(o1.v, o2.v, m, EVAL_DEPTH as nat),
                    ram: o2.ram,
                    funs: o2.funs,
                },
                Val::ExpoOperation => InterpOut {
                    v: spec_expo(o1.v, o2.v, m, EVAL_DEPTH as nat),
                    ram: o2.ram,
                    funs: o2.funs,
                },
                Val::Equal => InterpOut {
                    v: spec_equal(o1.v, o2.v, m, EVAL_DEPTH as nat),
                    ram: o2.ram,
                    funs: o2.funs,
                },
                Val::Not => InterpOut {
                    v: spec_not(o1.v, o2.v, m, EVAL_DEPTH as nat),
                    ram: o2.ram,
                    funs: o2.funs,
                },
                Val::GreaterOperation => InterpOut {
                    v: spec_greater(o1.v, o2.v, m, EVAL_DEPTH as nat),
                    ram: o2.ram,
                    funs: o2.funs,
                },
                Val::GreaterOrEqualOperation => InterpOut {
                    v: spec_greater_or_equal(o1.v, o2.v, m, EVAL_DEPTH as nat),
                    ram: o2.ram,
                    funs: o2.funs,
                },
                Val::LesserOperation => InterpOut {
                    v: spec_lesser(o1.v, o2.v, m, EVAL_DEPTH as nat),
                    ram: o2.ram,
                    funs: o2.funs,
                },
                Val::LesserOrEqualOperation => InterpOut {
                    v: spec_lesser_or_equal(o1.v, o2.v, m, EVAL_DEPTH as nat),
                    ram: o2.ram,
                    funs: o2.funs,
                },
                Val::AndOperation => InterpOut {
                    v: spec_and(o1.v, o2.v, m, EVAL_DEPTH as nat),
                    ram: o2.ram,
                    funs: o2.funs,
                },
                Val::OrOperation => InterpOut {
                    v: spec_or(o1.v, o2.v, m, EVAL_DEPTH as nat),
                    ram: o2.ram,
                    funs: o2.funs,
                },
                Val::Rational(s) => InterpOut { v: Val::Rational(s), ram: o2.ram, funs: o2.funs },
                Val::Str(s) => InterpOut { v: Val::Str(s), ram: o2.ram, funs: o2.funs },
                Val::Assign => match *left {
                    AstV::Call { name, lst } => if o2.funs.dom().contains(name) {
                        InterpOut { v: Val::Null, ram: o2.ram, funs: o2.funs }
                    } else if name.len() > 0 {
                        InterpOut {
                            v: Val::Null,
                            ram: o2.ram,
                            funs: o2.funs.insert(name, (lst, *right)),
                        }
                    } else {
                        InterpOut { v: Val::Null, ram: o2.ram, funs: o2.funs }
                    },
                    _ => {
                        let p1 = match *left {
                            AstV::Node { value: lv, left: ll, right: lr } => if lv is Identifier
                                && *ll is Nil && *lr is Nil {
                                lv
                            } else {
                                Val::Null
                            },
                            _ => Val::Null,
                        };
                        if p1 is Identifier && p1->Identifier_0.len() > 0 {
                            InterpOut {
                                v: Val::Null,
                                ram: o2.ram.remove(p1->Identifier_0).insert(
                                    p1->Identifier_0,
                                    o2.v,
                                ),
                                funs: o2.funs,
                            }
                        } else {
                            InterpOut { v: Val::Null, ram: o2.ram, funs: o2.funs }
                        }
                    },
                },
                Val::Decimal(w, f) => InterpOut {
                    v: Val::Rational(spec_dec_rat(w, f)),
                    ram: o2.ram,
                    funs: o2.funs,
                },
                Val::Int(i) => InterpOut { v: Val::Int(i), ram: o2.ram, funs: o2.funs },
                Val::Identifier(s) => InterpOut {
                    v: if o2.ram.dom().contains(s) {
                        o2.ram[s]
                    } else {
                        Val::Identifier(s)
                    },
                    ram: o2.ram,
                    funs: o2.funs,
                },
                Val::Bool(b) => InterpOut { v: Val::Bool(b), ram: o2.ram, funs: o2.funs },
                Val::Null => InterpOut { v: Val::Null, ram: o2.ram, funs: o2.funs },
                Val::Vector(a) => {
                    proof {
                        assert(astv_size(ast) == 1 + crate::value::val_ast_size(value) + astv_size(
                            *left,
                        ) + astv_size(*right));
                        assert(crate::value::val_ast_size(value) == 1 + asts_size(a));
                        assert(a.subrange(0, a.len() as int) =~= a);
                    }
                    let lo = spec_interp_list(a, 0, o2.ram, o2.funs, fuel);
                    InterpOut { v: Val::InterpreterVector(lo.vs), ram: lo.ram, funs: lo.funs }
                },
                Val::InterpreterVector(a) => InterpOut {
                    v: Val::InterpreterVector(a),
                    ram: o2.ram,
                    funs: o2.funs,
                },
                Val::Var(x, y, z) => InterpOut {
                    v: Val::Var(x, y, z),
                    ram: o2.ram,
                    funs: o2.funs,
                },
                Val::Plus(x, y) => InterpOut {
                    v: spec_add(*x, *y, m, EVAL_DEPTH as nat),
                    ram: o2.ram,
                    funs: o2.funs,
                },
                Val::Mul(x, y) => InterpOut {
                    v: spec_mult(*x, *y, m, EVAL_DEPTH as nat),
                    ram: o2.ram,
                    funs: o2.funs,
                },
                Val::Div(x, y) => InterpOut {
                    v: spec_divide(*x, *y, m, EVAL_DEPTH as nat),
                    ram: o2.ram,
                    funs: o2.funs,
                },
                Val::Call(x, y) => InterpOut {
                    v: spec_exec_fn(x, seq![*y], Some(o2.ram), Some(o2.funs), fuel),
                    ram: o2.ram,
                    funs: o2.funs,
                },
                _ => InterpOut { v: Val::Null, ram: o2.ram, funs: o2.funs },
            }
        },
        AstV::Call { name, lst } => {
            proof {
                assert(astv_size(ast) == 1 + asts_size(lst));
                assert(lst.subrange(0, lst.len() as int) =~= lst);
            }
            let lo = spec_interp_list(lst, 0, ram, funs, fuel);
            InterpOut {
                v: spec_exec_fn(name, lo.vs, Some(lo.ram), Some(lo.funs), fuel),
                ram: lo.ram,
                funs: lo.funs,
            }
        },
    }
}

/// Evaluate a run of nodes from position `k` on, threading the
/// environments left to right.
pub open spec fn spec_interp_list(
    lst: Seq<AstV>,
    k: int,
    ram: Map<Seq<char>, Val>,
    funs: Map<Seq<char>, (Seq<AstV>, AstV)>,
    fuel: nat,
) -> ListOut
    decreases fuel, (if 0 <= k <= lst.len() {
        asts_size(lst.subrange(k, lst.len() as int)) as int
    } else {
        0
    }), 3int,
{
    if k < 0 || k >= lst.len() {
        ListOut { vs: Seq::empty(), ram, funs }
    } else {
        proof {
            lemma_asts_size_split(lst.subrange(k, lst.len() as int));
            assert(lst.subrange(k, lst.len() as int)[0] == lst[k]);
            assert(lst.subrange(k, lst.len() as int).subrange(
                1,
                lst.subrange(k, lst.len() as int).len() as int,
            ) =~= lst.subrange(k + 1, lst.len() as int));
        }
        let o = spec_interpret(lst[k], ram, funs, fuel);
        let rest = spec_interp_list(lst, k + 1, o.ram, o.funs, fuel);
        ListOut { vs: seq![o.v] + rest.vs, ram: rest.ram, funs: rest.funs }
    }
}

/// Evaluate a run of nodes with an explicit depth budget.
pub(crate) fn interp_list_fuel(
    lst: &Vec<Ast>,
    k: usize,
    ram: &mut Ram,
    function: &mut Functions,
    fuel: u64,
) -> (r: Vec<Parameters>)
    requires
        asts_wf(ast_views(lst@)),
        ram_vals_wf(old(ram)@),
        funs_wf(old(function)@),
    ensures
        ({
            let o = spec_interp_list(ast_views(lst@), k as int, old(ram)@, old(function)@,
                fuel as nat);
            param_views(r@) == o.vs && final(ram)@ == o.ram && final(function)@ == o.funs
        }),
        val_wf(Val::InterpreterVector(param_views(r@))),
        ram_vals_wf(final(ram)@),
        funs_wf(final(function)@),
    decreases fuel, (if k as int <= lst@.len() {
        asts_size(ast_views(lst@).subrange(k as int, ast_views(lst@).len() as int)) as int
    } else {
        0
    }), 3int,
{
    proof {
        lemma_ast_views(lst@);
        lemma_asts_wf(ast_views(lst@));
    }
    if k >= lst.len() {
        let res: Vec<Parameters> = Vec::new();
        proof {
            lemma_param_views(res@);
            lemma_vals_wf(param_views(res@));
            assert(param_views(res@) =~= Seq::<Val>::empty());
        }
        return res;
    }
    proof {
        lemma_asts_size_split(ast_views(lst@).subrange(k as int, ast_views(lst@).len() as int));
        assert(ast_views(lst@).subrange(k as int, ast_views(lst@).len() as int)[0] == ast_views(
            lst@,
        )[k as int]);
        assert(ast_views(lst@)[k as int] == lst@[k as int]@);
        assert(ast_views(lst@).subrange(k as int, ast_views(lst@).len() as int).subrange(
            1,
            ast_views(lst@).subrange(k as int, ast_views(lst@).len() as int).len() as int,
        ) =~= ast_views(lst@).subrange(k as int + 1, ast_views(lst@).len() as int));
    }
    let v0 = interpret_fuel(&lst[k], ram, function, fuel);
    let rest = interp_list_fuel(lst, k + 1, ram, function, fuel);
    let mut res: Vec<Parameters> = Vec::new();
    res.push(v0);
    let n = rest.len();
    let mut i: usize = 0;
    while i < n
        invariant
            0 <= i <= n,
            n == rest@.len(),
            res@.len() == i as int + 1,
            forall|j: int| 1 <= j < res@.len() ==> (#[trigger] res@[j])@ == rest@[j - 1]@,
            res@[0]@ == v0@,
        decreases n - i,
    {
        let e = rest[i].clone();
        res.push(e);
        i = i + 1;
    }
    proof {
        lemma_param_views(res@);
        lemma_param_views(rest@);
        lemma_vals_wf(param_views(res@));
        lemma_vals_wf(param_views(rest@));
        assert forall|j: int| 0 <= j < res@.len() implies param_views(res@)[j] == (seq![v0@]
            + param_views(rest@))[j] by {
            if j > 0 {
                assert(res@[j]@ == rest@[j - 1]@);
            }
        }
        assert(param_views(res@) =~= seq![v0@] + param_views(rest@));
    }
    res
}

/// One clone of a value (the engine's contracts only see views).
fn dup(p: &Parameters) -> (r: Parameters)
    ensures
        r@ == p@,
{
    p.clone()
}

/// Turn a decimal literal into the exact fraction it denotes.
fn dec_to_rat(w: i64, frac: &String) -> (r: Rationals)
    ensures
        r@ == spec_dec_rat(w as int, frac@),
        rat_wf(r@),
{
    let fs = frac.as_str();
    let flen = fs.unicode_len();
    let k: usize = if flen <= 9 {
        flen
    } else {
        9
    };
    let mut den: i64 = 1;
    let mut dv: i64 = 0;
    let mut i: usize = 0;
    while i < k
        invariant
            0 <= i <= k,
            k <= 9,
            k <= frac@.len(),
            fs@ == frac@,
            den as int == pow10(i as int),
            dv as int == digits_val(frac@, i as int),
            1 <= den,
            den <= 1000000000,
            0 <= dv < den,
        decreases k - i,
    {
        proof {
            lemma_pow10_small(i as int);
            lemma_pow10_small(i as int + 1);
        }
        let c = fs.get_char(i);
        let u = c as u32;
        let d: i64 = if 48 <= u && u <= 57 {
            (u - 48) as i64
        } else {
            0
        };
        proof {
            assert(frac@[i as int] == c);
            assert(digit_of(frac@[i as int]) == d as int);
        }
        den = den * 10;
        dv = dv * 10 + d;
        i = i + 1;
    }
    proof {
        assert(-0x40000000000000000000000000000000 < (w as int) * (den as int)
            < 0x40000000000000000000000000000000 && -0x80000000000000000000000000000000 < (
        w as int) * (den as int) + (dv as int) < 0x80000000000000000000000000000000)
            by (nonlinear_arith)
            requires
                -0x8000000000000000 <= (w as int) <= 0x7fffffffffffffff,
                1 <= (den as int) <= 1000000000,
                0 <= (dv as int) < (den as int),
        ;
    }
    let n: i128 = (w as i128) * (den as i128) + (dv as i128);
    crate::rational::rat_from_parts(n, den as i128)
}

/// Evaluate one node with an explicit depth budget.
#[verifier::rlimit(100)]
pub(crate) fn interpret_fuel(
    ast: &Ast,
    ram: &mut Ram,
    function: &mut Functions,
    fuel: u64,
) -> (r: Parameters)
    requires
        ast_wf(ast@),
        ram_vals_wf(old(ram)@),
        funs_wf(old(function)@),
    ensures
        ({
            let o = spec_interpret(ast@, old(ram)@, old(function)@, fuel as nat);
            r@ == o.v && final(ram)@ == o.ram && final(function)@ == o.funs
        }),
        val_wf(r@),
        ram_vals_wf(final(ram)@),
        funs_wf(final(function)@),
    decreases fuel, astv_size(ast@) as int, 2int,
{
    match ast {
        Ast::Nil => Parameters::Null,
        Ast::Node { value, left, right } => {
            let param1 = interpret_fuel(left, ram, function, fuel);
            let param2 = interpret_fuel(right, ram, function, fuel);
            match value {
                Parameters::PlusOperation => crate::functions::add::add(
                    param1,
                    param2,
                    Some(&*ram),
                ),
                Parameters::MinusOperation => crate::functions::minus::minus(
                    param1,
                    param2,
                    Some(&*ram),
                ),
                Parameters::MultiplicationOperation => crate::functions::mult::mult(
                    param1,
                    param2,
                    Some(&*ram),
                ),
                Parameters::DivideOperation => crate::functions::divide::divide(
                    param1,
                    param2,
                    Some(&*ram),
                ),
                Parameters::ExpoOperation => crate::functions::expo::expo(
                    param1,
                    param2,
                    Some(&*ram),
                ),
                Parameters::Equal => crate::functions::function::equal(
                    param1,
                    param2,
                    Some(&*ram),
                ),
                Parameters::Not => crate::functions::function::not(param1, param2, Some(&*ram)),
                Parameters::GreaterOperation => crate::functions::function::greater(
                    param1,
                    param2,
                    Some(&*ram),
                ),
                Parameters::GreaterOrEqualOperation => crate::functions::function::greater_or_equal(
                    param1,
                    param2,
                    Some(&*ram),
                ),
                Parameters::LesserOperation => crate::functions::function::lesser(
                    param1,
                    param2,
                    Some(&*ram),
                ),
                Parameters::LesserOrEqualOperation => crate::functions::function::lesser_or_equal(
                    param1,
                    param2,
                    Some(&*ram),
                ),
                Parameters::AndOperation => crate::functions::function::and(
                    param1,
                    param2,
                    Some(&*ram),
                ),
                Parameters::OrOperation => crate::functions::function::or(
                    param1,
                    param2,
                    Some(&*ram),
                ),
                Parameters::Rational(s) => Parameters::Rational(*s),
                Parameters::Str(s) => Parameters::Str(s.clone()),
                Parameters::Assign => {
                    match &**left {
                        Ast::Call { name: n, lst: list } => {
                            if function.contains_key(n) {
                                Parameters::Null
                            } else {
                                if !n.as_str().is_empty() {
                                    let args = crate::env::clone_ast_run(list);
                                    let body = (**right).clone();
                                    proof {
                                        lemma_ast_views(list@);
                                        lemma_asts_wf(ast_views(list@));
                                    }
                                    function.insert(
                                        n.clone(),
                                        crate::env::FunDef { args, body },
                                    );
                                }
                                Parameters::Null
                            }
                        },
                        _ => {
                            let p1 = match &**left {
                                Ast::Node { value: lv, left: ll, right: lr } => {
                                    let leaf = match (&**ll, &**lr) {
                                        (Ast::Nil, Ast::Nil) => true,
                                        _ => false,
                                    };
                                    let is_ident = match lv {
                                        Parameters::Identifier(_) => true,
                                        _ => false,
                                    };
                                    if is_ident && leaf {
                                        dup(lv)
                                    } else {
                                        Parameters::Null
                                    }
                                },
                                _ => Parameters::Null,
                            };
                            let ab = crate::functions::function::assign(p1, param2);
                            let a = ab.0;
                            let b = ab.1;
                            if !a.as_str().is_empty() {
                                ram.remove(&a);
                                ram.insert(a, b);
                                Parameters::Null
                            } else {
                                Parameters::Null
                            }
                        },
                    }
                },
                Parameters::Decimal(w, f) => Parameters::Rational(dec_to_rat(*w, f)),
                Parameters::Int(i) => Parameters::Int(*i),
                Parameters::Identifier(s) => {
                    match ram.get(s) {
                        Some(t) => t.clone(),
                        None => Parameters::Identifier(s.clone()),
                    }
                },
                Parameters::Bool(b) => Parameters::Bool(*b),
                Parameters::Null => Parameters::Null,
                Parameters::Vector(a) => {
                    proof {
                        lemma_ast_views((**a)@);
                        assert(astv_size(ast@) == 1 + crate::value::val_ast_size(value@)
                            + astv_size((**left)@) + astv_size((**right)@));
                        assert(crate::value::val_ast_size(value@) == 1 + asts_size(
                            ast_views((**a)@),
                        ));
                        assert(ast_views((**a)@).subrange(0, ast_views((**a)@).len() as int)
                            =~= ast_views((**a)@));
                    }
                    let vec = interp_list_fuel(&**a, 0, ram, function, fuel);
                    Parameters::InterpreterVector(Box::new(vec))
                },
                Parameters::InterpreterVector(a) => {
                    let copy = dup(value);
                    copy
                },
                Parameters::Var(x, y, z) => dup(value),
                Parameters::Plus(x, y) => crate::functions::add::add(
                    (**x).clone(),
                    (**y).clone(),
                    Some(&*ram),
                ),
                Parameters::Mul(x, y) => crate::functions::mult::mult(
                    (**x).clone(),
                    (**y).clone(),
                    Some(&*ram),
                ),
                Parameters::Div(x, y) => crate::functions::divide::divide(
                    (**x).clone(),
                    (**y).clone(),
                    Some(&*ram),
                ),
                Parameters::Call(x, y) => {
                    let mut args: Vec<Parameters> = Vec::new();
                    args.push((**y).clone());
                    proof {
                        lemma_param_views(args@);
                        lemma_vals_wf(param_views(args@));
                        assert(param_views(args@) =~= seq![(**y)@]);
                    }
                    crate::stdlib::exec_fuel(
                        x.clone(),
                        args,
                        Some(&*ram),
                        Some(&*function),
                        fuel,
                    )
                },
            }
        },
        Ast::Call { name: n, lst: list } => {
            proof {
                lemma_ast_views(list@);
                assert(astv_size(ast@) == 1 + asts_size(ast_views(list@)));
                assert(ast_views(list@).subrange(0, ast_views(list@).len() as int) =~= ast_views(
                    list@,
                ));
            }
            let v = interp_list_fuel(list, 0, ram, function, fuel);
            crate::stdlib::exec_fuel(n.clone(), v, Some(&*ram), Some(&*function), fuel)
        },
    }
}

/// Evaluate a node: the single entry point of the interpreter.
pub fn interpret(ast: &Ast, ram: &mut Ram, function: &mut Functions) -> (r: Parameters)
    requires
        ast_wf(ast@),
        ram_vals_wf(old(ram)@),
        funs_wf(old(function)@),
    ensures
        ({
            let o = spec_interpret(ast@, old(ram)@, old(function)@, EVAL_DEPTH as nat);
            r@ == o.v && final(ram)@ == o.ram && final(function)@ == o.funs
        }),
        val_wf(r@),
        ram_vals_wf(final(ram)@),
        funs_wf(final(function)@),
{
    interpret_fuel(ast, ram, function, EVAL_DEPTH)
}

} // verus!
