//! The builtin dispatcher the interpreter hands function calls to: the exact
//! builtins (`fact`, `factorial`, `abs`) and user-defined functions, which
//! are evaluated in a fresh environment binding formals to arguments.
//! Unknown names come back as an `@`-tagged error value.

use vstd::prelude::*;

verus! {

broadcast use crate::value::group_value_views;

use crate::env::Functions;
use crate::env::Ram;
use crate::env::ram_vals_wf;
use crate::functions::function::depth_error;
use crate::functions::function::depth_error_value;
use crate::functions::function::oram;
use crate::functions::function::oram_wf;
use crate::interpreter::funs_wf;
use crate::interpreter::spec_interpret;
use crate::rational::rat_make;
use crate::value::AstV;
use crate::value::Parameters;
use crate::value::Val;
use crate::value::ast_views;
use crate::value::lemma_param_views;
use crate::value::param_views;
use crate::value::val_wf;
use crate::value::wrap_mul64;
use vstd::string::StringExecFns;

/// The running product of the factorial, folded with wrap-around.
pub open spec fn spec_fact_aux(n: int, acc: int) -> int
    decreases (if n > 0 {
        n
    } else {
        0
    }),
{
    if n <= 0 {
        acc
    } else {
        spec_fact_aux(n - 1, wrap_mul64(n, acc))
    }
}

/// The factorial of `n` over machine integers (1 for any `n` below one).
pub open spec fn spec_fact(n: int) -> int {
    spec_fact_aux(n, 1)
}

/// Factorial over machine integers; any argument below one gives the empty
/// product, 1.
pub fn fact(n: i64) -> (r: i64)
    ensures
        r as int == spec_fact(n as int),
{
    let mut i: i64 = n;
    let mut acc: i64 = 1;
    while i > 0
        invariant
            spec_fact_aux(n as int, 1) == spec_fact_aux(i as int, acc as int),
        decreases i,
    {
        acc = i.wrapping_mul(acc);
        i = i - 1;
    }
    acc
}

/// Message for a builtin applied to an unbound identifier.
pub open spec fn uninit_error() -> Seq<char> {
    "This variable is not initialized yet"@
}

/// Message for a call of a name nobody defined.
pub open spec fn unknown_fn_error() -> Seq<char> {
    "@This function is unknown"@
}

/// Mathematical model of the `factorial` builtin.
pub open spec fn spec_factorial(
    args: Seq<Val>,
    m: Option<Map<Seq<char>, Val>>,
    fuel: nat,
) -> Val
    decreases fuel, 0int, 0int,
{
    if args.len() < 1 {
        Val::Null
    } else {
        match args[0] {
            Val::Int(i) => Val::Int(spec_fact(i)),
            Val::Identifier(s) => match m {
                None => Val::Identifier(uninit_error()),
                Some(mm) => if mm.dom().contains(s) {
                    if fuel == 0 {
                        Val::Identifier(depth_error())
                    } else {
                        spec_factorial(seq![mm[s]], m, (fuel - 1) as nat)
                    }
                } else {
                    Val::Null
                },
            },
            _ => Val::Null,
        }
    }
}

/// Mathematical model of the `abs` builtin.
pub open spec fn spec_abs_builtin(
    args: Seq<Val>,
    m: Option<Map<Seq<char>, Val>>,
    fuel: nat,
) -> Val
    decreases fuel, 0int, 0int,
{
    if args.len() < 1 {
        Val::Null
    } else {
        match args[0] {
            Val::Int(i) => Val::Int(if i == i64::MIN {
                i
            } else if i < 0 {
                -i
            } else {
                i
            }),
            Val::Rational(s) => Val::Rational(rat_make(vstd::math::abs(s.n) as int, s.d)),
            Val::Identifier(ss) => match m {
                None => Val::Identifier(uninit_error()),
                Some(mm) => if mm.dom().contains(ss) {
                    if fuel == 0 {
                        Val::Identifier(depth_error())
                    } else {
                        spec_abs_builtin(seq![mm[ss]], m, (fuel - 1) as nat)
                    }
                } else {
                    Val::Null
                },
            },
            _ => Val::Null,
        }
    }
}

/// The formal parameter names of a recorded function: the identifiers among
/// its parameter nodes, from position `k` on.
pub open spec fn spec_param_names(lst: Seq<AstV>, k: int) -> Seq<Seq<char>>
    decreases (if lst.len() - k > 0 {
        lst.len() - k
    } else {
        0
    }),
{
    if k < 0 || k >= lst.len() {
        Seq::empty()
    } else {
        (match lst[k] {
            AstV::Node { value: Val::Identifier(s), left: _, right: _ } => seq![s],
            _ => Seq::empty(),
        }) + spec_param_names(lst, k + 1)
    }
}

/// The fresh environment of a call: formals bound to arguments, skipping an
/// argument that is the very identifier it would be bound to.
pub open spec fn spec_bind_args(
    names: Seq<Seq<char>>,
    args: Seq<Val>,
    k: int,
    acc: Map<Seq<char>, Val>,
) -> Map<Seq<char>, Val>
    decreases (if names.len() - k > 0 {
        names.len() - k
    } else {
        0
    }),
{
    if k < 0 || k >= names.len() || k >= args.len() {
        acc
    } else {
        let skip = args[k] is Identifier && args[k]->Identifier_0 == names[k];
        spec_bind_args(
            names,
            args,
            k + 1,
            if skip {
                acc
            } else {
                acc.insert(names[k], args[k])
            },
        )
    }
}

/// Mathematical model of the builtin/user-function dispatcher.
pub open spec fn spec_exec_fn(
    name: Seq<char>,
    args: Seq<Val>,
    m: Option<Map<Seq<char>, Val>>,
    funs: Option<Map<Seq<char>, (Seq<AstV>, AstV)>>,
    fuel: nat,
) -> Val
    decreases fuel, 0int, 1int,
{
    if name == "fact"@ || name == "factorial"@ {
        spec_factorial(args, m, fuel)
    } else if name == "abs"@ {
        spec_abs_builtin(args, m, fuel)
    } else {
        match funs {
            None => Val::Identifier(unknown_fn_error()),
            Some(f) => if !f.dom().contains(name) {
                Val::Identifier(unknown_fn_error())
            } else {
                let names = spec_param_names(f[name].0, 0);
                let sram = spec_bind_args(names, args, 0, Map::empty());
                if fuel == 0 {
                    Val::Identifier(depth_error())
                } else {
                    spec_interpret(f[name].1, sram, f, (fuel - 1) as nat).v
                }
            },
        }
    }
}

/// `factorial` with an explicit depth budget.
pub(crate) fn factorial_fuel(p: &Vec<Parameters>, ram: Option<&Ram>, fuel: u64) -> (r: Parameters)
    requires
        val_wf(Val::InterpreterVector(param_views(p@))),
        oram_wf(oram(ram)),
    ensures
        r@ == spec_factorial(param_views(p@), oram(ram), fuel as nat),
        val_wf(r@),
    decreases fuel, 0int, 0int,
{
    proof {
        lemma_param_views(p@);
        crate::value::lemma_vals_wf(param_views(p@));
    }
    if p.len() < 1 {
        return Parameters::Null;
    }
    proof {
        assert(param_views(p@)[0] == p@[0]@);
        assert(val_wf(param_views(p@)[0]));
    }
    match &p[0] {
        Parameters::Int(i) => Parameters::Int(fact(*i)),
        Parameters::Identifier(s) => match ram {
            None => Parameters::Identifier("This variable is not initialized yet".to_owned()),
            Some(t) => match t.get(s) {
                None => Parameters::Null,
                Some(v) => {
                    if fuel == 0 {
                        return depth_error_value();
                    }
                    let mut args: Vec<Parameters> = Vec::new();
                    args.push(v.clone());
                    proof {
                        lemma_param_views(args@);
                        crate::value::lemma_vals_wf(param_views(args@));
                        assert(param_views(args@) =~= seq![oram(ram)->Some_0[s@]]);
                        assert(val_wf(oram(ram)->Some_0[s@]));
                        assert forall|j: int| 0 <= j < param_views(args@).len() implies val_wf(
                            #[trigger] param_views(args@)[j],
                        ) by {
                            assert(param_views(args@)[j] == oram(ram)->Some_0[s@]);
                        }
                    }
                    factorial_fuel(&args, ram, fuel - 1)
                },
            },
        },
        _ => Parameters::Null,
    }
}

/// `abs` with an explicit depth budget.
pub(crate) fn abs_fuel(p: &Vec<Parameters>, ram: Option<&Ram>, fuel: u64) -> (r: Parameters)
    requires
        val_wf(Val::InterpreterVector(param_views(p@))),
        oram_wf(oram(ram)),
    ensures
        r@ == spec_abs_builtin(param_views(p@), oram(ram), fuel as nat),
        val_wf(r@),
    decreases fuel, 0int, 0int,
{
    proof {
        lemma_param_views(p@);
        crate::value::lemma_vals_wf(param_views(p@));
    }
    if p.len() < 1 {
        return Parameters::Null;
    }
    proof {
        assert(param_views(p@)[0] == p@[0]@);
        assert(val_wf(param_views(p@)[0]));
    }
    match &p[0] {
        Parameters::Int(i) => Parameters::Int(
            if *i == i64::MIN {
                *i
            } else if *i < 0 {
                -(*i)
            } else {
                *i
            },
        ),
        Parameters::Rational(s) => Parameters::Rational(s.abs()),
        Parameters::Identifier(ss) => match ram {
            None => Parameters::Identifier("This variable is not initialized yet".to_owned()),
            Some(t) => match t.get(ss) {
                None => Parameters::Null,
                Some(v) => {
                    if fuel == 0 {
                        return depth_error_value();
                    }
                    let mut args: Vec<Parameters> = Vec::new();
                    args.push(v.clone());
                    proof {
                        lemma_param_views(args@);
                        crate::value::lemma_vals_wf(param_views(args@));
                        assert(param_views(args@) =~= seq![oram(ram)->Some_0[ss@]]);
                        assert(val_wf(oram(ram)->Some_0[ss@]));
                        assert forall|j: int| 0 <= j < param_views(args@).len() implies val_wf(
                            #[trigger] param_views(args@)[j],
                        ) by {
                            assert(param_views(args@)[j] == oram(ram)->Some_0[ss@]);
                        }
                    }
                    abs_fuel(&args, ram, fuel - 1)
                },
            },
        },
        _ => Parameters::Null,
    }
}

/// `factorial` over the value domain, resolving identifiers.
pub fn factorial(p: &Vec<Parameters>, ram: Option<&Ram>) -> (r: Parameters)
    requires
        val_wf(Val::InterpreterVector(param_views(p@))),
        oram_wf(oram(ram)),
    ensures
        r@ == spec_factorial(
            param_views(p@),
            oram(ram),
            crate::functions::function::EVAL_DEPTH as nat,
        ),
        val_wf(r@),
{
    factorial_fuel(p, ram, crate::functions::function::EVAL_DEPTH)
}

/// `abs` over the value domain, resolving identifiers.
pub fn abs(p: &Vec<Parameters>, ram: Option<&Ram>) -> (r: Parameters)
    requires
        val_wf(Val::InterpreterVector(param_views(p@))),
        oram_wf(oram(ram)),
    ensures
        r@ == spec_abs_builtin(
            param_views(p@),
            oram(ram),
            crate::functions::function::EVAL_DEPTH as nat,
        ),
        val_wf(r@),
{
    abs_fuel(p, ram, crate::functions::function::EVAL_DEPTH)
}

/// Views of a run of strings.
pub open spec fn string_views(v: Seq<String>) -> Seq<Seq<char>> {
    Seq::new(v.len(), |i: int| v[i]@)
}

/// Collect the formal parameter names of a recorded function.
fn param_names(lst: &Vec<crate::value::Ast>) -> (r: Vec<String>)
    ensures
        string_views(r@) == spec_param_names(ast_views(lst@), 0),
{
    proof {
        crate::value::lemma_ast_views(lst@);
    }
    let mut names: Vec<String> = Vec::new();
    let n = lst.len();
    let mut k: usize = 0;
    while k < n
        invariant
            0 <= k <= n,
            n == lst@.len(),
            ast_views(lst@).len() == lst@.len(),
            forall|j: int| 0 <= j < lst@.len() ==> ast_views(lst@)[j] == (#[trigger] lst@[j])@,
            string_views(names@) + spec_param_names(ast_views(lst@), k as int) =~= spec_param_names(
                ast_views(lst@),
                0,
            ),
        decreases n - k,
    {
        let ghost pre = names@;
        match &lst[k] {
            crate::value::Ast::Node { value: Parameters::Identifier(s), left: _, right: _ } => {
                names.push(s.clone());
                proof {
                    assert(string_views(names@) =~= string_views(pre).push(s@));
                }
            },
            _ => {},
        }
        k = k + 1;
        proof {
            assert(string_views(names@) + spec_param_names(ast_views(lst@), k as int)
                =~= spec_param_names(ast_views(lst@), 0));
        }
    }
    proof {
        assert(string_views(names@) + spec_param_names(ast_views(lst@), n as int) =~= string_views(
            names@,
        ));
        assert(string_views(names@) =~= spec_param_names(ast_views(lst@), 0));
    }
    names
}

/// Build the fresh environment of a call.
fn bind_args(names: &Vec<String>, args: &Vec<Parameters>, sram: &mut Ram)
    requires
        old(sram)@ == Map::<Seq<char>, Val>::empty(),
    ensures
        final(sram)@ == spec_bind_args(
            string_views(names@),
            param_views(args@),
            0,
            Map::empty(),
        ),
{
    proof {
        lemma_param_views(args@);
    }
    let n = if names.len() <= args.len() {
        names.len()
    } else {
        args.len()
    };
    let mut k: usize = 0;
    while k < n
        invariant
            0 <= k <= n,
            n == (if names@.len() <= args@.len() {
                names@.len()
            } else {
                args@.len()
            }),
            param_views(args@).len() == args@.len(),
            string_views(names@).len() == names@.len(),
            forall|j: int| 0 <= j < args@.len() ==> param_views(args@)[j] == (#[trigger] args@[j])@,
            spec_bind_args(string_views(names@), param_views(args@), 0, Map::empty())
                == spec_bind_args(string_views(names@), param_views(args@), k as int, sram@),
        decreases n - k,
    {
        let skip = match &args[k] {
            Parameters::Identifier(s2) => *s2 == names[k],
            _ => false,
        };
        if !skip {
            sram.insert(names[k].clone(), args[k].clone());
        }
        k = k + 1;
    }
}

/// Dispatch a call: the exact builtins, then user-defined functions, which
/// run in a fresh environment; anything else is unknown.
pub fn exec(
    s: String,
    lst: Vec<Parameters>,
    ram: Option<&Ram>,
    functions: Option<&Functions>,
) -> (r: Parameters)
    requires
        val_wf(Val::InterpreterVector(param_views(lst@))),
        oram_wf(oram(ram)),
        match functions {
            None => true,
            Some(f) => funs_wf(f@),
        },
    ensures
        r@ == spec_exec_fn(
            s@,
            param_views(lst@),
            oram(ram),
            match functions {
                None => None,
                Some(f) => Some(f@),
            },
            crate::functions::function::EVAL_DEPTH as nat,
        ),
        val_wf(r@),
{
    exec_fuel(s, lst, ram, functions, crate::functions::function::EVAL_DEPTH)
}

/// The dispatcher with an explicit depth budget.
pub(crate) fn exec_fuel(
    s: String,
    lst: Vec<Parameters>,
    ram: Option<&Ram>,
    functions: Option<&Functions>,
    fuel: u64,
) -> (r: Parameters)
    requires
        val_wf(Val::InterpreterVector(param_views(lst@))),
        oram_wf(oram(ram)),
        match functions {
            None => true,
            Some(f) => funs_wf(f@),
        },
    ensures
        r@ == spec_exec_fn(
            s@,
            param_views(lst@),
            oram(ram),
            match functions {
                None => None,
                Some(f) => Some(f@),
            },
            fuel as nat,
        ),
        val_wf(r@),
    decreases fuel, 0int, 1int,
{
    if s == "fact".to_owned() || s == "factorial".to_owned() {
        return factorial_fuel(&lst, ram, fuel);
    }
    if s == "abs".to_owned() {
        return abs_fuel(&lst, ram, fuel);
    }
    match functions {
        None => Parameters::Identifier("@This function is unknown".to_owned()),
        Some(f) => {
            match f.get(&s) {
                None => Parameters::Identifier("@This function is unknown".to_owned()),
                Some(d) => {
                    let names = param_names(&d.args);
                    let mut sram = Ram::new();
                    bind_args(&names, &lst, &mut sram);
                    if fuel == 0 {
                        return depth_error_value();
                    }
                    proof {
                        lemma_param_views(lst@);
                        crate::value::lemma_vals_wf(param_views(lst@));
                        lemma_bind_args_wf(
                            string_views(names@),
                            param_views(lst@),
                            0,
                            Map::empty(),
                        );
                        crate::interpreter::lemma_funs_wf_lookup(f@, s@);
                    }
                    let body = d.body.clone();
                    let mut fcopy = clone_functions(f);
                    let res = crate::interpreter::interpret_fuel(
                        &body,
                        &mut sram,
                        &mut fcopy,
                        fuel - 1,
                    );
                    res
                },
            }
        },
    }
}

/// Binding well-formed arguments keeps the environment well-formed.
proof fn lemma_bind_args_wf(
    names: Seq<Seq<char>>,
    args: Seq<Val>,
    k: int,
    acc: Map<Seq<char>, Val>,
)
    requires
        ram_vals_wf(acc),
        forall|i: int| 0 <= i < args.len() ==> val_wf(#[trigger] args[i]),
    ensures
        ram_vals_wf(spec_bind_args(names, args, k, acc)),
    decreases (if names.len() - k > 0 {
        names.len() - k
    } else {
        0
    }),
{
    if !(k < 0 || k >= names.len() || k >= args.len()) {
        let skip = args[k] is Identifier && args[k]->Identifier_0 == names[k];
        if skip {
            lemma_bind_args_wf(names, args, k + 1, acc);
        } else {
            assert(ram_vals_wf(acc.insert(names[k], args[k])));
            lemma_bind_args_wf(names, args, k + 1, acc.insert(names[k], args[k]));
        }
    }
}

/// Copy a function table (the callee works on its own copy).
fn clone_functions(f: &Functions) -> (r: Functions)
    ensures
        r@ == f@,
        funs_wf(r@) == funs_wf(f@),
{
    f.duplicate()
}

/// Mathematical model of `Parameters::abs`: absolute value of a number,
/// resolution for identifiers, `Null` for everything else.
pub open spec fn spec_abs_value(v: Val, m: Option<Map<Seq<char>, Val>>, fuel: nat) -> Val
    decreases fuel, 0int, 0int,
{
    match v {
        Val::Int(i) => Val::Int(if i == i64::MIN {
            i
        } else if i < 0 {
            -i
        } else {
            i
        }),
        Val::Rational(r) => Val::Rational(rat_make(vstd::math::abs(r.n) as int, r.d)),
        Val::Identifier(s) => match m {
            None => Val::Null,
            Some(mm) => if mm.dom().contains(s) {
                if fuel == 0 {
                    Val::Identifier(depth_error())
                } else {
                    spec_abs_value(mm[s], m, (fuel - 1) as nat)
                }
            } else {
                Val::Null
            },
        },
        _ => Val::Null,
    }
}

/// `Parameters::abs` with an explicit depth budget.
fn abs_value_fuel(p: Parameters, ram: Option<&Ram>, fuel: u64) -> (r: Parameters)
    requires
        val_wf(p@),
        oram_wf(oram(ram)),
    ensures
        r@ == spec_abs_value(p@, oram(ram), fuel as nat),
        val_wf(r@),
    decreases fuel, 0int, 0int,
{
    match p {
        Parameters::Int(i) => Parameters::Int(
            if i == i64::MIN {
                i
            } else if i < 0 {
                -i
            } else {
                i
            },
        ),
        Parameters::Rational(s) => Parameters::Rational(s.abs()),
        Parameters::Identifier(s) => match ram {
            None => Parameters::Null,
            Some(t) => match t.get(&s) {
                None => Parameters::Null,
                Some(v) => {
                    if fuel == 0 {
                        return depth_error_value();
                    }
                    let bound = v.clone();
                    abs_value_fuel(bound, ram, fuel - 1)
                },
            },
        },
        _ => Parameters::Null,
    }
}

impl Parameters {
    /// Absolute value of a numeric value, resolving identifiers against the
    /// environment; anything non-numeric collapses to `Null`.
    pub fn abs(self, ram: Option<&Ram>) -> (r: Parameters)
        requires
            val_wf(self@),
            oram_wf(oram(ram)),
        ensures
            r@ == spec_abs_value(
                self@,
                oram(ram),
                crate::functions::function::EVAL_DEPTH as nat,
            ),
            val_wf(r@),
    {
        abs_value_fuel(self, ram, crate::functions::function::EVAL_DEPTH)
    }
}

} // verus!
