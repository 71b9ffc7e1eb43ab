//! The runtime value / expression-node union of the calculator, together
//! with its mathematical shadow (`Val`, `AstV`) used by every contract.
//!
//! A parsed decimal literal is carried exactly as written (`Decimal`: whole
//! part plus fraction digits) and is turned into an exact fraction when a
//! leaf is evaluated, so no precision is lost between the lexer and the
//! interpreter.

use vstd::prelude::*;

verus! {

broadcast use vstd::seq::group_seq_axioms, vstd::std_specs::vec::group_vec_axioms;

use crate::rational::Rat;
use crate::rational::Rationals;
use crate::rational::rat_wf;

/// A runtime value or expression node.  `Plus`, `Mul` and `Div` are strictly
/// binary symbolic nodes; `Var` is a single monomial
/// `coefficient * name ^ exponent`.
#[derive(Debug, PartialEq)]
pub enum Parameters {
    Int(i64),
    Decimal(i64, String),
    Bool(bool),
    Str(String),
    Identifier(String),
    Rational(Rationals),
    PlusOperation,
    MinusOperation,
    MultiplicationOperation,
    DivideOperation,
    LesserOrEqualOperation,
    LesserOperation,
    GreaterOrEqualOperation,
    GreaterOperation,
    OrOperation,
    AndOperation,
    Equal,
    Not,
    Assign,
    Null,
    ExpoOperation,
    Vector(Box<Vec<Ast>>),
    InterpreterVector(Box<Vec<Parameters>>),
    Var(Box<Parameters>, i64, String),
    Plus(Box<Parameters>, Box<Parameters>),
    Mul(Box<Parameters>, Box<Parameters>),
    Div(Box<Parameters>, Box<Parameters>),
    Call(String, Box<Parameters>),
}

/// A node of the parsed expression tree: empty, a binary node carrying a
/// `Parameters` tag, or a function call with an argument list.
#[derive(Debug, PartialEq)]
pub enum Ast {
    Nil,
    Node { value: Parameters, left: Box<Ast>, right: Box<Ast> },
    Call { name: String, lst: Vec<Ast> },
}

/// Mathematical shadow of `Parameters`.
pub ghost enum Val {
    Int(int),
    Decimal(int, Seq<char>),
    Bool(bool),
    Str(Seq<char>),
    Identifier(Seq<char>),
    Rational(Rat),
    PlusOperation,
    MinusOperation,
    MultiplicationOperation,
    DivideOperation,
    LesserOrEqualOperation,
    LesserOperation,
    GreaterOrEqualOperation,
    GreaterOperation,
    OrOperation,
    AndOperation,
    Equal,
    Not,
    Assign,
    Null,
    ExpoOperation,
    Vector(Seq<AstV>),
    InterpreterVector(Seq<Val>),
    Var(Box<Val>, int, Seq<char>),
    Plus(Box<Val>, Box<Val>),
    Mul(Box<Val>, Box<Val>),
    Div(Box<Val>, Box<Val>),
    Call(Seq<char>, Box<Val>),
}

/// Mathematical shadow of `Ast`.
pub ghost enum AstV {
    Nil,
    Node { value: Val, left: Box<AstV>, right: Box<AstV> },
    Call { name: Seq<char>, lst: Seq<AstV> },
}

/// Elementwise mathematical view of a list of expression trees.
pub open spec fn ast_views(v: Seq<Ast>) -> Seq<AstV>
    decreases v,
{
    if v.len() == 0 {
        Seq::empty()
    } else {
        proof {
            assert(decreases_to!(v => v.subrange(0, v.len() - 1)));
            assert(decreases_to!(v => v[v.len() - 1]));
        }
        ast_views(v.drop_last()).push(v.last()@)
    }
}

/// Elementwise mathematical view of a list of values.
pub open spec fn param_views(v: Seq<Parameters>) -> Seq<Val>
    decreases v,
{
    if v.len() == 0 {
        Seq::empty()
    } else {
        proof {
            assert(decreases_to!(v => v.subrange(0, v.len() - 1)));
            assert(decreases_to!(v => v[v.len() - 1]));
        }
        param_views(v.drop_last()).push(v.last()@)
    }
}

impl View for Parameters {
    type V = Val;

    open spec fn view(&self) -> Val
        decreases self,
    {
        match self {
            Parameters::Int(i) => Val::Int(*i as int),
            Parameters::Decimal(w, f) => Val::Decimal(*w as int, f@),
            Parameters::Bool(b) => Val::Bool(*b),
            Parameters::Str(s) => Val::Str(s@),
            Parameters::Identifier(s) => Val::Identifier(s@),
            Parameters::Rational(r) => Val::Rational(r@),
            Parameters::PlusOperation => Val::PlusOperation,
            Parameters::MinusOperation => Val::MinusOperation,
            Parameters::MultiplicationOperation => Val::MultiplicationOperation,
            Parameters::DivideOperation => Val::DivideOperation,
            Parameters::LesserOrEqualOperation => Val::LesserOrEqualOperation,
            Parameters::LesserOperation => Val::LesserOperation,
            Parameters::GreaterOrEqualOperation => Val::GreaterOrEqualOperation,
            Parameters::GreaterOperation => Val::GreaterOperation,
            Parameters::OrOperation => Val::OrOperation,
            Parameters::AndOperation => Val::AndOperation,
            Parameters::Equal => Val::Equal,
            Parameters::Not => Val::Not,
            Parameters::Assign => Val::Assign,
            Parameters::Null => Val::Null,
            Parameters::ExpoOperation => Val::ExpoOperation,
            Parameters::Vector(v) => {
                proof {
                    assert(decreases_to!(**v => (**v)@));
                }
                Val::Vector(ast_views((**v)@))
            },
            Parameters::InterpreterVector(v) => {
                proof {
                    assert(decreases_to!(**v => (**v)@));
                }
                Val::InterpreterVector(param_views((**v)@))
            },
            Parameters::Var(c, e, n) => Val::Var(Box::new((**c)@), *e as int, n@),
            Parameters::Plus(a, b) => Val::Plus(Box::new((**a)@), Box::new((**b)@)),
            Parameters::Mul(a, b) => Val::Mul(Box::new((**a)@), Box::new((**b)@)),
            Parameters::Div(a, b) => Val::Div(Box::new((**a)@), Box::new((**b)@)),
            Parameters::Call(n, a) => Val::Call(n@, Box::new((**a)@)),
        }
    }
}

impl View for Ast {
    type V = AstV;

    open spec fn view(&self) -> AstV
        decreases self,
    {
        match self {
            Ast::Nil => AstV::Nil,
            Ast::Node { value, left, right } => AstV::Node {
                value: value@,
                left: Box::new((**left)@),
                right: Box::new((**right)@),
            },
            Ast::Call { name, lst } => {
                proof {
                    assert(decreases_to!(*lst => lst@));
                }
                AstV::Call { name: name@, lst: ast_views(lst@) }
            },
        }
    }
}

/// `ast_views` is the elementwise map of the view.
pub proof fn lemma_ast_views(v: Seq<Ast>)
    ensures
        ast_views(v).len() == v.len(),
        forall|i: int| 0 <= i < v.len() ==> #[trigger] ast_views(v)[i] == v[i]@,
    decreases v.len(),
{
    if v.len() > 0 {
        lemma_ast_views(v.drop_last());
        assert(ast_views(v) == ast_views(v.drop_last()).push(v.last()@));
        assert forall|i: int| 0 <= i < v.len() implies #[trigger] ast_views(v)[i] == v[i]@ by {
            if i < v.len() - 1 {
                assert(ast_views(v)[i] == ast_views(v.drop_last())[i]);
                assert(v.drop_last()[i] == v[i]);
            } else {
                assert(v.last() == v[i]);
            }
        }
    }
}

/// `param_views` is the elementwise map of the view.
pub proof fn lemma_param_views(v: Seq<Parameters>)
    ensures
        param_views(v).len() == v.len(),
        forall|i: int| 0 <= i < v.len() ==> #[trigger] param_views(v)[i] == v[i]@,
    decreases v.len(),
{
    if v.len() > 0 {
        lemma_param_views(v.drop_last());
        assert(param_views(v) == param_views(v.drop_last()).push(v.last()@));
        assert forall|i: int| 0 <= i < v.len() implies #[trigger] param_views(v)[i] == v[i]@ by {
            if i < v.len() - 1 {
                assert(param_views(v)[i] == param_views(v.drop_last())[i]);
                assert(v.drop_last()[i] == v[i]);
            } else {
                assert(v.last() == v[i]);
            }
        }
    }
}

/// Every exact fraction embedded in a value is reduced: the data-model
/// invariant the engine preserves and relies on.
pub open spec fn val_wf(v: Val) -> bool
    decreases v, 0int,
{
    match v {
        Val::Rational(r) => rat_wf(r),
        Val::Vector(l) => asts_wf(l),
        Val::InterpreterVector(l) => vals_wf(l),
        Val::Var(c, e, n) => val_wf(*c),
        Val::Plus(a, b) => val_wf(*a) && val_wf(*b),
        Val::Mul(a, b) => val_wf(*a) && val_wf(*b),
        Val::Div(a, b) => val_wf(*a) && val_wf(*b),
        Val::Call(n, a) => val_wf(*a),
        _ => true,
    }
}

/// All values of a run are well-formed.
pub open spec fn vals_wf(l: Seq<Val>) -> bool
    decreases l, 1int,
{
    if l.len() == 0 {
        true
    } else {
        proof {
            assert(decreases_to!(l => l.subrange(0, l.len() - 1)));
            assert(decreases_to!(l => l[l.len() - 1]));
        }
        vals_wf(l.drop_last()) && val_wf(l.last())
    }
}

/// Companion invariant over expression trees.
pub open spec fn ast_wf(a: AstV) -> bool
    decreases a, 0int,
{
    match a {
        AstV::Nil => true,
        AstV::Node { value, left, right } => val_wf(value) && ast_wf(*left) && ast_wf(*right),
        AstV::Call { name, lst } => asts_wf(lst),
    }
}

/// All trees of a run are well-formed.
pub open spec fn asts_wf(l: Seq<AstV>) -> bool
    decreases l, 1int,
{
    if l.len() == 0 {
        true
    } else {
        proof {
            assert(decreases_to!(l => l.subrange(0, l.len() - 1)));
            assert(decreases_to!(l => l[l.len() - 1]));
        }
        asts_wf(l.drop_last()) && ast_wf(l.last())
    }
}

/// A run of values is well-formed exactly when each of them is.
pub proof fn lemma_vals_wf(l: Seq<Val>)
    ensures
        vals_wf(l) <==> (forall|i: int| 0 <= i < l.len() ==> val_wf(#[trigger] l[i])),
    decreases l.len(),
{
    if l.len() > 0 {
        lemma_vals_wf(l.drop_last());
        if vals_wf(l) {
            assert forall|i: int| 0 <= i < l.len() implies val_wf(#[trigger] l[i]) by {
                if i < l.len() - 1 {
                    assert(l.drop_last()[i] == l[i]);
                } else {
                    assert(l.last() == l[i]);
                }
            }
        }
        if forall|i: int| 0 <= i < l.len() ==> val_wf(#[trigger] l[i]) {
            assert forall|i: int| 0 <= i < l.drop_last().len() implies val_wf(
                #[trigger] l.drop_last()[i],
            ) by {
                assert(l.drop_last()[i] == l[i]);
            }
            assert(val_wf(l.last()));
        }
    }
}

/// A run of trees is well-formed exactly when each of them is.
pub proof fn lemma_asts_wf(l: Seq<AstV>)
    ensures
        asts_wf(l) <==> (forall|i: int| 0 <= i < l.len() ==> ast_wf(#[trigger] l[i])),
    decreases l.len(),
{
    if l.len() > 0 {
        lemma_asts_wf(l.drop_last());
        if asts_wf(l) {
            assert forall|i: int| 0 <= i < l.len() implies ast_wf(#[trigger] l[i]) by {
                if i < l.len() - 1 {
                    assert(l.drop_last()[i] == l[i]);
                } else {
                    assert(l.last() == l[i]);
                }
            }
        }
        if forall|i: int| 0 <= i < l.len() ==> ast_wf(#[trigger] l[i]) {
            assert forall|i: int| 0 <= i < l.drop_last().len() implies ast_wf(
                #[trigger] l.drop_last()[i],
            ) by {
                assert(l.drop_last()[i] == l[i]);
            }
            assert(ast_wf(l.last()));
        }
    }
}

impl Clone for Parameters {
    /// A clone is observably the very same value.
    #[verifier::loop_isolation(false)]
    fn clone(&self) -> (r: Self)
        ensures
            r@ == self@,
        decreases self,
    {
        match self {
            Parameters::Int(i) => Parameters::Int(*i),
            Parameters::Decimal(w, f) => Parameters::Decimal(*w, f.clone()),
            Parameters::Bool(b) => Parameters::Bool(*b),
            Parameters::Str(s) => Parameters::Str(s.clone()),
            Parameters::Identifier(s) => Parameters::Identifier(s.clone()),
            Parameters::Rational(r) => Parameters::Rational(*r),
            Parameters::PlusOperation => Parameters::PlusOperation,
            Parameters::MinusOperation => Parameters::MinusOperation,
            Parameters::MultiplicationOperation => Parameters::MultiplicationOperation,
            Parameters::DivideOperation => Parameters::DivideOperation,
            Parameters::LesserOrEqualOperation => Parameters::LesserOrEqualOperation,
            Parameters::LesserOperation => Parameters::LesserOperation,
            Parameters::GreaterOrEqualOperation => Parameters::GreaterOrEqualOperation,
            Parameters::GreaterOperation => Parameters::GreaterOperation,
            Parameters::OrOperation => Parameters::OrOperation,
            Parameters::AndOperation => Parameters::AndOperation,
            Parameters::Equal => Parameters::Equal,
            Parameters::Not => Parameters::Not,
            Parameters::Assign => Parameters::Assign,
            Parameters::Null => Parameters::Null,
            Parameters::ExpoOperation => Parameters::ExpoOperation,
            Parameters::Vector(v) => {
                let mut res: Vec<Ast> = Vec::new();
                let mut k: usize = 0;
                while k < v.len()
                    invariant
                        k <= v@.len(),
                        res@.len() == k as int,
                        forall|i: int| 0 <= i < k as int ==> res@[i]@ == v@[i]@,
                    decreases v@.len() - k as int,
                {
                    proof {
                        assert(decreases_to!(*self => (*self)->Vector_0));
                        assert((*self)->Vector_0 == *v);
                        assert(decreases_to!(**v => (**v)@));
                        assert(decreases_to!((**v)@ => (**v)@[k as int]));
                    }
                    res.push(v[k].clone());
                    k = k + 1;
                }
                proof {
                    lemma_ast_views(res@);
                    lemma_ast_views((**v)@);
                    assert(ast_views(res@) =~= ast_views((**v)@));
                }
                Parameters::Vector(Box::new(res))
            },
            Parameters::InterpreterVector(v) => {
                let mut res: Vec<Parameters> = Vec::new();
                let mut k: usize = 0;
                while k < v.len()
                    invariant
                        k <= v@.len(),
                        res@.len() == k as int,
                        forall|i: int| 0 <= i < k as int ==> res@[i]@ == v@[i]@,
                    decreases v@.len() - k as int,
                {
                    proof {
                        assert(decreases_to!(*self => (*self)->InterpreterVector_0));
                        assert((*self)->InterpreterVector_0 == *v);
                        assert(decreases_to!(**v => (**v)@));
                        assert(decreases_to!((**v)@ => (**v)@[k as int]));
                    }
                    res.push(v[k].clone());
                    k = k + 1;
                }
                proof {
                    lemma_param_views(res@);
                    lemma_param_views((**v)@);
                    assert(param_views(res@) =~= param_views((**v)@));
                }
                Parameters::InterpreterVector(Box::new(res))
            },
            Parameters::Var(c, e, n) => Parameters::Var(Box::new((**c).clone()), *e, n.clone()),
            Parameters::Plus(a, b) => Parameters::Plus(
                Box::new((**a).clone()),
                Box::new((**b).clone()),
            ),
            Parameters::Mul(a, b) => Parameters::Mul(
                Box::new((**a).clone()),
                Box::new((**b).clone()),
            ),
            Parameters::Div(a, b) => Parameters::Div(
                Box::new((**a).clone()),
                Box::new((**b).clone()),
            ),
            Parameters::Call(n, a) => Parameters::Call(n.clone(), Box::new((**a).clone())),
        }
    }
}

impl Clone for Ast {
    /// A clone is observably the very same tree.
    #[verifier::loop_isolation(false)]
    fn clone(&self) -> (r: Self)
        ensures
            r@ == self@,
        decreases self,
    {
        match self {
            Ast::Nil => Ast::Nil,
            Ast::Node { value, left, right } => Ast::Node {
                value: value.clone(),
                left: Box::new((**left).clone()),
                right: Box::new((**right).clone()),
            },
            Ast::Call { name, lst } => {
                let mut res: Vec<Ast> = Vec::new();
                let mut k: usize = 0;
                while k < lst.len()
                    invariant
                        k <= lst@.len(),
                        res@.len() == k as int,
                        forall|i: int| 0 <= i < k as int ==> res@[i]@ == lst@[i]@,
                    decreases lst@.len() - k as int,
                {
                    proof {
                        assert(decreases_to!(*self => (*self)->Call_lst));
                        assert((*self)->Call_lst == *lst);
                        assert(decreases_to!(*lst => lst@));
                        assert(decreases_to!(lst@ => lst@[k as int]));
                    }
                    res.push(lst[k].clone());
                    k = k + 1;
                }
                proof {
                    lemma_ast_views(res@);
                    lemma_ast_views(lst@);
                    assert(ast_views(res@) =~= ast_views(lst@));
                }
                Ast::Call { name: name.clone(), lst: res }
            },
        }
    }
}

/// Two's-complement wrap-around of a 64-bit signed sum.
pub open spec fn wrap_add64(a: int, b: int) -> int {
    if a + b > i64::MAX {
        a + b - 0x10000000000000000
    } else if a + b < i64::MIN {
        a + b + 0x10000000000000000
    } else {
        a + b
    }
}

/// Two's-complement wrap-around of a 64-bit signed difference.
pub open spec fn wrap_sub64(a: int, b: int) -> int {
    if a - b > i64::MAX {
        a - b - 0x10000000000000000
    } else if a - b < i64::MIN {
        a - b + 0x10000000000000000
    } else {
        a - b
    }
}

/// Two's-complement wrap-around of a 64-bit signed product.
pub open spec fn wrap_mul64(a: int, b: int) -> int {
    if (a * b) % 0x10000000000000000 > i64::MAX {
        ((a * b) % 0x10000000000000000) - 0x10000000000000000
    } else {
        (a * b) % 0x10000000000000000
    }
}





// Broadcast views of each constructor, so that contracts over nested
// structures unfold without manual help.

pub broadcast proof fn lemma_view_int(n: i64)
    ensures
        #[trigger] (Parameters::Int(n))@ == Val::Int(n as int),
{
}

pub broadcast proof fn lemma_view_decimal(w: i64, f: String)
    ensures
        #[trigger] (Parameters::Decimal(w, f))@ == Val::Decimal(w as int, f@),
{
}

pub broadcast proof fn lemma_view_bool(b: bool)
    ensures
        #[trigger] (Parameters::Bool(b))@ == Val::Bool(b),
{
}

pub broadcast proof fn lemma_view_str(s: String)
    ensures
        #[trigger] (Parameters::Str(s))@ == Val::Str(s@),
{
}

pub broadcast proof fn lemma_view_identifier(s: String)
    ensures
        #[trigger] (Parameters::Identifier(s))@ == Val::Identifier(s@),
{
}

pub broadcast proof fn lemma_view_rational(r: Rationals)
    ensures
        #[trigger] (Parameters::Rational(r))@ == Val::Rational(r@),
{
}

pub broadcast proof fn lemma_view_vector(v: Box<Vec<Ast>>)
    ensures
        #[trigger] (Parameters::Vector(v))@ == Val::Vector(ast_views((*v)@)),
{
}

pub broadcast proof fn lemma_view_ivector(v: Box<Vec<Parameters>>)
    ensures
        #[trigger] (Parameters::InterpreterVector(v))@ == Val::InterpreterVector(
            param_views((*v)@),
        ),
{
}

pub broadcast proof fn lemma_view_var(c: Box<Parameters>, e: i64, n: String)
    ensures
        #[trigger] (Parameters::Var(c, e, n))@ == Val::Var(Box::new((*c)@), e as int, n@),
{
}

pub broadcast proof fn lemma_view_plus(a: Box<Parameters>, b: Box<Parameters>)
    ensures
        #[trigger] (Parameters::Plus(a, b))@ == Val::Plus(Box::new((*a)@), Box::new((*b)@)),
{
}

pub broadcast proof fn lemma_view_mul(a: Box<Parameters>, b: Box<Parameters>)
    ensures
        #[trigger] (Parameters::Mul(a, b))@ == Val::Mul(Box::new((*a)@), Box::new((*b)@)),
{
}

pub broadcast proof fn lemma_view_div(a: Box<Parameters>, b: Box<Parameters>)
    ensures
        #[trigger] (Parameters::Div(a, b))@ == Val::Div(Box::new((*a)@), Box::new((*b)@)),
{
}

pub broadcast proof fn lemma_view_call(n: String, a: Box<Parameters>)
    ensures
        #[trigger] (Parameters::Call(n, a))@ == Val::Call(n@, Box::new((*a)@)),
{
}

pub broadcast proof fn lemma_ast_view_node(v: Parameters, l: Box<Ast>, r: Box<Ast>)
    ensures
        #[trigger] (Ast::Node { value: v, left: l, right: r })@ == (AstV::Node {
            value: v@,
            left: Box::new((*l)@),
            right: Box::new((*r)@),
        }),
{
}

// Broadcast well-formedness of each constructor.

pub broadcast proof fn lemma_wf_int(n: int)
    ensures
        #[trigger] val_wf(Val::Int(n)),
{
}

pub broadcast proof fn lemma_wf_decimal(w: int, f: Seq<char>)
    ensures
        #[trigger] val_wf(Val::Decimal(w, f)),
{
}

pub broadcast proof fn lemma_wf_bool(b: bool)
    ensures
        #[trigger] val_wf(Val::Bool(b)),
{
}

pub broadcast proof fn lemma_wf_str(s: Seq<char>)
    ensures
        #[trigger] val_wf(Val::Str(s)),
{
}

pub broadcast proof fn lemma_wf_identifier(s: Seq<char>)
    ensures
        #[trigger] val_wf(Val::Identifier(s)),
{
}

pub broadcast proof fn lemma_wf_rational(r: Rat)
    ensures
        #[trigger] val_wf(Val::Rational(r)) == rat_wf(r),
{
}

pub broadcast proof fn lemma_wf_vector(l: Seq<AstV>)
    ensures
        #[trigger] val_wf(Val::Vector(l)) == asts_wf(l),
{
}

pub broadcast proof fn lemma_wf_ivector(l: Seq<Val>)
    ensures
        #[trigger] val_wf(Val::InterpreterVector(l)) == vals_wf(l),
{
}

pub broadcast proof fn lemma_wf_var(c: Box<Val>, e: int, n: Seq<char>)
    ensures
        #[trigger] val_wf(Val::Var(c, e, n)) == val_wf(*c),
{
}

pub broadcast proof fn lemma_wf_plus(a: Box<Val>, b: Box<Val>)
    ensures
        #[trigger] val_wf(Val::Plus(a, b)) == (val_wf(*a) && val_wf(*b)),
{
}

pub broadcast proof fn lemma_wf_mul(a: Box<Val>, b: Box<Val>)
    ensures
        #[trigger] val_wf(Val::Mul(a, b)) == (val_wf(*a) && val_wf(*b)),
{
}

pub broadcast proof fn lemma_wf_div(a: Box<Val>, b: Box<Val>)
    ensures
        #[trigger] val_wf(Val::Div(a, b)) == (val_wf(*a) && val_wf(*b)),
{
}

pub broadcast proof fn lemma_wf_call(n: Seq<char>, a: Box<Val>)
    ensures
        #[trigger] val_wf(Val::Call(n, a)) == val_wf(*a),
{
}

pub broadcast proof fn lemma_astwf_node(val: Val, l: Box<AstV>, r: Box<AstV>)
    ensures
        #[trigger] ast_wf(AstV::Node { value: val, left: l, right: r }) == (val_wf(val) && ast_wf(
            *l,
        ) && ast_wf(*r)),
{
}

pub broadcast proof fn lemma_astwf_call(n: Seq<char>, lst: Seq<AstV>)
    ensures
        #[trigger] ast_wf(AstV::Call { name: n, lst: lst }) == asts_wf(lst),
{
}

/// The broadcast group tying exec constructors to their views and
/// well-formedness; engine modules bring it into scope.
pub broadcast group group_value_views {
    lemma_view_int,
    lemma_view_decimal,
    lemma_view_bool,
    lemma_view_str,
    lemma_view_identifier,
    lemma_view_rational,
    lemma_view_vector,
    lemma_view_ivector,
    lemma_view_var,
    lemma_view_plus,
    lemma_view_mul,
    lemma_view_div,
    lemma_view_call,
    lemma_ast_view_node,
    lemma_wf_int,
    lemma_wf_decimal,
    lemma_wf_bool,
    lemma_wf_str,
    lemma_wf_identifier,
    lemma_wf_rational,
    lemma_wf_vector,
    lemma_wf_ivector,
    lemma_wf_var,
    lemma_wf_plus,
    lemma_wf_mul,
    lemma_wf_div,
    lemma_wf_call,
    lemma_astwf_node,
    lemma_astwf_call,
}

/// Structural size of a value, counting the expression trees it may embed;
/// the measure the interpreter's recursion descends on.
pub open spec fn val_ast_size(v: Val) -> nat
    decreases v, 0int,
{
    match v {
        Val::Vector(l) => 1 + asts_size(l),
        Val::InterpreterVector(l) => 1 + vals_ast_size(l),
        Val::Var(c, e, n) => 1 + val_ast_size(*c),
        Val::Plus(a, b) => 1 + val_ast_size(*a) + val_ast_size(*b),
        Val::Mul(a, b) => 1 + val_ast_size(*a) + val_ast_size(*b),
        Val::Div(a, b) => 1 + val_ast_size(*a) + val_ast_size(*b),
        Val::Call(n, a) => 1 + val_ast_size(*a),
        _ => 1,
    }
}

/// Summed size of a run of values.
pub open spec fn vals_ast_size(l: Seq<Val>) -> nat
    decreases l, 1int,
{
    if l.len() == 0 {
        0
    } else {
        proof {
            assert(decreases_to!(l => l.subrange(0, l.len() - 1)));
            assert(decreases_to!(l => l[l.len() - 1]));
        }
        vals_ast_size(l.drop_last()) + val_ast_size(l.last())
    }
}

/// Structural size of an expression tree.
pub open spec fn astv_size(a: AstV) -> nat
    decreases a, 0int,
{
    match a {
        AstV::Nil => 1,
        AstV::Node { value, left, right } => 1 + val_ast_size(value) + astv_size(*left)
            + astv_size(*right),
        AstV::Call { name, lst } => 1 + asts_size(lst),
    }
}

/// Summed size of a run of expression trees.
pub open spec fn asts_size(l: Seq<AstV>) -> nat
    decreases l, 1int,
{
    if l.len() == 0 {
        0
    } else {
        proof {
            assert(decreases_to!(l => l.subrange(0, l.len() - 1)));
            assert(decreases_to!(l => l[l.len() - 1]));
        }
        asts_size(l.drop_last()) + astv_size(l.last())
    }
}

/// The summed size splits at the front of a run.
pub proof fn lemma_asts_size_split(l: Seq<AstV>)
    requires
        l.len() > 0,
    ensures
        asts_size(l) == astv_size(l[0]) + asts_size(l.subrange(1, l.len() as int)),
    decreases l.len(),
{
    if l.len() == 1 {
        assert(l.drop_last().len() == 0);
        assert(l.subrange(1, l.len() as int).len() == 0);
        assert(asts_size(l.subrange(1, l.len() as int)) == 0);
        assert(l.last() == l[0]);
        assert(asts_size(l) == asts_size(l.drop_last()) + astv_size(l.last()));
        assert(asts_size(l.drop_last()) == 0);
    } else {
        lemma_asts_size_split(l.drop_last());
        assert(l.drop_last()[0] == l[0]);
        assert(l.subrange(1, l.len() as int).drop_last() =~= l.drop_last().subrange(
            1,
            l.len() - 1,
        ));
        assert(l.subrange(1, l.len() as int).last() == l.last());
        assert(asts_size(l.subrange(1, l.len() as int)) == asts_size(
            l.subrange(1, l.len() as int).drop_last(),
        ) + astv_size(l.subrange(1, l.len() as int).last()));
        assert(asts_size(l) == asts_size(l.drop_last()) + astv_size(l.last()));
        assert(asts_size(l.drop_last()) == astv_size(l[0]) + asts_size(
            l.drop_last().subrange(1, l.len() - 1),
        ));
        assert(asts_size(l.subrange(1, l.len() as int).drop_last()) == asts_size(
            l.drop_last().subrange(1, l.len() - 1),
        ));
    }
}

} // verus!
