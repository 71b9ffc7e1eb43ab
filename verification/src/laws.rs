//! The algebraic laws the engine guarantees, stated over the mathematical
//! models that the operators' own contracts use.

use vstd::prelude::*;

verus! {

use crate::functions::add::add_incompatible;
use crate::functions::add::spec_add;
use crate::functions::divide::spec_divide;
use crate::functions::mult::spec_mult;
use crate::rational::Rat;
use crate::rational::gcd;
use crate::rational::lemma_gcd_divides;
use crate::rational::lemma_gcd_scale;
use crate::rational::lemma_rat_make_value;
use crate::rational::lemma_rat_make_wf;
use crate::rational::rat_make;
use crate::rational::rat_mul;
use crate::rational::rat_wf;
use crate::rational::sgn;
use crate::value::Val;
use crate::value::wrap_add64;
use vstd::arithmetic::div_mod::lemma_div_multiples_vanish;
use vstd::arithmetic::div_mod::lemma_div_nonincreasing;
use vstd::arithmetic::div_mod::lemma_div_pos_is_pos;
use vstd::math::abs;

/// Identity law: `Null` paired with a concrete number is that number's
/// additive identity, on either side.
pub proof fn lemma_null_identity_add(v: Val, m: Option<Map<Seq<char>, Val>>, fuel: nat)
    requires
        fuel >= 1,
        v is Int || v is Rational,
    ensures
        spec_add(Val::Null, v, m, fuel) == v,
        spec_add(v, Val::Null, m, fuel) == v,
{
}

/// Identity law: `Null` paired with a concrete number is that number's
/// multiplicative identity, on either side.
pub proof fn lemma_null_identity_mult(v: Val, m: Option<Map<Seq<char>, Val>>, fuel: nat)
    requires
        fuel >= 1,
        v is Int || v is Rational,
    ensures
        spec_mult(Val::Null, v, m, fuel) == v,
        spec_mult(v, Val::Null, m, fuel) == v,
{
}

/// Identity law: `Null` paired with a concrete number leaves it unchanged
/// under division, on either side.
pub proof fn lemma_null_identity_divide(v: Val, m: Option<Map<Seq<char>, Val>>, fuel: nat)
    requires
        fuel >= 1,
        v is Int || v is Rational,
    ensures
        spec_divide(Val::Null, v, m, fuel) == v,
        spec_divide(v, Val::Null, m, fuel) == v,
{
}

/// Monomial folding: adding two monomials over one name and exponent folds
/// their integer coefficients.
pub proof fn lemma_monomial_fold_add(
    c1: i64,
    c2: i64,
    y: int,
    z: Seq<char>,
    m: Option<Map<Seq<char>, Val>>,
    fuel: nat,
)
    requires
        fuel >= 2,
    ensures
        spec_add(
            Val::Var(Box::new(Val::Int(c1 as int)), y, z),
            Val::Var(Box::new(Val::Int(c2 as int)), y, z),
            m,
            fuel,
        ) == Val::Var(Box::new(Val::Int(wrap_add64(c1 as int, c2 as int))), y, z),
{
    assert(spec_add(Val::Int(c1 as int), Val::Int(c2 as int), m, (fuel - 1) as nat) == Val::Int(
        wrap_add64(c1 as int, c2 as int),
    ));
}

/// Monomial folding: multiplying a monomial by its own name raises the
/// exponent by one and keeps the coefficient.
pub proof fn lemma_monomial_fold_mult(
    c: Val,
    y: int,
    z: Seq<char>,
    m: Option<Map<Seq<char>, Val>>,
    fuel: nat,
)
    requires
        fuel >= 1,
    ensures
        spec_mult(Val::Var(Box::new(c), y, z), Val::Identifier(z), m, fuel) == Val::Var(
            Box::new(c),
            wrap_add64(y, 1),
            z,
        ),
{
}

/// Sentinel propagation: a pair no rule covers answers with an `Identifier`
/// whose text begins with `@`.
pub proof fn lemma_sentinel_uncovered_pair(
    b: bool,
    l: Seq<Val>,
    m: Option<Map<Seq<char>, Val>>,
    fuel: nat,
)
    requires
        fuel >= 1,
    ensures
        spec_add(Val::Bool(b), Val::InterpreterVector(l), m, fuel) == Val::Identifier(
            add_incompatible(),
        ),
        add_incompatible().len() > 0,
        add_incompatible()[0] == '@',
{
    reveal_strlit("@Those two values are incompatible with the + operator");
}

/// The candidate tie-break is deterministic: the first candidate wins
/// unless the second is strictly smaller, so repeated rewrites of the same
/// operands give identical trees.
pub proof fn lemma_tie_keeps_first(first: Val, second: Val)
    ensures
        crate::symbolic::size_of(first) <= crate::symbolic::size_of(second)
            ==> crate::symbolic::smaller_of(first, second) == first,
        crate::symbolic::size_of(first) > crate::symbolic::size_of(second)
            ==> crate::symbolic::smaller_of(first, second) == second,
{
}

/// Exact round trip: dividing two integers yields their reduced fraction;
/// multiplying it back by the divisor restores the dividend, as the integer
/// itself when the divisor divides it evenly (the fraction was integral)
/// and as the equal-valued fraction `a / 1` otherwise.  The two corners
/// left out are dividend or divisor equal to the smallest machine integer,
/// whose magnitude has no reduced counterpart in range.
pub proof fn lemma_exact_round_trip(a: i64, b: i64, m: Option<Map<Seq<char>, Val>>, fuel: nat)
    requires
        b != 0,
        b != i64::MIN,
        a != i64::MIN,
        fuel >= 1,
    ensures
        spec_divide(Val::Int(a as int), Val::Int(b as int), m, fuel) == Val::Rational(
            rat_make(a as int, b as int),
        ),
        rat_wf(rat_make(a as int, b as int)),
        rat_make(a as int, b as int).d > 0,
        rat_make(a as int, b as int).d == 1 <==> abs(a as int) as int % (abs(b as int) as int)
            == 0,
        rat_make(a as int, b as int).d == 1 ==> spec_mult(
            Val::Rational(rat_make(a as int, b as int)),
            Val::Int(b as int),
            m,
            fuel,
        ) == Val::Int(a as int),
        rat_make(a as int, b as int).d != 1 ==> spec_mult(
            Val::Rational(rat_make(a as int, b as int)),
            Val::Int(b as int),
            m,
            fuel,
        ) == Val::Rational(Rat { n: a as int, d: 1 }),
{
    let ai = a as int;
    let bi = b as int;
    lemma_rat_make_wf(ai, bi);
    lemma_rat_make_value(ai, bi);
    let nn = if bi < 0 {
        -ai
    } else {
        ai
    };
    let dd = abs(bi) as int;
    let g = gcd(abs(nn), dd as nat) as int;
    lemma_gcd_divides(abs(nn), dd as nat);
    let num = sgn(nn) * (abs(nn) as int / g);
    let den = dd / g;
    lemma_div_nonincreasing(abs(nn) as int, g);
    lemma_div_nonincreasing(dd, g);
    lemma_div_pos_is_pos(abs(nn) as int, g);
    lemma_div_pos_is_pos(dd, g);
    assert(abs(nn) as int <= 0x7fffffffffffffff);
    assert(dd <= 0x7fffffffffffffff);
    assert(-0x7fffffffffffffff <= num <= 0x7fffffffffffffff) by (nonlinear_arith)
        requires
            num == sgn(nn) * (abs(nn) as int / g),
            0 <= abs(nn) as int / g <= 0x7fffffffffffffff,
            -1 <= sgn(nn) <= 1,
    ;
    let r = rat_make(ai, bi);
    assert(r == (Rat { n: num, d: den }));
    assert(den > 0) by {
        vstd::arithmetic::div_mod::lemma_fundamental_div_mod(dd, g);
        if den == 0 {
            assert(dd == g * (dd / g) + dd % g);
            assert(g * 0 == 0) by (nonlinear_arith);
        }
    }
    assert(r.d > 0);
    // the fraction is integral exactly when the divisor divides the dividend
    assert(abs(nn) == abs(ai));
    assert(den == 1 <==> abs(ai) as int % dd == 0) by {
        if den == 1 {
            vstd::arithmetic::div_mod::lemma_fundamental_div_mod(dd, g);
            assert(dd == g * (dd / g));
            assert(g * 1 == g) by (nonlinear_arith);
            assert(dd == g);
        }
        if abs(ai) as int % dd == 0 {
            assert(gcd(abs(nn), dd as nat) == dd as nat) by {
                reveal_with_fuel(gcd, 3);
            }
            vstd::arithmetic::div_mod::lemma_div_by_self(dd);
        }
    }
    // the product: rat_mul(r, b/1) == rat_make(r.n * b, r.d)
    let rb = rat_make(bi, 1);
    assert(gcd(abs(bi), 1) == 1) by {
        reveal_with_fuel(gcd, 3);
        assert(abs(bi) as int % 1 == 0) by (nonlinear_arith);
    }
    assert(rb == Rat { n: bi, d: 1 });
    assert(rat_mul(r, rb) == rat_make(r.n * bi, r.d * 1));
    assert(r.d * 1 == r.d) by (nonlinear_arith);
    // cross-multiplication equality from normalization: r.n * bi == ai * r.d
    assert(r.n * bi == ai * r.d);
    // so the product normalizes a fraction equal to ai / 1
    lemma_rat_make_eq_int(ai, r.d);
    assert(rat_make(r.n * bi, r.d) == rat_make(ai * r.d, r.d));
    assert(rat_make(r.n * bi, r.d) == (Rat { n: ai, d: 1 }));
    if r.d == 1 {
        assert(spec_mult(Val::Rational(r), Val::Int(bi), m, fuel) == Val::Int(ai));
    } else {
        assert(spec_mult(Val::Rational(r), Val::Int(bi), m, fuel) == Val::Rational(
            Rat { n: ai, d: 1 },
        ));
    }
}

/// Normalizing `(a * d) / d` for positive `d` gives exactly `a / 1`.
proof fn lemma_rat_make_eq_int(a: int, d: int)
    requires
        d > 0,
        i64::MIN <= a <= i64::MAX,
    ensures
        rat_make(a * d, d) == (Rat { n: a, d: 1 }),
{
    let n = a * d;
    assert(abs(n) == abs(a) * d) by (nonlinear_arith)
        requires
            d > 0,
            n == a * d,
    ;
    lemma_gcd_scale(d as nat, abs(a), 1);
    assert(d * (abs(a) as int) == (abs(a) as int) * d) by (nonlinear_arith);
    assert(d as nat * abs(a) == abs(n));
    assert(gcd(abs(a), 1) == 1) by {
        reveal_with_fuel(gcd, 3);
        assert(abs(a) as int % 1 == 0) by (nonlinear_arith);
    }
    assert((d as nat * 1) as int == d * 1) by (nonlinear_arith)
        requires
            d > 0,
    ;
    assert(d * 1 == d) by (nonlinear_arith);
    assert(gcd(abs(n), d as nat) == d as nat);
    let g = gcd(abs(n), d as nat) as int;
    assert(g == d);
    assert(abs(n) as int / g == abs(a)) by {
        lemma_div_multiples_vanish(abs(a) as int, d);
        assert(d * abs(a) == abs(n) as int) by (nonlinear_arith)
            requires
                abs(n) == abs(a) * d,
        ;
    }
    assert(d / d == 1) by {
        lemma_div_multiples_vanish(1, d);
        assert(d * 1 == d) by (nonlinear_arith);
    }
    assert(sgn(n) == sgn(a)) by (nonlinear_arith)
        requires
            d > 0,
            n == a * d,
    ;
    assert(sgn(a) * (abs(a) as int) == a);
    assert(rat_make(a * d, d).n == a);
    assert(rat_make(a * d, d).d == 1);
}

} // verus!
