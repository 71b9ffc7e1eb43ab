//! Exact fractions over machine integers: the numeric leaf of the whole
//! engine.  A `Rationals` value is always stored reduced to lowest terms with
//! a positive denominator; a zero denominator is the defined "undefined"
//! state (division by zero, or a reduced result that does not fit in `i64`).

use vstd::prelude::*;

verus! {

use vstd::arithmetic::div_mod::lemma_fundamental_div_mod;
use vstd::arithmetic::div_mod::lemma_fundamental_div_mod_converse;
use vstd::arithmetic::div_mod::lemma_mod_multiples_vanish;
use vstd::math::abs;

/// Mathematical greatest common divisor, by Euclid's rule.
pub open spec fn gcd(a: nat, b: nat) -> nat
    decreases b,
{
    if b == 0 {
        a
    } else {
        gcd(b, a % b)
    }
}

/// The gcd of two numbers divides both, and is positive unless both are zero.
pub proof fn lemma_gcd_divides(a: nat, b: nat)
    ensures
        a > 0 || b > 0 ==> gcd(a, b) > 0,
        gcd(a, b) > 0 ==> a as int % (gcd(a, b) as int) == 0,
        gcd(a, b) > 0 ==> b as int % (gcd(a, b) as int) == 0,
    decreases b,
{
    if b == 0 {
        if a > 0 {
            lemma_mod_self_zero(a as int);
        }
    } else {
        lemma_gcd_divides(b, a % b);
        let g = gcd(b, a % b);
        assert(g > 0);
        lemma_fundamental_div_mod(a as int, b as int);
        // a == (a / b) * b + a % b, and both summands vanish mod g
        lemma_mod_multiples_vanish((a as int / b as int) * (b as int / g as int), (a % b) as int, g as int);
        assert((a as int / b as int) * (b as int) == ((a as int / b as int) * (b as int / g as int)) * (g as int)) by {
            lemma_fundamental_div_mod_converse_self(b as int, g as int);
            assert(b as int == (b as int / g as int) * (g as int));
            vstd::arithmetic::mul::lemma_mul_is_associative(a as int / b as int, b as int / g as int, g as int);
        }
        assert(g as int * ((a as int / b as int) * (b as int / g as int)) == ((a as int / b as int)
            * (b as int / g as int)) * (g as int)) by (nonlinear_arith);
        assert(b as int * (a as int / b as int) == (a as int / b as int) * (b as int))
            by (nonlinear_arith);
        assert(a as int == (a as int / b as int) * (b as int) + (a % b) as int);
        assert(a as int == g as int * ((a as int / b as int) * (b as int / g as int)) + (a % b) as int);
        assert(a as int % (g as int) == (a % b) as int % (g as int));
    }
}

/// x % x == 0 for positive x.
proof fn lemma_mod_self_zero(x: int)
    requires
        x > 0,
    ensures
        x % x == 0,
{
    lemma_mod_multiples_vanish(1, 0, x);
}

/// If x % g == 0 then x is exactly g times its quotient.
proof fn lemma_fundamental_div_mod_converse_self(x: int, g: int)
    requires
        g > 0,
        x % g == 0,
    ensures
        x == (x / g) * g,
{
    lemma_fundamental_div_mod(x, g);
    assert(x == g * (x / g) + x % g);
    assert(g * (x / g) == (x / g) * g) by (nonlinear_arith);
}

/// Scaling both arguments scales the gcd: gcd(k*a, k*b) == k * gcd(a, b).
pub proof fn lemma_gcd_scale(k: nat, a: nat, b: nat)
    ensures
        gcd(k * a, k * b) == k * gcd(a, b),
    decreases b,
{
    if k == 0 {
        assert(k * a == 0 && k * b == 0 && k * gcd(a, b) == 0) by (nonlinear_arith)
            requires
                k == 0,
        ;
    } else if b == 0 {
        assert(k * b == 0) by (nonlinear_arith)
            requires
                b == 0,
        ;
    } else {
        assert(k * b > 0) by (nonlinear_arith)
            requires
                k > 0,
                b > 0,
        ;
        lemma_mod_scale(k as int, a as int, b as int);
        assert((k * a) % (k * b) == k * (a % b)) by (nonlinear_arith)
            requires
                (k as int * a as int) % (k as int * b as int) == k as int * (a as int % b as int),
                k > 0,
                b > 0,
        ;
        lemma_gcd_scale(k, b, a % b);
        assert(gcd(k * a, k * b) == gcd(k * b, (k * a) % (k * b)));
    }
}

/// (k*a) % (k*b) == k * (a % b) for k > 0, b > 0.
proof fn lemma_mod_scale(k: int, a: int, b: int)
    requires
        k > 0,
        a >= 0,
        b > 0,
    ensures
        (k * a) % (k * b) == k * (a % b),
{
    lemma_fundamental_div_mod(a, b);
    let q = a / b;
    let r = a % b;
    assert(b * q == q * b) by (nonlinear_arith);
    assert(a == q * b + r);
    assert(k * a == q * (k * b) + k * r) by (nonlinear_arith)
        requires
            a == q * b + r,
    ;
    assert(0 <= k * r && k * r < k * b) by (nonlinear_arith)
        requires
            k > 0,
            0 <= r,
            r < b,
    ;
    lemma_fundamental_div_mod_converse(k * a, k * b, q, k * r);
}

/// The mathematical shadow of a `Rationals` value: an unbounded
/// numerator/denominator pair.
pub ghost struct Rat {
    pub n: int,
    pub d: int,
}

/// Smallest and largest values an `i64` can hold.
pub open spec fn in_i64(x: int) -> bool {
    i64::MIN <= x <= i64::MAX
}

/// Sign of an integer: -1, 0 or 1.
pub open spec fn sgn(x: int) -> int {
    if x > 0 {
        1
    } else if x < 0 {
        -1
    } else {
        0
    }
}

/// Well-formed rationals: reduced with a positive denominator, or the
/// undefined state (denominator zero, numerator reduced to a bare sign).
pub open spec fn rat_wf(r: Rat) -> bool {
    (r.d > 0 && in_i64(r.n) && in_i64(r.d) && gcd(abs(r.n), r.d as nat) == 1) || (r.d == 0 && -1
        <= r.n <= 1)
}

/// A rational is defined when its denominator is nonzero.
pub open spec fn rat_defined(r: Rat) -> bool {
    r.d != 0
}

/// Normalize an arbitrary fraction n/d: positive denominator, reduced by the
/// gcd; zero denominator collapses to the undefined sentinel, as does a
/// reduced pair that leaves the `i64` range.
pub open spec fn rat_make(n: int, d: int) -> Rat {
    if d == 0 {
        Rat { n: sgn(n), d: 0 }
    } else {
        let nn = if d < 0 {
            -n
        } else {
            n
        };
        let dd = abs(d) as int;
        let g = gcd(abs(nn), dd as nat) as int;
        let num = sgn(nn) * (abs(nn) as int / g);
        let den = dd / g;
        if in_i64(num) && in_i64(den) {
            Rat { n: num, d: den }
        } else {
            Rat { n: 0, d: 0 }
        }
    }
}

/// The exact value of n/d survives normalization: the reduced pair denotes
/// the same fraction (cross-multiplication equality), whenever it stayed
/// within range.
pub proof fn lemma_rat_make_value(n: int, d: int)
    requires
        d != 0,
    ensures
        rat_make(n, d).d != 0 ==> rat_make(n, d).n * d == n * rat_make(n, d).d,
        rat_make(n, d).d != 0 ==> rat_make(n, d).d > 0,
{
    let nn = if d < 0 {
        -n
    } else {
        n
    };
    let dd = abs(d) as int;
    let g = gcd(abs(nn), dd as nat) as int;
    lemma_gcd_divides(abs(nn), dd as nat);
    assert(g > 0);
    let num = sgn(nn) * (abs(nn) as int / g);
    let den = dd / g;
    lemma_fundamental_div_mod_converse_self(abs(nn) as int, g);
    lemma_fundamental_div_mod_converse_self(dd, g);
    assert(abs(nn) as int == (abs(nn) as int / g) * g);
    assert(dd == (dd / g) * g);
    vstd::arithmetic::div_mod::lemma_div_pos_is_pos(dd, g);
    if rat_make(n, d).d != 0 {
        assert(den > 0) by {
            if den == 0 {
                assert((dd / g) * g == 0) by (nonlinear_arith)
                    requires
                        dd / g == 0,
                ;
            }
        }
        assert(num * dd == nn * den) by (nonlinear_arith)
            requires
                abs(nn) as int == (abs(nn) as int / g) * g,
                dd == (dd / g) * g,
                num == sgn(nn) * (abs(nn) as int / g),
                den == dd / g,
                g > 0,
                (nn >= 0 ==> sgn(nn) * (abs(nn) as int) == nn && (nn > 0 ==> sgn(nn) == 1)
                    && (nn == 0 ==> sgn(nn) == 0)),
                (nn < 0 ==> sgn(nn) == -1 && sgn(nn) * (abs(nn) as int) == nn),
        ;
        if d < 0 {
            assert(num * d == -(num * dd)) by (nonlinear_arith)
                requires
                    dd == -d,
            ;
            assert(n * den == -(nn * den)) by (nonlinear_arith)
                requires
                    nn == -n,
            ;
        }
    }
}

/// Every normalized fraction is well-formed: reduced to lowest terms with a
/// positive denominator, or the undefined sentinel.  This is the reduction
/// invariant the whole engine relies on.
pub proof fn lemma_rat_make_wf(n: int, d: int)
    ensures
        rat_wf(rat_make(n, d)),
{
    if d != 0 {
        let nn = if d < 0 {
            -n
        } else {
            n
        };
        let dd = abs(d) as int;
        let g = gcd(abs(nn), dd as nat) as int;
        lemma_gcd_divides(abs(nn), dd as nat);
        assert(g > 0);
        let num = sgn(nn) * (abs(nn) as int / g);
        let den = dd / g;
        if in_i64(num) && in_i64(den) {
            lemma_fundamental_div_mod_converse_self(abs(nn) as int, g);
            lemma_fundamental_div_mod_converse_self(dd, g);
            let a2 = abs(nn) as int / g;
            let d2 = dd / g;
            vstd::arithmetic::div_mod::lemma_div_pos_is_pos(abs(nn) as int, g);
            vstd::arithmetic::div_mod::lemma_div_pos_is_pos(dd, g);
            assert(abs(nn) as int == g * a2) by (nonlinear_arith)
                requires
                    abs(nn) as int == a2 * g,
            ;
            assert(dd == g * d2) by (nonlinear_arith)
                requires
                    dd == d2 * g,
            ;
            lemma_gcd_scale(g as nat, a2 as nat, d2 as nat);
            assert(g as nat * gcd(a2 as nat, d2 as nat) == gcd(abs(nn), dd as nat));
            assert(gcd(a2 as nat, d2 as nat) == 1) by (nonlinear_arith)
                requires
                    g as nat * gcd(a2 as nat, d2 as nat) == g as nat,
                    g > 0,
            ;
            assert(den > 0) by {
                if den == 0 {
                    assert(g * d2 == 0) by (nonlinear_arith)
                        requires
                            d2 == 0,
                    ;
                }
            }
            assert(abs(num) == a2 as nat) by (nonlinear_arith)
                requires
                    num == sgn(nn) * a2,
                    a2 >= 0,
                    -1 <= sgn(nn) <= 1,
                    (abs(nn) == 0 <==> sgn(nn) == 0),
                    abs(nn) as int == g * a2,
                    g > 0,
                    (abs(num) as int == if num >= 0 { num } else { -num }),
            ;
        }
    }
}

/// Sum of two rationals, by cross-multiplication then reduction.
pub open spec fn rat_add(a: Rat, b: Rat) -> Rat {
    rat_make(a.n * b.d + b.n * a.d, a.d * b.d)
}

/// Difference of two rationals.
pub open spec fn rat_sub(a: Rat, b: Rat) -> Rat {
    rat_make(a.n * b.d - b.n * a.d, a.d * b.d)
}

/// Product of two rationals.
pub open spec fn rat_mul(a: Rat, b: Rat) -> Rat {
    rat_make(a.n * b.n, a.d * b.d)
}

/// Quotient of two rationals; a zero numerator on the right yields the
/// undefined sentinel.
pub open spec fn rat_div(a: Rat, b: Rat) -> Rat {
    rat_make(a.n * b.d, a.d * b.n)
}

/// Strict order by cross-multiplication (denominators are nonnegative).
pub open spec fn rat_gt(a: Rat, b: Rat) -> bool {
    a.n * b.d > b.n * a.d
}

/// Strict order, mirrored.
pub open spec fn rat_lt(a: Rat, b: Rat) -> bool {
    a.n * b.d < b.n * a.d
}

/// An exact fraction: `over` is the numerator, `under` the denominator,
/// following the field names the engine's rewrite rules read directly.
#[derive(Debug, Clone, Copy, PartialEq, Eq, Structural)]
pub struct Rationals {
    pub under: i64,
    pub over: i64,
}

impl View for Rationals {
    type V = Rat;

    open spec fn view(&self) -> Rat {
        Rat { n: self.over as int, d: self.under as int }
    }
}

/// Euclid's algorithm on nonnegative 128-bit integers.
fn gcd_i128(a0: i128, b0: i128) -> (g: i128)
    requires
        a0 >= 0,
        b0 >= 0,
    ensures
        g == gcd(a0 as nat, b0 as nat),
{
    let mut a: i128 = a0;
    let mut b: i128 = b0;
    while b != 0
        invariant
            a >= 0,
            b >= 0,
            gcd(a as nat, b as nat) == gcd(a0 as nat, b0 as nat),
        decreases b,
    {
        let r: i128 = a % b;
        a = b;
        b = r;
    }
    a
}

/// Normalize a 128-bit fraction into a reduced `Rationals`; the workhorse
/// behind every constructor and arithmetic operation.
fn make_i128(n: i128, d: i128) -> (r: Rationals)
    requires
        n > i128::MIN,
        d > i128::MIN,
    ensures
        r@ == rat_make(n as int, d as int),
        rat_wf(r@),
{
    proof {
        lemma_rat_make_wf(n as int, d as int);
    }
    if d == 0 {
        let s: i64 = if n > 0 {
            1
        } else if n < 0 {
            -1
        } else {
            0
        };
        Rationals { over: s, under: 0 }
    } else {
        let nn: i128 = if d < 0 {
            -n
        } else {
            n
        };
        let dd: i128 = if d < 0 {
            -d
        } else {
            d
        };
        let na: i128 = if nn < 0 {
            -nn
        } else {
            nn
        };
        let g: i128 = gcd_i128(na, dd);
        proof {
            lemma_gcd_divides(na as nat, dd as nat);
        }
        let a2: i128 = na / g;
        let d2: i128 = dd / g;
        let num: i128 = if nn < 0 {
            -a2
        } else {
            a2
        };
        proof {
            assert(num == sgn(nn as int) * (abs(nn as int) as int / g as int)) by (nonlinear_arith)
                requires
                    g > 0,
                    a2 == na as int / g as int,
                    na as int == abs(nn as int),
                    a2 >= 0,
                    num == if nn < 0 {
                        -a2 as int
                    } else {
                        a2 as int
                    },
                    sgn(nn as int) == (if nn > 0 {
                        1int
                    } else if nn < 0 {
                        -1int
                    } else {
                        0int
                    }),
                    (nn == 0 ==> a2 == 0) && a2 == na as int / g as int,
            ;
        }
        if num >= i64::MIN as i128 && num <= i64::MAX as i128 && d2 <= i64::MAX as i128 {
            Rationals { over: num as i64, under: d2 as i64 }
        } else {
            Rationals { over: 0, under: 0 }
        }
    }
}

/// Product of two `i64`s, carried out in 128 bits; the result is bounded
/// well inside the `i128` range.
fn mul_wide(x: i64, y: i64) -> (r: i128)
    ensures
        r == x as int * y as int,
        -0x40000000000000000000000000000000 <= r <= 0x40000000000000000000000000000000,
{
    proof {
        assert(-0x40000000000000000000000000000000 <= x as int * y as int
            <= 0x40000000000000000000000000000000) by (nonlinear_arith)
            requires
                -0x8000000000000000 <= x as int <= 0x7fffffffffffffff,
                -0x8000000000000000 <= y as int <= 0x7fffffffffffffff,
        ;
    }
    (x as i128) * (y as i128)
}

/// With both denominators nonnegative (the invariant), the two cross
/// products sum safely inside the `i128` range.
proof fn lemma_wide_sum_bound(a: int, b: int, c: int, d: int)
    requires
        in_i64(a),
        in_i64(c),
        0 <= b <= i64::MAX,
        0 <= d <= i64::MAX,
    ensures
        -0x80000000000000000000000000000000 < a * b + c * d < 0x80000000000000000000000000000000,
        -0x80000000000000000000000000000000 < a * b - c * d < 0x80000000000000000000000000000000,
{
    assert(-(0x40000000000000000000000000000000 - 0x8000000000000000) <= a * b
        <= 0x40000000000000000000000000000000 - 0x8000000000000000) by (nonlinear_arith)
        requires
            -0x8000000000000000 <= a <= 0x7fffffffffffffff,
            0 <= b <= 0x7fffffffffffffff,
    ;
    assert(-(0x40000000000000000000000000000000 - 0x8000000000000000) <= c * d
        <= 0x40000000000000000000000000000000 - 0x8000000000000000) by (nonlinear_arith)
        requires
            -0x8000000000000000 <= c <= 0x7fffffffffffffff,
            0 <= d <= 0x7fffffffffffffff,
    ;
}

/// Build a reduced `Rationals` from a wide numerator and denominator.
pub fn rat_from_parts(n: i128, d: i128) -> (r: Rationals)
    requires
        n > i128::MIN,
        d > i128::MIN,
    ensures
        r@ == rat_make(n as int, d as int),
        rat_wf(r@),
{
    make_i128(n, d)
}

impl Rationals {
    /// Build the reduced fraction `over / under` (denominator first, matching
    /// the engine's call sites).
    pub fn new(under: i64, over: i64) -> (r: Rationals)
        ensures
            r@ == rat_make(over as int, under as int),
            rat_wf(r@),
    {
        make_i128(over as i128, under as i128)
    }

    /// A well-formedness certificate for any value built by this module.
    pub open spec fn wf(self) -> bool {
        rat_wf(self@)
    }

    /// Sum, reduced.  Operands carry the reduction invariant, so the
    /// cross-multiplied sum stays within 128 bits.
    pub fn add(self, o: Rationals) -> (r: Rationals)
        requires
            rat_wf(self@),
            rat_wf(o@),
        ensures
            r@ == rat_add(self@, o@),
            rat_wf(r@),
    {
        proof {
            lemma_wide_sum_bound(self@.n, o@.d, o@.n, self@.d);
        }
        let n: i128 = mul_wide(self.over, o.under) + mul_wide(o.over, self.under);
        let d: i128 = mul_wide(self.under, o.under);
        make_i128(n, d)
    }

    /// Difference, reduced.  Operands carry the reduction invariant, so the
    /// cross-multiplied difference stays within 128 bits.
    pub fn sub(self, o: Rationals) -> (r: Rationals)
        requires
            rat_wf(self@),
            rat_wf(o@),
        ensures
            r@ == rat_sub(self@, o@),
            rat_wf(r@),
    {
        proof {
            lemma_wide_sum_bound(self@.n, o@.d, o@.n, self@.d);
        }
        let n: i128 = mul_wide(self.over, o.under) - mul_wide(o.over, self.under);
        let d: i128 = mul_wide(self.under, o.under);
        make_i128(n, d)
    }

    /// Product, reduced.
    pub fn mul(self, o: Rationals) -> (r: Rationals)
        ensures
            r@ == rat_mul(self@, o@),
            rat_wf(r@),
    {
        let n: i128 = mul_wide(self.over, o.over);
        let d: i128 = mul_wide(self.under, o.under);
        make_i128(n, d)
    }

    /// Quotient, reduced; dividing by a zero numerator gives the undefined
    /// sentinel.
    pub fn div(self, o: Rationals) -> (r: Rationals)
        ensures
            r@ == rat_div(self@, o@),
            rat_wf(r@),
    {
        let n: i128 = mul_wide(self.over, o.under);
        let d: i128 = mul_wide(self.under, o.over);
        make_i128(n, d)
    }

    /// Negation.
    pub fn opposite(self) -> (r: Rationals)
        ensures
            r@ == rat_make(-(self@.n), self@.d),
            rat_wf(r@),
    {
        make_i128(-(self.over as i128), self.under as i128)
    }

    /// Absolute value.
    pub fn abs(self) -> (r: Rationals)
        ensures
            r@ == rat_make(abs(self@.n) as int, self@.d),
            rat_wf(r@),
    {
        let n: i128 = if self.over < 0 {
            -(self.over as i128)
        } else {
            self.over as i128
        };
        make_i128(n, self.under as i128)
    }

    /// Multiplicative inverse; fails exactly when the numerator is zero.
    pub fn invert(self) -> (r: Result<Rationals, ()>)
        ensures
            self@.n == 0 <==> r is Err,
            self@.n != 0 ==> r is Ok && r->Ok_0@ == rat_make(self@.d, self@.n) && rat_wf(
                r->Ok_0@,
            ),
    {
        if self.over == 0 {
            Err(())
        } else {
            Ok(make_i128(self.under as i128, self.over as i128))
        }
    }

    /// Strict greater-than, by cross-multiplication.
    pub fn gt(self, o: Rationals) -> (r: bool)
        ensures
            r == rat_gt(self@, o@),
    {
        mul_wide(self.over, o.under) > mul_wide(o.over, self.under)
    }

    /// Strict less-than, by cross-multiplication.
    pub fn lt(self, o: Rationals) -> (r: bool)
        ensures
            r == rat_lt(self@, o@),
    {
        mul_wide(self.over, o.under) < mul_wide(o.over, self.under)
    }

    /// Greater-or-equal, by cross-multiplication.
    pub fn ge(self, o: Rationals) -> (r: bool)
        ensures
            r == !rat_lt(self@, o@),
    {
        mul_wide(self.over, o.under) >= mul_wide(o.over, self.under)
    }

    /// Less-or-equal, by cross-multiplication.
    pub fn le(self, o: Rationals) -> (r: bool)
        ensures
            r == !rat_gt(self@, o@),
    {
        mul_wide(self.over, o.under) <= mul_wide(o.over, self.under)
    }
}

} // verus!
