//! The binary operator engine on concrete values: identities, exact
//! fractions, monomial folding, candidate selection and error sentinels.

use mini_calc::functions::add::add;
use mini_calc::functions::divide::divide;
use mini_calc::functions::expo::expo;
use mini_calc::functions::function::and;
use mini_calc::functions::function::equal;
use mini_calc::functions::function::greater;
use mini_calc::functions::function::greater_or_equal;
use mini_calc::functions::function::lesser;
use mini_calc::functions::function::lesser_or_equal;
use mini_calc::functions::function::not;
use mini_calc::functions::function::or;
use mini_calc::functions::minus::minus;
use mini_calc::functions::mult::mult;
use mini_calc::rational::Rationals;
use mini_calc::value::Parameters::Bool;
use mini_calc::value::Parameters::Identifier;
use mini_calc::value::Parameters::Int;
use mini_calc::value::Parameters::InterpreterVector;
use mini_calc::value::Parameters::Null;
use mini_calc::value::Parameters::Plus;
use mini_calc::value::Parameters::Rational;
use mini_calc::value::Parameters::Var;

#[test]
pub fn test_add_null() {
    let expected = Int(1);
    let result = add(Int(1), Null, None);
    assert_eq!(result, expected);
}

#[test]
pub fn test_add_simple() {
    let expected = Int(2);
    let result = add(Int(1), Int(1), None);
    assert_eq!(result, expected);
}

#[test]
pub fn test_minus_null() {
    let expected = Int(-1);
    let result = minus(Int(1), Null, None);
    assert_eq!(result, expected);
}

#[test]
pub fn test_minus_null_rev() {
    let expected = Int(-1);
    let result = minus(Null, Int(1), None);
    assert_eq!(result, expected);
}

#[test]
pub fn test_minus_simple() {
    let expected = Int(0);
    let result = minus(Int(1), Int(1), None);
    assert_eq!(result, expected);
}

#[test]
pub fn test_mult_null() {
    let expected = Int(1);
    let result = mult(Int(1), Null, None);
    assert_eq!(result, expected);
}

#[test]
pub fn test_mult_simple() {
    let expected = Int(2);
    let result = mult(Int(1), Int(2), None);
    assert_eq!(result, expected);
}

#[test]
pub fn test_divide_null() {
    let expected = Int(1);
    let result = divide(Int(1), Null, None);
    assert_eq!(result, expected);
}

#[test]
pub fn test_divide_simple() {
    let expected = Rational(Rationals { under: 1, over: 1 });
    let result = divide(Int(1), Int(1), None);
    assert_eq!(result, expected);
}

#[test]
fn null_is_additive_identity_for_rationals() {
    let r = Rationals::new(3, 2);
    assert_eq!(add(Null, Rational(r), None), Rational(r));
    assert_eq!(add(Rational(r), Null, None), Rational(r));
    assert_eq!(mult(Null, Rational(r), None), Rational(r));
    assert_eq!(mult(Rational(r), Null, None), Rational(r));
}

#[test]
fn null_is_multiplicative_identity_for_ints() {
    assert_eq!(mult(Null, Int(5), None), Int(5));
    assert_eq!(mult(Int(5), Null, None), Int(5));
    assert_eq!(divide(Int(5), Null, None), Int(5));
    assert_eq!(expo(Int(5), Null, None), Int(5));
}

#[test]
fn divide_ints_yields_reduced_fraction() {
    // 6 / 4 reduces to 3 / 2
    let result = divide(Int(6), Int(4), None);
    assert_eq!(result, Rational(Rationals { under: 2, over: 3 }));
}

#[test]
fn divide_by_zero_is_undefined_sentinel() {
    let result = divide(Int(5), Int(0), None);
    match result {
        Rational(r) => assert_eq!(r.under, 0),
        p => panic!("expected an undefined fraction, got {:?}", p),
    }
}

#[test]
fn round_trip_multiply_back() {
    // 4 does not divide 6: (6 / 4) * 4 == 6 exactly, as the fraction 6/1
    let q = divide(Int(6), Int(4), None);
    let back = mult(q, Int(4), None);
    assert_eq!(back, Rational(Rationals { under: 1, over: 6 }));
}

#[test]
fn round_trip_divides_evenly() {
    // 2 divides 6: the quotient is integral and the round trip restores Int
    let q = divide(Int(6), Int(2), None);
    assert_eq!(q, Rational(Rationals { under: 1, over: 3 }));
    let back = mult(q, Int(2), None);
    assert_eq!(back, Int(6));
}

#[test]
fn integral_fraction_times_int_collapses() {
    assert_eq!(mult(Rational(Rationals::new(1, 2)), Int(3), None), Int(6));
    // a non-integral fraction stays a fraction
    assert_eq!(
        mult(Rational(Rationals::new(2, 1)), Int(3), None),
        Rational(Rationals { under: 2, over: 3 })
    );
}

#[test]
fn divide_null_identity_for_rationals() {
    let r = Rationals::new(2, 3);
    assert_eq!(divide(Rational(r), Null, None), Rational(r));
    assert_eq!(divide(Null, Rational(r), None), Rational(r));
}

#[test]
fn monomial_fold_add() {
    let x1 = Var(Box::new(Int(1)), 1, "x".to_string());
    let x2 = Var(Box::new(Int(1)), 1, "x".to_string());
    let expected = Var(Box::new(Int(2)), 1, "x".to_string());
    assert_eq!(add(x1, x2, None), expected);
}

#[test]
fn monomial_fold_mult_with_identifier() {
    let x1 = Var(Box::new(Int(1)), 1, "x".to_string());
    let expected = Var(Box::new(Int(1)), 2, "x".to_string());
    assert_eq!(mult(x1, Identifier("x".to_string()), None), expected);
}

#[test]
fn multiply_identifiers_squares() {
    let result = mult(Identifier("x".to_string()), Identifier("x".to_string()), None);
    assert_eq!(result, Var(Box::new(Int(1)), 2, "x".to_string()));
}

#[test]
fn add_identifiers_doubles() {
    let result = add(Identifier("a".to_string()), Identifier("a".to_string()), None);
    assert_eq!(result, Var(Box::new(Int(2)), 1, "a".to_string()));
}

#[test]
fn add_distinct_identifiers_stays_symbolic() {
    let result = add(Identifier("a".to_string()), Identifier("b".to_string()), None);
    assert_eq!(
        result,
        Plus(
            Box::new(Identifier("a".to_string())),
            Box::new(Identifier("b".to_string()))
        )
    );
}

#[test]
fn rewrite_is_deterministic() {
    let lhs1 = Plus(Box::new(Identifier("a".to_string())), Box::new(Int(1)));
    let rhs1 = Plus(Box::new(Identifier("b".to_string())), Box::new(Int(2)));
    let lhs2 = Plus(Box::new(Identifier("a".to_string())), Box::new(Int(1)));
    let rhs2 = Plus(Box::new(Identifier("b".to_string())), Box::new(Int(2)));
    let first = add(lhs1, rhs1, None);
    let second = add(lhs2, rhs2, None);
    assert_eq!(first, second);
}

#[test]
fn sentinel_for_uncovered_pair() {
    let v = InterpreterVector(Box::new(vec![Int(1), Int(2)]));
    let result = add(Bool(true), v, None);
    match result {
        Identifier(s) => assert!(s.starts_with("@")),
        p => panic!("expected an error value, got {:?}", p),
    }
}

#[test]
fn vector_addition_is_elementwise() {
    let a = InterpreterVector(Box::new(vec![Int(1), Int(2)]));
    let b = InterpreterVector(Box::new(vec![Int(10), Int(20)]));
    let expected = InterpreterVector(Box::new(vec![Int(11), Int(22)]));
    assert_eq!(add(a, b, None), expected);
}

#[test]
fn vector_dot_product() {
    let a = InterpreterVector(Box::new(vec![Int(1), Int(2)]));
    let b = InterpreterVector(Box::new(vec![Int(3), Int(4)]));
    assert_eq!(mult(a, b, None), Int(11));
}

#[test]
fn matrix_product_one_by_one() {
    let a = InterpreterVector(Box::new(vec![InterpreterVector(Box::new(vec![Int(2)]))]));
    let b = InterpreterVector(Box::new(vec![InterpreterVector(Box::new(vec![Int(3)]))]));
    let expected = InterpreterVector(Box::new(vec![InterpreterVector(Box::new(vec![Int(6)]))]));
    assert_eq!(mult(a, b, None), expected);
}

#[test]
fn comparisons_on_ints() {
    assert_eq!(greater(Int(3), Int(2), None), Bool(true));
    assert_eq!(lesser(Int(3), Int(2), None), Bool(false));
    assert_eq!(greater_or_equal(Int(2), Int(2), None), Bool(true));
    assert_eq!(lesser_or_equal(Int(2), Int(2), None), Bool(true));
    assert_eq!(equal(Int(2), Int(2), None), Bool(true));
    assert_eq!(equal(Int(2), Int(3), None), Bool(false));
}

#[test]
fn comparisons_on_rationals() {
    let half = Rationals::new(2, 1);
    let third = Rationals::new(3, 1);
    assert_eq!(greater(Rational(half), Rational(third), None), Bool(true));
    assert_eq!(lesser(Rational(third), Rational(half), None), Bool(true));
}

#[test]
fn boolean_operators() {
    assert_eq!(and(Bool(true), Bool(false), None), Bool(false));
    assert_eq!(or(Bool(true), Bool(false), None), Bool(true));
    assert_eq!(not(Bool(true), Null, None), Bool(false));
}

#[test]
fn bool_passes_through_numeric_pairing() {
    // pairing a boolean with a number returns the number unchanged
    assert_eq!(add(Bool(true), Int(7), None), Int(7));
    assert_eq!(mult(Int(7), Bool(false), None), Int(7));
}
