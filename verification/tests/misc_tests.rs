//! Rationals, the size metric, builtins and the presentation helpers.

use mini_calc::float_mode::FloatMode;
use mini_calc::lexer::Operator;
use mini_calc::lexer::Token;
use mini_calc::parsing::int_to_superscript_string;
use mini_calc::parsing::token_to_parameter;
use mini_calc::rational::Rationals;
use mini_calc::stdlib::exec;
use mini_calc::stdlib::fact;
use mini_calc::symbolic::size;
use mini_calc::value::Parameters;

#[test]
fn rationals_are_reduced_on_construction() {
    // 6 / 4 reduces to 3 / 2 with a positive denominator
    let r = Rationals::new(4, 6);
    assert_eq!(r.over, 3);
    assert_eq!(r.under, 2);
    // sign moves to the numerator
    let r2 = Rationals::new(-4, 6);
    assert_eq!(r2.over, -3);
    assert_eq!(r2.under, 2);
    // zero denominator is the undefined sentinel
    let r3 = Rationals::new(0, 5);
    assert_eq!(r3.under, 0);
}

#[test]
fn rational_arithmetic_is_exact() {
    let a = Rationals::new(2, 1);  // 1/2
    let b = Rationals::new(3, 1);  // 1/3
    let s = a.add(b);  // 5/6
    assert_eq!(s.over, 5);
    assert_eq!(s.under, 6);
    let d = a.sub(b);  // 1/6
    assert_eq!(d.over, 1);
    assert_eq!(d.under, 6);
    let p = a.mul(b);  // 1/6
    assert_eq!(p.over, 1);
    assert_eq!(p.under, 6);
    let q = a.div(b);  // 3/2
    assert_eq!(q.over, 3);
    assert_eq!(q.under, 2);
}

#[test]
fn rational_invert_fails_on_zero() {
    let z = Rationals::new(1, 0);
    assert!(z.invert().is_err());
    let h = Rationals::new(2, 1);
    let i = h.invert().unwrap();
    assert_eq!(i.over, 2);
    assert_eq!(i.under, 1);
}

#[test]
fn test_size() {
    let should = 2;
    let tree = Parameters::Plus(
        Box::new(Parameters::Plus(
            Box::new(Parameters::Int(1)),
            Box::new(Parameters::Int(2)),
        )),
        Box::new(Parameters::Int(3)),
    );
    let result = size(&tree);
    assert_eq!(result, should);
}

#[test]
fn test_leaf() {
    let v = vec![
        Parameters::Null,
        Parameters::Int(1),
        Parameters::Str("".to_string()),
        Parameters::Identifier("".to_string()),
        Parameters::PlusOperation,
        Parameters::MinusOperation,
        Parameters::MultiplicationOperation,
        Parameters::DivideOperation,
        Parameters::Assign,
        Parameters::ExpoOperation,
        Parameters::GreaterOperation,
        Parameters::GreaterOrEqualOperation,
        Parameters::LesserOperation,
        Parameters::LesserOrEqualOperation,
        Parameters::Equal,
        Parameters::Bool(false),
        Parameters::Rational(Rationals::new(10, 10)),
        Parameters::OrOperation,
        Parameters::AndOperation,
        Parameters::Not,
        Parameters::Vector(Box::new(vec![mini_calc::value::Ast::Nil])),
        Parameters::InterpreterVector(Box::new(vec![Parameters::Null])),
    ];
    for p in v {
        assert_eq!(size(&p), 0);
    }
}

#[test]
fn fact_small_values() {
    assert_eq!(fact(0), 1);
    assert_eq!(fact(1), 1);
    assert_eq!(fact(5), 120);
    assert_eq!(fact(10), 3628800);
}

#[test]
fn exec_dispatches_builtins() {
    let r = exec("fact".to_string(), vec![Parameters::Int(5)], None, None);
    assert_eq!(r, Parameters::Int(120));
    let r2 = exec("factorial".to_string(), vec![Parameters::Int(4)], None, None);
    assert_eq!(r2, Parameters::Int(24));
    let r3 = exec("abs".to_string(), vec![Parameters::Int(-5)], None, None);
    assert_eq!(r3, Parameters::Int(5));
}

#[test]
fn exec_unknown_name_is_error() {
    let r = exec("cos".to_string(), vec![Parameters::Int(1)], None, None);
    match r {
        Parameters::Identifier(s) => assert!(s.starts_with("@")),
        p => panic!("expected an error value, got {:?}", p),
    }
}

#[test]
fn abs_of_rational() {
    let r = exec(
        "abs".to_string(),
        vec![Parameters::Rational(Rationals::new(2, -3))],
        None,
        None,
    );
    assert_eq!(r, Parameters::Rational(Rationals::new(2, 3)));
}

#[test]
fn abs_method_on_values() {
    assert_eq!(Parameters::Int(-4).abs(None), Parameters::Int(4));
    assert_eq!(
        Parameters::Rational(Rationals::new(2, -3)).abs(None),
        Parameters::Rational(Rationals::new(2, 3))
    );
    assert_eq!(Parameters::Identifier("x".to_string()).abs(None), Parameters::Null);
    assert_eq!(Parameters::Bool(true).abs(None), Parameters::Null);
}

#[test]
fn superscript_rendering() {
    assert_eq!(int_to_superscript_string(0), "error".to_string());
    assert_eq!(int_to_superscript_string(1), "".to_string());
    assert_eq!(int_to_superscript_string(2), "\u{00b2}".to_string());
    assert_eq!(int_to_superscript_string(23), "\u{00b2}\u{00b3}".to_string());
    assert_eq!(
        int_to_superscript_string(-12),
        "\u{207b}\u{00b9}\u{00b2}".to_string()
    );
}

#[test]
fn float_mode_names() {
    assert_eq!(FloatMode::Normal.describe(), "normal".to_string());
    assert_eq!(FloatMode::Exact.describe(), "exact/rational".to_string());
    assert_eq!(FloatMode::Science.describe(), "science/scientific".to_string());
}

#[test]
fn tokens_become_parameters() {
    assert_eq!(token_to_parameter(Token::INT(3)), Parameters::Int(3));
    assert_eq!(
        token_to_parameter(Token::FLOAT(3, "14".to_string())),
        Parameters::Decimal(3, "14".to_string())
    );
    assert_eq!(
        token_to_parameter(Token::IDENTIFIER("x".to_string())),
        Parameters::Identifier("x".to_string())
    );
    assert_eq!(token_to_parameter(Token::OPE(Operator::PLUS)), Parameters::PlusOperation);
    assert_eq!(token_to_parameter(Token::EQUAL), Parameters::Assign);
    assert_eq!(token_to_parameter(Token::LPAR), Parameters::Null);
}

#[test]
fn is_an_allowed_char_covers_symbols() {
    assert!(mini_calc::lexer::is_an_allowed_char('a'));
    assert!(mini_calc::lexer::is_an_allowed_char('7'));
    assert!(mini_calc::lexer::is_an_allowed_char('+'));
    assert!(mini_calc::lexer::is_an_allowed_char(' '));
    assert!(mini_calc::lexer::is_an_allowed_char('['));
    assert!(!mini_calc::lexer::is_an_allowed_char('#'));
    assert!(!mini_calc::lexer::is_an_allowed_char('~'));
}
