//! Tokenizing single symbols, numbers, identifiers and small expressions.

use mini_calc::lexer::Operator::DIVIDE;
use mini_calc::lexer::Operator::EQUALITY;
use mini_calc::lexer::Operator::MINUS;
use mini_calc::lexer::Operator::MULTIPLICATION;
use mini_calc::lexer::Operator::PLUS;
use mini_calc::lexer::Token::EQUAL;
use mini_calc::lexer::Token::FLOAT;
use mini_calc::lexer::Token::IDENTIFIER;
use mini_calc::lexer::Token::INT;
use mini_calc::lexer::Token::LPAR;
use mini_calc::lexer::Token::OPE;
use mini_calc::lexer::Token::RPAR;
use mini_calc::lexer::lex;

#[test]
fn lex_plus() {
    let mut expected = Vec::new();
    expected.push(OPE(PLUS));
    let result = lex("+".to_string());
    assert_eq!(result, expected)
}

#[test]
fn lex_minus() {
    let mut expected = Vec::new();
    expected.push(OPE(MINUS));
    let result = lex("-".to_string());
    assert_eq!(result, expected)
}

#[test]
fn lex_mult() {
    let mut expected = Vec::new();
    expected.push(OPE(MULTIPLICATION));
    let result = lex("*".to_string());
    assert_eq!(result, expected)
}

#[test]
fn lex_divide() {
    let mut expected = Vec::new();
    expected.push(OPE(DIVIDE));
    let result = lex("/".to_string());
    assert_eq!(result, expected)
}

#[test]
fn lex_operators() {
    let mut expected = Vec::new();
    expected.push(OPE(PLUS));
    expected.push(OPE(MULTIPLICATION));
    expected.push(OPE(MINUS));
    expected.push(OPE(DIVIDE));
    let result = lex("+*-/".to_string());
    assert_eq!(result, expected)
}

#[test]
fn lex_lpar() {
    let mut expected = Vec::new();
    expected.push(LPAR);
    let result = lex("(".to_string());
    assert_eq!(result, expected)
}

#[test]
fn lex_rpar() {
    let mut expected = Vec::new();
    expected.push(RPAR);
    let result = lex(")".to_string());
    assert_eq!(result, expected)
}

#[test]
fn lex_equal() {
    let mut expected = Vec::new();
    expected.push(EQUAL);
    let result = lex("=".to_string());
    assert_eq!(result, expected);
}

#[test]
fn lex_tokens() {
    let mut expected = Vec::new();
    expected.push(LPAR);
    expected.push(RPAR);
    expected.push(EQUAL);
    let result = lex("()=".to_string());
    assert_eq!(result, expected)
}

#[test]
fn lex_simple_int() {
    let mut expected = Vec::new();
    expected.push(INT(1));
    let result = lex("1".to_string());
    assert_eq!(result, expected);
}

#[test]
fn lex_complex_int() {
    let mut expected = Vec::new();
    expected.push(INT(100));
    let result = lex("100".to_string());
    assert_eq!(result, expected);
}

#[test]
fn lex_simple_string() {
    let mut expected = Vec::new();
    expected.push(IDENTIFIER("test".to_string()));
    let result = lex("test".to_string());
    assert_eq!(result, expected);
}

#[test]
fn test_complex_operation() {
    let mut expected = Vec::new();
    expected.push(INT(1));
    expected.push(OPE(PLUS));
    expected.push(INT(1));
    let result = lex("1 + 1".to_string());
    assert_eq!(result, expected);
}

#[test]
fn test_complex_equality() {
    let mut expected = Vec::new();
    expected.push(IDENTIFIER("var1".to_string()));
    expected.push(EQUAL);
    expected.push(INT(100));
    let result = lex("var1 = 100".to_string());
    assert_eq!(result, expected)
}

#[test]
fn test_simple_float() {
    let mut expected = Vec::new();
    expected.push(FLOAT(0, "14".to_string()));
    let result = lex(".14".to_string());
    assert_eq!(result, expected);
}

#[test]
fn test_complex_float() {
    let mut expected = Vec::new();
    expected.push(FLOAT(314, "05".to_string()));
    let result = lex("314.05".to_string());
    assert_eq!(result, expected)
}

#[test]
fn lex_boolean_words() {
    let result = lex("true and false or x".to_string());
    let mut expected = Vec::new();
    expected.push(mini_calc::lexer::Token::BOOL(true));
    expected.push(OPE(mini_calc::lexer::Operator::And));
    expected.push(mini_calc::lexer::Token::BOOL(false));
    expected.push(OPE(mini_calc::lexer::Operator::Or));
    expected.push(IDENTIFIER("x".to_string()));
    assert_eq!(result, expected);
}

#[test]
fn lex_comparison_assembly() {
    let result = lex("a <= b >= c == d".to_string());
    let mut expected = Vec::new();
    expected.push(IDENTIFIER("a".to_string()));
    expected.push(OPE(mini_calc::lexer::Operator::LesserOrEqual));
    expected.push(IDENTIFIER("b".to_string()));
    expected.push(OPE(mini_calc::lexer::Operator::GreaterOrEqual));
    expected.push(IDENTIFIER("c".to_string()));
    expected.push(OPE(EQUALITY));
    expected.push(IDENTIFIER("d".to_string()));
    assert_eq!(result, expected);
}

#[test]
fn lex_ampersands_assemble_and() {
    let result = lex("a && b".to_string());
    let mut expected = Vec::new();
    expected.push(IDENTIFIER("a".to_string()));
    expected.push(OPE(mini_calc::lexer::Operator::And));
    expected.push(IDENTIFIER("b".to_string()));
    assert_eq!(result, expected);
}
