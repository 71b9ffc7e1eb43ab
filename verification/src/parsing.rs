//! Between lexer and interpreter: turning tokens into expression-tree
//! values, and the superscript rendering of exponents.

use vstd::prelude::*;

verus! {

use crate::lexer::Operator;
use crate::lexer::Token;
use crate::value::Parameters;
use crate::value::Val;
use vstd::string::StringExecFns;

/// The value a token denotes as an expression-tree node.
pub open spec fn spec_token_to_parameter(token: Token) -> Val {
    match token {
        Token::INT(i) => Val::Int(i as int),
        Token::FLOAT(w, f) => Val::Decimal(w as int, f@),
        Token::IDENTIFIER(s) => Val::Identifier(s@),
        Token::OPE(Operator::PLUS) => Val::PlusOperation,
        Token::OPE(Operator::MINUS) => Val::MinusOperation,
        Token::OPE(Operator::MULTIPLICATION) => Val::MultiplicationOperation,
        Token::OPE(Operator::DIVIDE) => Val::DivideOperation,
        Token::OPE(Operator::EXPO) => Val::ExpoOperation,
        Token::OPE(Operator::EQUALITY) => Val::Equal,
        Token::OPE(Operator::GreaterOrEqual) => Val::GreaterOrEqualOperation,
        Token::OPE(Operator::GreaterThan) => Val::GreaterOperation,
        Token::OPE(Operator::LesserThan) => Val::LesserOperation,
        Token::OPE(Operator::LesserOrEqual) => Val::LesserOrEqualOperation,
        Token::OPE(Operator::NOT) => Val::Not,
        Token::OPE(Operator::Or) => Val::OrOperation,
        Token::OPE(Operator::And) => Val::AndOperation,
        Token::EQUAL => Val::Assign,
        Token::BOOL(b) => Val::Bool(b),
        Token::RBRACKET => Val::Vector(Seq::empty()),
        _ => Val::Null,
    }
}

/// Turn a token into the expression-tree node it denotes.
pub fn token_to_parameter(token: Token) -> (r: Parameters)
    ensures
        r@ == spec_token_to_parameter(token),
{
    match token {
        Token::INT(i) => Parameters::Int(i),
        Token::FLOAT(w, f) => Parameters::Decimal(w, f),
        Token::IDENTIFIER(s) => Parameters::Identifier(s),
        Token::OPE(Operator::PLUS) => Parameters::PlusOperation,
        Token::OPE(Operator::MINUS) => Parameters::MinusOperation,
        Token::OPE(Operator::MULTIPLICATION) => Parameters::MultiplicationOperation,
        Token::OPE(Operator::DIVIDE) => Parameters::DivideOperation,
        Token::OPE(Operator::EXPO) => Parameters::ExpoOperation,
        Token::OPE(Operator::EQUALITY) => Parameters::Equal,
        Token::OPE(Operator::GreaterOrEqual) => Parameters::GreaterOrEqualOperation,
        Token::OPE(Operator::GreaterThan) => Parameters::GreaterOperation,
        Token::OPE(Operator::LesserThan) => Parameters::LesserOperation,
        Token::OPE(Operator::LesserOrEqual) => Parameters::LesserOrEqualOperation,
        Token::OPE(Operator::NOT) => Parameters::Not,
        Token::OPE(Operator::Or) => Parameters::OrOperation,
        Token::OPE(Operator::And) => Parameters::AndOperation,
        Token::EQUAL => Parameters::Assign,
        Token::BOOL(b) => Parameters::Bool(b),
        Token::RBRACKET => {
            let empty: Vec<crate::value::Ast> = Vec::new();
            proof {
                crate::value::lemma_ast_views(empty@);
                assert(crate::value::ast_views(empty@) =~= Seq::<crate::value::AstV>::empty());
            }
            Parameters::Vector(Box::new(empty))
        },
        _ => Parameters::Null,
    }
}

/// The superscript character of one decimal digit.
pub open spec fn sup_digit(d: int) -> char {
    if d == 0 {
        '\u{2070}'
    } else if d == 1 {
        '\u{00b9}'
    } else if d == 2 {
        '\u{00b2}'
    } else if d == 3 {
        '\u{00b3}'
    } else if d == 4 {
        '\u{2074}'
    } else if d == 5 {
        '\u{2075}'
    } else if d == 6 {
        '\u{2076}'
    } else if d == 7 {
        '\u{2077}'
    } else if d == 8 {
        '\u{2078}'
    } else {
        '\u{2079}'
    }
}

/// The superscript digits of a nonnegative number.
pub open spec fn sup_digits(n: nat) -> Seq<char>
    decreases n,
{
    if n < 10 {
        seq![sup_digit(n as int)]
    } else {
        sup_digits(n / 10) + seq![sup_digit((n % 10) as int)]
    }
}

/// The superscript rendering of an exponent: `"error"` for zero, empty for
/// one, a leading superscript minus for negative numbers.
pub open spec fn superscript_of(i: int) -> Seq<char> {
    if i == 0 {
        "error"@
    } else if i == 1 {
        Seq::empty()
    } else if i < 0 {
        seq!['\u{207b}'] + sup_digits((-i) as nat)
    } else {
        sup_digits(i as nat)
    }
}

/// The superscript string of one digit.
fn sup_digit_str(d: u64) -> (r: &'static str)
    requires
        d < 10,
    ensures
        r@ == seq![sup_digit(d as int)],
{
    if d == 0 {
        proof {
            reveal_strlit("\u{2070}");
        }
        "\u{2070}"
    } else if d == 1 {
        proof {
            reveal_strlit("\u{00b9}");
        }
        "\u{00b9}"
    } else if d == 2 {
        proof {
            reveal_strlit("\u{00b2}");
        }
        "\u{00b2}"
    } else if d == 3 {
        proof {
            reveal_strlit("\u{00b3}");
        }
        "\u{00b3}"
    } else if d == 4 {
        proof {
            reveal_strlit("\u{2074}");
        }
        "\u{2074}"
    } else if d == 5 {
        proof {
            reveal_strlit("\u{2075}");
        }
        "\u{2075}"
    } else if d == 6 {
        proof {
            reveal_strlit("\u{2076}");
        }
        "\u{2076}"
    } else if d == 7 {
        proof {
            reveal_strlit("\u{2077}");
        }
        "\u{2077}"
    } else if d == 8 {
        proof {
            reveal_strlit("\u{2078}");
        }
        "\u{2078}"
    } else {
        proof {
            reveal_strlit("\u{2079}");
        }
        "\u{2079}"
    }
}

/// Render the superscript digits of a nonnegative number.
fn sup_digits_exec(n: u64) -> (s: String)
    ensures
        s@ == sup_digits(n as nat),
    decreases n,
{
    if n < 10 {
        sup_digit_str(n).to_owned()
    } else {
        let mut s = sup_digits_exec(n / 10);
        s.append(sup_digit_str(n % 10));
        s
    }
}

/// Render an exponent in superscript digits, `"error"` for zero and the
/// empty string for one.
pub fn int_to_superscript_string(i: i64) -> (r: String)
    ensures
        r@ == superscript_of(i as int),
{
    if i == 0 {
        "error".to_owned()
    } else if i == 1 {
        String::new()
    } else if i < 0 {
        let m: u64 = (-(i as i128)) as u64;
        proof {
            reveal_strlit("\u{207b}");
        }
        let mut s = "\u{207b}".to_owned();
        let digits = sup_digits_exec(m);
        s.append(digits.as_str());
        s
    } else {
        sup_digits_exec(i as u64)
    }
}

} // verus!
