//! The lexer: turns an input line into tokens.  A decimal literal is kept
//! exactly as written (whole part and fraction digits), so nothing is lost
//! before the interpreter turns it into a fraction.  `lex` ensures its
//! result equals `spec_lex`, the mathematical model of the whole scan.

use vstd::prelude::*;

verus! {

use vstd::string::StrSliceExecFns;
use vstd::string::StringExecFns;

/// A binary or unary operator symbol.
#[derive(Debug, Clone, Copy, PartialEq, Eq)]
pub enum Operator {
    PLUS,
    MINUS,
    MULTIPLICATION,
    DIVIDE,
    EXPO,
    EQUALITY,
    GreaterOrEqual,
    GreaterThan,
    LesserThan,
    LesserOrEqual,
    NOT,
    Or,
    And,
}

/// One lexed token.  `FLOAT` carries the literal exactly: its whole part and
/// its fraction digits as written.
#[derive(Debug, Clone, PartialEq)]
pub enum Token {
    OPE(Operator),
    IDENTIFIER(String),
    INT(i64),
    FLOAT(i64, String),
    EQUAL,
    RPAR,
    LPAR,
    QUOTE,
    COMMA,
    RBRACKET,
    LBRACKET,
    WHITESPACE,
    PreAnd,
    PreOr,
    BOOL(bool),
}

/// Mathematical shadow of `Token`.
pub ghost enum TokV {
    OPE(Operator),
    IDENTIFIER(Seq<char>),
    INT(int),
    FLOAT(int, Seq<char>),
    EQUAL,
    RPAR,
    LPAR,
    QUOTE,
    COMMA,
    RBRACKET,
    LBRACKET,
    WHITESPACE,
    PreAnd,
    PreOr,
    BOOL(bool),
}

impl View for Token {
    type V = TokV;

    open spec fn view(&self) -> TokV {
        match self {
            Token::OPE(o) => TokV::OPE(*o),
            Token::IDENTIFIER(s) => TokV::IDENTIFIER(s@),
            Token::INT(i) => TokV::INT(*i as int),
            Token::FLOAT(w, f) => TokV::FLOAT(*w as int, f@),
            Token::EQUAL => TokV::EQUAL,
            Token::RPAR => TokV::RPAR,
            Token::LPAR => TokV::LPAR,
            Token::QUOTE => TokV::QUOTE,
            Token::COMMA => TokV::COMMA,
            Token::RBRACKET => TokV::RBRACKET,
            Token::LBRACKET => TokV::LBRACKET,
            Token::WHITESPACE => TokV::WHITESPACE,
            Token::PreAnd => TokV::PreAnd,
            Token::PreOr => TokV::PreOr,
            Token::BOOL(b) => TokV::BOOL(*b),
        }
    }
}

/// Elementwise mathematical view of a token run.
pub open spec fn tok_views(v: Seq<Token>) -> Seq<TokV>
    decreases v,
{
    if v.len() == 0 {
        Seq::empty()
    } else {
        proof {
            assert(decreases_to!(v => v.subrange(0, v.len() - 1)));
            assert(decreases_to!(v => v[v.len() - 1]));
        }
        tok_views(v.drop_last()).push(v.last()@)
    }
}

/// `tok_views` is the elementwise map of the view.
pub proof fn lemma_tok_views(v: Seq<Token>)
    ensures
        tok_views(v).len() == v.len(),
        forall|i: int| 0 <= i < v.len() ==> #[trigger] tok_views(v)[i] == v[i]@,
    decreases v.len(),
{
    if v.len() > 0 {
        lemma_tok_views(v.drop_last());
        assert forall|i: int| 0 <= i < v.len() implies #[trigger] tok_views(v)[i] == v[i]@ by {
            if i < v.len() - 1 {
                assert(tok_views(v)[i] == tok_views(v.drop_last())[i]);
                assert(v.drop_last()[i] == v[i]);
            } else {
                assert(v.last() == v[i]);
            }
        }
    }
}

/// What `char::is_alphanumeric` answers beyond ASCII: a fixed function of
/// the character (the Unicode tables).
pub uninterp spec fn unicode_alphanumeric(c: char) -> bool;

/// What `char::is_alphabetic` answers beyond ASCII.
pub uninterp spec fn unicode_alphabetic(c: char) -> bool;

/// What `char::is_numeric` answers beyond ASCII.
pub uninterp spec fn unicode_numeric(c: char) -> bool;

/// Alphanumeric characters: on ASCII exactly the digits and letters,
/// beyond ASCII whatever the Unicode tables say.
pub open spec fn is_alphanumeric_char(c: char) -> bool {
    if (c as u32) < 128 {
        (48 <= (c as u32) && (c as u32) <= 57) || (65 <= (c as u32) && (c as u32) <= 90) || (97
            <= (c as u32) && (c as u32) <= 122)
    } else {
        unicode_alphanumeric(c)
    }
}

/// Alphabetic characters: on ASCII exactly the letters.
pub open spec fn is_alphabetic_char(c: char) -> bool {
    if (c as u32) < 128 {
        (65 <= (c as u32) && (c as u32) <= 90) || (97 <= (c as u32) && (c as u32) <= 122)
    } else {
        unicode_alphabetic(c)
    }
}

/// Numeric characters: on ASCII exactly the digits.
pub open spec fn is_numeric_char(c: char) -> bool {
    if (c as u32) < 128 {
        48 <= (c as u32) && (c as u32) <= 57
    } else {
        unicode_numeric(c)
    }
}

/// ASCII lowercasing: an upper-case letter moves down 32 code points,
/// anything else is unchanged.
pub open spec fn lower_char(c: char) -> char {
    if 65 <= (c as u32) && (c as u32) <= 90 {
        (((c as u32) + 32) as u8) as char
    } else {
        c
    }
}

/// Relies on `char::is_alphanumeric`: on ASCII it holds exactly of digits
/// and letters; beyond ASCII it is a fixed function of the character.
#[verifier::external_body]
fn char_is_alphanumeric(c: char) -> (r: bool)
    ensures
        r == is_alphanumeric_char(c),
        (c as u32) >= 128 ==> r == unicode_alphanumeric(c),
{
    c.is_alphanumeric()
}

/// Relies on `char::is_alphabetic`: on ASCII it holds exactly of letters;
/// beyond ASCII it is a fixed function of the character.
#[verifier::external_body]
fn char_is_alphabetic(c: char) -> (r: bool)
    ensures
        r == is_alphabetic_char(c),
        (c as u32) >= 128 ==> r == unicode_alphabetic(c),
{
    c.is_alphabetic()
}

/// Relies on `char::is_numeric`: on ASCII it holds exactly of digits;
/// beyond ASCII it is a fixed function of the character.
#[verifier::external_body]
fn char_is_numeric(c: char) -> (r: bool)
    ensures
        r == is_numeric_char(c),
        (c as u32) >= 128 ==> r == unicode_numeric(c),
{
    c.is_numeric()
}

/// Relies on `char::to_ascii_lowercase`: an ASCII upper-case letter moves
/// down by 32 code points, anything else is returned unchanged.
#[verifier::external_body]
fn char_to_ascii_lowercase(c: char) -> (r: char)
    ensures
        r == lower_char(c),
{
    c.to_ascii_lowercase()
}

/// Relies on `char::to_string`: the string of exactly this one character.
#[verifier::external_body]
fn char_to_string(c: char) -> (r: String)
    ensures
        r@ == seq![c],
{
    c.to_string()
}

/// Whether a character may appear in an expression at all.
pub open spec fn spec_allowed_char(c: char) -> bool {
    is_alphanumeric_char(c) || c == '+' || c == '-' || c == '*' || c == '/' || c == '(' || c == ')'
        || c == '"' || c == '.' || c == '=' || c == '^' || c == ',' || c == '!' || c == '<' || c
        == '>' || c == '|' || c == '&' || c == '[' || c == ']' || c == '_' || c == ' '
}

/// Whether a character may appear in an expression at all.
pub fn is_an_allowed_char(character: char) -> (r: bool)
    ensures
        r == spec_allowed_char(character),
{
    char_is_alphanumeric(character) || character == '+' || character == '-' || character == '*'
        || character == '/' || character == '(' || character == ')' || character == '"'
        || character == '.' || character == '=' || character == '^' || character == ','
        || character == '!' || character == '<' || character == '>' || character == '|'
        || character == '&' || character == '[' || character == ']' || character == '_'
        || character == ' '
}

/// Whether a character is an ASCII digit.
pub open spec fn spec_digit(c: char) -> bool {
    48 <= (c as u32) && (c as u32) <= 57
}

/// Whether a character is an ASCII digit.
fn is_digit_char(c: char) -> (r: bool)
    ensures
        r == spec_digit(c),
{
    let u = c as u32;
    48 <= u && u <= 57
}

/// Position right after the run of ASCII digits starting at `pos`.
pub open spec fn spec_digit_run_end(chars: Seq<char>, pos: int) -> int
    decreases (if chars.len() - pos > 0 {
        chars.len() - pos
    } else {
        0
    }),
{
    if pos < 0 || pos >= chars.len() {
        pos
    } else if !spec_digit(chars[pos]) {
        pos
    } else {
        spec_digit_run_end(chars, pos + 1)
    }
}

/// Position right after the run of ASCII digits starting at `pos`.
fn digit_run_end(chars: &Vec<char>, pos: usize) -> (e: usize)
    requires
        pos <= chars@.len(),
    ensures
        pos <= e <= chars@.len(),
        e as int == spec_digit_run_end(chars@, pos as int),
    decreases chars@.len() - pos as int,
{
    if pos >= chars.len() {
        pos
    } else if !is_digit_char(chars[pos]) {
        pos
    } else {
        digit_run_end(chars, pos + 1)
    }
}

/// Numeric value of one ASCII digit, zero for anything else.
pub open spec fn spec_digit_val(c: char) -> int {
    if spec_digit(c) {
        (c as u32) - 48
    } else {
        0
    }
}

/// Scan digits from `i` up to `e`, folding their value with an overflow
/// flag; once the accumulator leaves the machine range it is pinned to zero.
pub open spec fn spec_int_scan(chars: Seq<char>, i: int, e: int, acc: int, over: bool) -> (
    int,
    bool,
)
    decreases (if e - i > 0 {
        e - i
    } else {
        0
    }),
{
    if i < 0 || i >= e {
        (acc, over)
    } else {
        let d = spec_digit_val(chars[i]);
        if !over {
            if acc * 10 + d > i64::MAX {
                spec_int_scan(chars, i + 1, e, 0, true)
            } else {
                spec_int_scan(chars, i + 1, e, acc * 10 + d, false)
            }
        } else {
            spec_int_scan(chars, i + 1, e, acc, over)
        }
    }
}

/// The parsed value of the digit run starting at `pos`: the run's integer,
/// or zero when it does not fit a machine integer.
pub open spec fn spec_int_run_val(chars: Seq<char>, pos: int) -> int {
    let sc = spec_int_scan(chars, pos, spec_digit_run_end(chars, pos), 0, false);
    if sc.1 {
        0
    } else {
        sc.0
    }
}

/// Scan digits with the running accumulator.
fn int_scan(chars: &Vec<char>, i: usize, e: usize, acc: i64, over: bool) -> (r: (i64, bool))
    requires
        e <= chars@.len(),
        0 <= acc,
    ensures
        (r.0 as int, r.1) == spec_int_scan(chars@, i as int, e as int, acc as int, over),
        r.0 >= 0,
    decreases (if e as int - i as int > 0 {
        e as int - i as int
    } else {
        0
    }),
{
    if i >= e {
        (acc, over)
    } else {
        let u = chars[i] as u32;
        let d: i64 = if 48 <= u && u <= 57 {
            (u - 48) as i64
        } else {
            0
        };
        if !over {
            let wide: i128 = (acc as i128) * 10 + (d as i128);
            if wide > i64::MAX as i128 {
                int_scan(chars, i + 1, e, 0, true)
            } else {
                int_scan(chars, i + 1, e, wide as i64, false)
            }
        } else {
            int_scan(chars, i + 1, e, acc, over)
        }
    }
}

/// The value of the digit run starting at `pos` and the position after it.
fn lex_int(current_char: char, chars: &Vec<char>, current_pos: usize, len: usize) -> (r: (
    i64,
    usize,
))
    requires
        len == chars@.len(),
        current_pos <= len,
    ensures
        current_pos <= r.1 <= len,
        r.0 as int == spec_int_run_val(chars@, current_pos as int),
        r.1 as int == spec_digit_run_end(chars@, current_pos as int),
{
    let e = digit_run_end(chars, current_pos);
    let sc = int_scan(chars, current_pos, e, 0, false);
    if sc.1 {
        (0, e)
    } else {
        (sc.0, e)
    }
}

/// The digits of the run starting at `pos`, as written.
fn lex_raddix(current_char: char, chars: &Vec<char>, fs: &str, current_pos: usize, len: usize) -> (
    r: (String, usize))
    requires
        len == chars@.len(),
        fs@ == chars@,
        current_pos <= len,
    ensures
        current_pos <= r.1 <= len,
        r.1 as int == spec_digit_run_end(chars@, current_pos as int),
        r.0@ == chars@.subrange(current_pos as int, r.1 as int),
{
    let e = digit_run_end(chars, current_pos);
    let s = fs.substring_char(current_pos, e).to_owned();
    (s, e)
}

/// Position right after the identifier run that starts before `pos`.
pub open spec fn spec_ident_run_end(chars: Seq<char>, pos: int) -> int
    decreases (if chars.len() - pos > 0 {
        chars.len() - pos
    } else {
        0
    }),
{
    if pos < 0 || pos >= chars.len() {
        pos
    } else if !(is_alphanumeric_char(chars[pos]) || chars[pos] == '_') {
        pos
    } else {
        spec_ident_run_end(chars, pos + 1)
    }
}

/// Position right after the identifier run continuing at `pos`.
fn ident_run_end(chars: &Vec<char>, pos: usize) -> (e: usize)
    requires
        pos <= chars@.len(),
    ensures
        pos <= e <= chars@.len(),
        e as int == spec_ident_run_end(chars@, pos as int),
    decreases chars@.len() - pos as int,
{
    if pos >= chars.len() {
        pos
    } else if !(char_is_alphanumeric(chars[pos]) || chars[pos] == '_') {
        pos
    } else {
        ident_run_end(chars, pos + 1)
    }
}

/// The maximal identifier run starting at `current_pos`, its first
/// character replaced by the (already lowercased) `current_char`.
fn lex_string(
    current_char: char,
    fs: &str,
    chars: &Vec<char>,
    current_pos: usize,
    len: usize,
) -> (r: (String, usize))
    requires
        len == chars@.len(),
        fs@ == chars@,
        current_pos < len,
    ensures
        current_pos < r.1 <= len,
        r.1 as int == spec_ident_run_end(chars@, current_pos as int + 1),
        r.0@ == seq![current_char] + chars@.subrange(current_pos as int + 1, r.1 as int),
{
    let e = ident_run_end(chars, current_pos + 1);
    let rest = fs.substring_char(current_pos + 1, e);
    let s = char_to_string(current_char).concat(rest);
    (s, e)
}

/// The fraction digits after a dot: the decimal literal's whole part paired
/// with its fraction digits as written, and the position after them.
fn lex_float(
    whole_side: i64,
    fs: &str,
    chars: &Vec<char>,
    current_pos: usize,
    len: usize,
) -> (r: ((i64, String), usize))
    requires
        len == chars@.len(),
        fs@ == chars@,
        current_pos < len,
    ensures
        current_pos < r.1 <= len,
        r.1 as int == spec_digit_run_end(chars@, current_pos as int + 1),
        r.0.0 == whole_side,
        r.0.1@ == chars@.subrange(current_pos as int + 1, r.1 as int),
{
    let fr = lex_raddix(' ', chars, fs, current_pos + 1, len);
    ((whole_side, fr.0), fr.1)
}

/// `tok_views` maps a push to a push.
proof fn lemma_tok_views_push(v: Seq<Token>, t: Token)
    ensures
        tok_views(v.push(t)) == tok_views(v).push(t@),
{
    assert(v.push(t).drop_last() =~= v);
    assert(v.push(t).last() == t);
    assert(v.push(t).len() == v.len() + 1);
}

/// The digit run never moves backwards and stays inside the input.
pub proof fn lemma_digit_run_end_bounds(chars: Seq<char>, pos: int)
    ensures
        pos <= spec_digit_run_end(chars, pos),
        pos <= chars.len() ==> spec_digit_run_end(chars, pos) <= chars.len(),
    decreases (if chars.len() - pos > 0 {
        chars.len() - pos
    } else {
        0
    }),
{
    if !(pos < 0 || pos >= chars.len()) && spec_digit(chars[pos]) {
        lemma_digit_run_end_bounds(chars, pos + 1);
    }
}

/// The identifier run never moves backwards and stays inside the input.
pub proof fn lemma_ident_run_end_bounds(chars: Seq<char>, pos: int)
    ensures
        pos <= spec_ident_run_end(chars, pos),
        pos <= chars.len() ==> spec_ident_run_end(chars, pos) <= chars.len(),
    decreases (if chars.len() - pos > 0 {
        chars.len() - pos
    } else {
        0
    }),
{
    if !(pos < 0 || pos >= chars.len()) && (is_alphanumeric_char(chars[pos]) || chars[pos] == '_') {
        lemma_ident_run_end_bounds(chars, pos + 1);
    }
}

/// One scan step of the lexer's model: classify the (lowercased) character
/// at `pos`, extend the accumulated tokens, move on.
pub open spec fn spec_lex_core(chars: Seq<char>, pos: int, qodd: bool, acc: Seq<TokV>) -> Seq<TokV>
    decreases (if chars.len() - pos > 0 {
        chars.len() - pos
    } else {
        0
    }),
{
    if pos < 0 || pos >= chars.len() {
        acc
    } else {
        let c = lower_char(chars[pos]);
        if !spec_allowed_char(c) {
            spec_lex_core(chars, pos + 1, qodd, acc)
        } else if c == '+' {
            spec_lex_core(chars, pos + 1, qodd, acc.push(TokV::OPE(Operator::PLUS)))
        } else if c == '-' {
            spec_lex_core(chars, pos + 1, qodd, acc.push(TokV::OPE(Operator::MINUS)))
        } else if c == '*' {
            spec_lex_core(chars, pos + 1, qodd, acc.push(TokV::OPE(Operator::MULTIPLICATION)))
        } else if c == '/' {
            spec_lex_core(chars, pos + 1, qodd, acc.push(TokV::OPE(Operator::DIVIDE)))
        } else if c == ')' {
            spec_lex_core(chars, pos + 1, qodd, acc.push(TokV::RPAR))
        } else if c == '(' {
            spec_lex_core(chars, pos + 1, qodd, acc.push(TokV::LPAR))
        } else if c == '>' {
            spec_lex_core(chars, pos + 1, qodd, acc.push(TokV::OPE(Operator::GreaterThan)))
        } else if c == '<' {
            spec_lex_core(chars, pos + 1, qodd, acc.push(TokV::OPE(Operator::LesserThan)))
        } else if c == '"' {
            spec_lex_core(chars, pos + 1, !qodd, acc.push(TokV::QUOTE))
        } else if c == '=' {
            let acc2 = if acc.len() > 0 && acc.last() == TokV::EQUAL {
                acc.drop_last().push(TokV::OPE(Operator::EQUALITY))
            } else if acc.len() > 0 && acc.last() == TokV::OPE(Operator::LesserThan) {
                acc.drop_last().push(TokV::OPE(Operator::LesserOrEqual))
            } else if acc.len() > 0 && acc.last() == TokV::OPE(Operator::GreaterThan) {
                acc.drop_last().push(TokV::OPE(Operator::GreaterOrEqual))
            } else {
                acc.push(TokV::EQUAL)
            };
            spec_lex_core(chars, pos + 1, qodd, acc2)
        } else if c == '&' {
            let acc2 = if acc.len() > 0 && acc.last() == TokV::PreAnd {
                acc.drop_last().push(TokV::OPE(Operator::And))
            } else {
                acc.push(TokV::PreAnd)
            };
            spec_lex_core(chars, pos + 1, qodd, acc2)
        } else if c == '|' {
            let acc2 = if acc.len() > 0 && acc.last() == TokV::PreOr {
                acc.drop_last().push(TokV::OPE(Operator::Or))
            } else {
                acc.push(TokV::PreOr)
            };
            spec_lex_core(chars, pos + 1, qodd, acc2)
        } else if c == '^' {
            spec_lex_core(chars, pos + 1, qodd, acc.push(TokV::OPE(Operator::EXPO)))
        } else if c == ',' {
            spec_lex_core(chars, pos + 1, qodd, acc.push(TokV::COMMA))
        } else if c == '!' {
            spec_lex_core(chars, pos + 1, qodd, acc.push(TokV::OPE(Operator::NOT)))
        } else if c == ']' {
            spec_lex_core(chars, pos + 1, qodd, acc.push(TokV::RBRACKET))
        } else if c == '[' {
            spec_lex_core(chars, pos + 1, qodd, acc.push(TokV::LBRACKET))
        } else if c == ' ' {
            spec_lex_core(
                chars,
                pos + 1,
                qodd,
                if qodd {
                    acc.push(TokV::WHITESPACE)
                } else {
                    acc
                },
            )
        } else if is_numeric_char(c) {
            let a = spec_int_run_val(chars, pos);
            let b = spec_digit_run_end(chars, pos);
            proof {
                lemma_digit_run_end_bounds(chars, pos);
                lemma_digit_run_end_bounds(chars, b + 1);
            }
            if b < chars.len() && chars[b] == '.' {
                let e = spec_digit_run_end(chars, b + 1);
                spec_lex_core(
                    chars,
                    e,
                    qodd,
                    acc.push(TokV::FLOAT(a, chars.subrange(b + 1, e))),
                )
            } else {
                spec_lex_core(
                    chars,
                    (if b > pos {
                        b
                    } else {
                        pos + 1
                    }),
                    qodd,
                    acc.push(TokV::INT(a)),
                )
            }
        } else if is_alphabetic_char(c) || c == '_' {
            let b = spec_ident_run_end(chars, pos + 1);
            proof {
                lemma_ident_run_end_bounds(chars, pos + 1);
            }
            let name = seq![c] + chars.subrange(pos + 1, b);
            let tok = if name == "false"@ {
                TokV::BOOL(false)
            } else if name == "true"@ {
                TokV::BOOL(true)
            } else if name == "or"@ {
                TokV::OPE(Operator::Or)
            } else if name == "and"@ {
                TokV::OPE(Operator::And)
            } else if name == "geq"@ {
                TokV::OPE(Operator::GreaterOrEqual)
            } else if name == "leq"@ {
                TokV::OPE(Operator::LesserOrEqual)
            } else if name == "lt"@ {
                TokV::OPE(Operator::LesserThan)
            } else if name == "gt"@ {
                TokV::OPE(Operator::GreaterThan)
            } else if name == "eq"@ {
                TokV::OPE(Operator::EQUALITY)
            } else {
                TokV::IDENTIFIER(name)
            };
            spec_lex_core(chars, b, qodd, acc.push(tok))
        } else if c == '.' {
            let e = spec_digit_run_end(chars, pos + 1);
            proof {
                lemma_digit_run_end_bounds(chars, pos + 1);
            }
            spec_lex_core(chars, e, qodd, acc.push(TokV::FLOAT(0, chars.subrange(pos + 1, e))))
        } else {
            spec_lex_core(chars, pos + 1, qodd, acc)
        }
    }
}

/// Drop the partial `&`/`|` tokens that never completed an operator.
pub open spec fn spec_strip_partial(toks: Seq<TokV>) -> Seq<TokV>
    decreases toks.len(),
{
    if toks.len() == 0 {
        Seq::empty()
    } else {
        let rest = spec_strip_partial(toks.drop_last());
        if toks.last() == TokV::PreAnd || toks.last() == TokV::PreOr {
            rest
        } else {
            rest.push(toks.last())
        }
    }
}

/// The tokens of a whole input line: the scan from the start, with partial
/// operators stripped.
pub open spec fn spec_lex(input: Seq<char>) -> Seq<TokV> {
    spec_strip_partial(spec_lex_core(input, 0, false, Seq::empty()))
}

/// Scan the input from `pos` on, extending the tokens gathered so far.
#[verifier::rlimit(100)]
fn lex_core(chars: &Vec<char>, fs: &str, pos: usize, qodd: bool, vec: Vec<Token>) -> (r: Vec<
    Token,
>)
    requires
        fs@ == chars@,
    ensures
        tok_views(r@) == spec_lex_core(chars@, pos as int, qodd, tok_views(vec@)),
    decreases (if chars@.len() - pos as int > 0 {
        chars@.len() - pos as int
    } else {
        0
    }),
{
    let length = chars.len();
    if pos >= length {
        return vec;
    }
    let c = char_to_ascii_lowercase(chars[pos]);
    if !is_an_allowed_char(c) {
        lex_core(chars, fs, pos + 1, qodd, vec)
    } else if c == '+' {
        let mut v = vec;
        v.push(Token::OPE(Operator::PLUS));
        proof {
            lemma_tok_views_push(vec@, Token::OPE(Operator::PLUS));
        }
        lex_core(chars, fs, pos + 1, qodd, v)
    } else if c == '-' {
        let mut v = vec;
        v.push(Token::OPE(Operator::MINUS));
        proof {
            lemma_tok_views_push(vec@, Token::OPE(Operator::MINUS));
        }
        lex_core(chars, fs, pos + 1, qodd, v)
    } else if c == '*' {
        let mut v = vec;
        v.push(Token::OPE(Operator::MULTIPLICATION));
        proof {
            lemma_tok_views_push(vec@, Token::OPE(Operator::MULTIPLICATION));
        }
        lex_core(chars, fs, pos + 1, qodd, v)
    } else if c == '/' {
        let mut v = vec;
        v.push(Token::OPE(Operator::DIVIDE));
        proof {
            lemma_tok_views_push(vec@, Token::OPE(Operator::DIVIDE));
        }
        lex_core(chars, fs, pos + 1, qodd, v)
    } else if c == ')' {
        let mut v = vec;
        v.push(Token::RPAR);
        proof {
            lemma_tok_views_push(vec@, Token::RPAR);
        }
        lex_core(chars, fs, pos + 1, qodd, v)
    } else if c == '(' {
        let mut v = vec;
        v.push(Token::LPAR);
        proof {
            lemma_tok_views_push(vec@, Token::LPAR);
        }
        lex_core(chars, fs, pos + 1, qodd, v)
    } else if c == '>' {
        let mut v = vec;
        v.push(Token::OPE(Operator::GreaterThan));
        proof {
            lemma_tok_views_push(vec@, Token::OPE(Operator::GreaterThan));
        }
        lex_core(chars, fs, pos + 1, qodd, v)
    } else if c == '<' {
        let mut v = vec;
        v.push(Token::OPE(Operator::LesserThan));
        proof {
            lemma_tok_views_push(vec@, Token::OPE(Operator::LesserThan));
        }
        lex_core(chars, fs, pos + 1, qodd, v)
    } else if c == '"' {
        let mut v = vec;
        v.push(Token::QUOTE);
        proof {
            lemma_tok_views_push(vec@, Token::QUOTE);
        }
        lex_core(chars, fs, pos + 1, !qodd, v)
    } else if c == '=' {
        let mut v = vec;
        match v.pop() {
            Some(Token::EQUAL) => {
                v.push(Token::OPE(Operator::EQUALITY));
                proof {
                    assert(tok_views(vec@) == tok_views(vec@.drop_last()).push(vec@.last()@));
                    assert(tok_views(vec@).drop_last() =~= tok_views(vec@.drop_last()));
                    lemma_tok_views_push(vec@.drop_last(), Token::OPE(Operator::EQUALITY));
                }
            },
            Some(Token::OPE(Operator::LesserThan)) => {
                v.push(Token::OPE(Operator::LesserOrEqual));
                proof {
                    assert(tok_views(vec@) == tok_views(vec@.drop_last()).push(vec@.last()@));
                    assert(tok_views(vec@).drop_last() =~= tok_views(vec@.drop_last()));
                    lemma_tok_views_push(vec@.drop_last(), Token::OPE(Operator::LesserOrEqual));
                }
            },
            Some(Token::OPE(Operator::GreaterThan)) => {
                v.push(Token::OPE(Operator::GreaterOrEqual));
                proof {
                    assert(tok_views(vec@) == tok_views(vec@.drop_last()).push(vec@.last()@));
                    assert(tok_views(vec@).drop_last() =~= tok_views(vec@.drop_last()));
                    lemma_tok_views_push(vec@.drop_last(), Token::OPE(Operator::GreaterOrEqual));
                }
            },
            Some(p) => {
                proof {
                    assert(vec@.drop_last().push(vec@.last()) =~= vec@);
                }
                v.push(p);
                v.push(Token::EQUAL);
                proof {
                    lemma_tok_views_push(vec@, Token::EQUAL);
                }
            },
            None => {
                v.push(Token::EQUAL);
                proof {
                    lemma_tok_views_push(vec@, Token::EQUAL);
                }
            },
        }
        lex_core(chars, fs, pos + 1, qodd, v)
    } else if c == '&' {
        let mut v = vec;
        match v.pop() {
            Some(Token::PreAnd) => {
                v.push(Token::OPE(Operator::And));
                proof {
                    assert(tok_views(vec@) == tok_views(vec@.drop_last()).push(vec@.last()@));
                    assert(tok_views(vec@).drop_last() =~= tok_views(vec@.drop_last()));
                    lemma_tok_views_push(vec@.drop_last(), Token::OPE(Operator::And));
                }
            },
            Some(p) => {
                proof {
                    assert(vec@.drop_last().push(vec@.last()) =~= vec@);
                }
                v.push(p);
                v.push(Token::PreAnd);
                proof {
                    lemma_tok_views_push(vec@, Token::PreAnd);
                }
            },
            None => {
                v.push(Token::PreAnd);
                proof {
                    lemma_tok_views_push(vec@, Token::PreAnd);
                }
            },
        }
        lex_core(chars, fs, pos + 1, qodd, v)
    } else if c == '|' {
        let mut v = vec;
        match v.pop() {
            Some(Token::PreOr) => {
                v.push(Token::OPE(Operator::Or));
                proof {
                    assert(tok_views(vec@) == tok_views(vec@.drop_last()).push(vec@.last()@));
                    assert(tok_views(vec@).drop_last() =~= tok_views(vec@.drop_last()));
                    lemma_tok_views_push(vec@.drop_last(), Token::OPE(Operator::Or));
                }
            },
            Some(p) => {
                proof {
                    assert(vec@.drop_last().push(vec@.last()) =~= vec@);
                }
                v.push(p);
                v.push(Token::PreOr);
                proof {
                    lemma_tok_views_push(vec@, Token::PreOr);
                }
            },
            None => {
                v.push(Token::PreOr);
                proof {
                    lemma_tok_views_push(vec@, Token::PreOr);
                }
            },
        }
        lex_core(chars, fs, pos + 1, qodd, v)
    } else if c == '^' {
        let mut v = vec;
        v.push(Token::OPE(Operator::EXPO));
        proof {
            lemma_tok_views_push(vec@, Token::OPE(Operator::EXPO));
        }
        lex_core(chars, fs, pos + 1, qodd, v)
    } else if c == ',' {
        let mut v = vec;
        v.push(Token::COMMA);
        proof {
            lemma_tok_views_push(vec@, Token::COMMA);
        }
        lex_core(chars, fs, pos + 1, qodd, v)
    } else if c == '!' {
        let mut v = vec;
        v.push(Token::OPE(Operator::NOT));
        proof {
            lemma_tok_views_push(vec@, Token::OPE(Operator::NOT));
        }
        lex_core(chars, fs, pos + 1, qodd, v)
    } else if c == ']' {
        let mut v = vec;
        v.push(Token::RBRACKET);
        proof {
            lemma_tok_views_push(vec@, Token::RBRACKET);
        }
        lex_core(chars, fs, pos + 1, qodd, v)
    } else if c == '[' {
        let mut v = vec;
        v.push(Token::LBRACKET);
        proof {
            lemma_tok_views_push(vec@, Token::LBRACKET);
        }
        lex_core(chars, fs, pos + 1, qodd, v)
    } else if c == ' ' {
        let mut v = vec;
        if qodd {
            v.push(Token::WHITESPACE);
            proof {
                lemma_tok_views_push(vec@, Token::WHITESPACE);
            }
        }
        lex_core(chars, fs, pos + 1, qodd, v)
    } else if char_is_numeric(c) {
        let ab = lex_int(c, chars, pos, length);
        let a = ab.0;
        let b = ab.1;
        if b < length && chars[b] == '.' {
            let de = lex_float(a, fs, chars, b, length);
            let mut v = vec;
            let t = Token::FLOAT(de.0.0, de.0.1);
            proof {
                lemma_tok_views_push(vec@, t);
            }
            v.push(t);
            lex_core(chars, fs, de.1, qodd, v)
        } else {
            let mut v = vec;
            let t = Token::INT(a);
            proof {
                lemma_tok_views_push(vec@, t);
            }
            v.push(t);
            let np = if b > pos {
                b
            } else {
                pos + 1
            };
            lex_core(chars, fs, np, qodd, v)
        }
    } else if char_is_alphabetic(c) || c == '_' {
        let ab = lex_string(c, fs, chars, pos, length);
        let a = ab.0;
        let b = ab.1;
        let t = if a == "false".to_owned() {
            Token::BOOL(false)
        } else if a == "true".to_owned() {
            Token::BOOL(true)
        } else if a == "or".to_owned() {
            Token::OPE(Operator::Or)
        } else if a == "and".to_owned() {
            Token::OPE(Operator::And)
        } else if a == "geq".to_owned() {
            Token::OPE(Operator::GreaterOrEqual)
        } else if a == "leq".to_owned() {
            Token::OPE(Operator::LesserOrEqual)
        } else if a == "lt".to_owned() {
            Token::OPE(Operator::LesserThan)
        } else if a == "gt".to_owned() {
            Token::OPE(Operator::GreaterThan)
        } else if a == "eq".to_owned() {
            Token::OPE(Operator::EQUALITY)
        } else {
            Token::IDENTIFIER(a)
        };
        let mut v = vec;
        proof {
            lemma_tok_views_push(vec@, t);
        }
        v.push(t);
        lex_core(chars, fs, b, qodd, v)
    } else if c == '.' {
        let de = lex_float(0, fs, chars, pos, length);
        let mut v = vec;
        let t = Token::FLOAT(de.0.0, de.0.1);
        proof {
            lemma_tok_views_push(vec@, t);
        }
        v.push(t);
        lex_core(chars, fs, de.1, qodd, v)
    } else {
        lex_core(chars, fs, pos + 1, qodd, vec)
    }
}

/// Drop the partial `&`/`|` tokens that never completed an operator.
fn strip_partial(toks: Vec<Token>) -> (r: Vec<Token>)
    ensures
        tok_views(r@) == spec_strip_partial(tok_views(toks@)),
        forall|i: int|
            0 <= i < r@.len() ==> !((#[trigger] r@[i]) is PreAnd) && !(r@[i] is PreOr),
    decreases toks@.len(),
{
    let mut rest = toks;
    match rest.pop() {
        None => rest,
        Some(t) => {
            proof {
                assert(tok_views(toks@) == tok_views(toks@.drop_last()).push(toks@.last()@));
                assert(tok_views(toks@).drop_last() =~= tok_views(toks@.drop_last()));
            }
            let mut out = strip_partial(rest);
            match t {
                Token::PreAnd => out,
                Token::PreOr => out,
                other => {
                    proof {
                        lemma_tok_views_push(out@, other);
                    }
                    out.push(other);
                    out
                },
            }
        },
    }
}

/// Lex a whole input line into tokens: exactly the scan `spec_lex`
/// describes — characters outside the allowed set are skipped, `&&`, `||`,
/// `==`, `<=`, `>=` are assembled from their parts, and a lone `&` or `|`
/// is dropped at the end, so no partial operator survives.
pub fn lex(input: String) -> (r: Vec<Token>)
    ensures
        tok_views(r@) == spec_lex(input@),
        forall|i: int|
            0 <= i < r@.len() ==> !((#[trigger] r@[i]) is PreAnd) && !(r@[i] is PreOr),
{
    let fs = input.as_str();
    let length = fs.unicode_len();
    let mut chars: Vec<char> = Vec::new();
    let mut ci: usize = 0;
    while ci < length
        invariant
            0 <= ci <= length,
            length == fs@.len(),
            chars@.len() == ci as int,
            chars@ =~= fs@.subrange(0, ci as int),
        decreases length - ci,
    {
        chars.push(fs.get_char(ci));
        ci = ci + 1;
    }
    proof {
        assert(chars@ =~= fs@);
    }
    let start: Vec<Token> = Vec::new();
    proof {
        assert(tok_views(start@) =~= Seq::<TokV>::empty());
    }
    let raw = lex_core(&chars, fs, 0, false, start);
    strip_partial(raw)
}

} // verus!
