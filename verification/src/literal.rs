//! Conversion from parsed SQL literal syntax into values: the minimal
//! literal contract the core depends on, a verified signed-decimal text
//! parser, and the bridge from sqlparser's literal syntax tree.

use vstd::prelude::*;
use vstd::string::StrSliceExecFns;
use sqlparser::ast::Value as SqlAstValue;
use crate::value::{DataType, Value, ValueError};

verus! {

/// What the value core reads from a parsed SQL literal: a numeric literal
/// with its textual form, a boolean literal with its truth value, or some
/// other literal kind that no value kind here represents. A SQL front end
/// maps its own literal syntax into this contract.
#[derive(Clone, Debug, PartialEq, Eq)]
pub enum Literal {
    Number(String),
    Boolean(bool),
    Other,
}

/// Whether a character is a decimal digit.
pub open spec fn is_digit(c: char) -> bool {
    48 <= c as int && c as int <= 57
}

/// The value of a decimal digit character.
pub open spec fn digit_val(c: char) -> int {
    c as int - 48
}

/// Whether every character of `s` is a decimal digit.
pub open spec fn all_digits(s: Seq<char>) -> bool {
    forall|i: int| 0 <= i < s.len() ==> is_digit(#[trigger] s[i])
}

/// The number that a sequence of decimal digits denotes, most significant
/// first.
pub open spec fn digits_value(s: Seq<char>) -> int
    decreases s.len(),
{
    if s.len() == 0 {
        0
    } else {
        digits_value(s.drop_last()) * 10 + digit_val(s.last())
    }
}

/// The integer that a literal's text denotes, if the text is an optional
/// sign followed by one or more decimal digits and nothing else (the same
/// shape Rust's integer parsing accepts, before any width bound).
pub open spec fn parsed_int(s: Seq<char>) -> Option<int> {
    if s.len() > 0 && (s[0] == '-' || s[0] == '+') {
        let digits = s.subrange(1, s.len() as int);
        if digits.len() > 0 && all_digits(digits) {
            Some(if s[0] == '-' { -digits_value(digits) } else { digits_value(digits) })
        } else {
            None
        }
    } else {
        if s.len() > 0 && all_digits(s) {
            Some(digits_value(s))
        } else {
            None
        }
    }
}

/// What converting a numeric literal's text under a declared data type
/// yields: the parsed integer as the matching kind when the text parses
/// and fits that kind's width, `LiteralParseError` when it does not, and
/// `UnsupportedType` when the data type is not an integer kind.
pub open spec fn spec_from_number(text: Seq<char>, data_type: DataType) -> Result<
    Value,
    ValueError,
> {
    match data_type {
        DataType::TinyInt => match parsed_int(text) {
            Some(n) => if -0x80 <= n && n <= 0x7f {
                Ok(Value::TinyInt(n as i8))
            } else {
                Err(ValueError::LiteralParseError)
            },
            None => Err(ValueError::LiteralParseError),
        },
        DataType::SmallInt => match parsed_int(text) {
            Some(n) => if -0x8000 <= n && n <= 0x7fff {
                Ok(Value::SmallInt(n as i16))
            } else {
                Err(ValueError::LiteralParseError)
            },
            None => Err(ValueError::LiteralParseError),
        },
        DataType::Integer => match parsed_int(text) {
            Some(n) => if -0x80000000 <= n && n <= 0x7fffffff {
                Ok(Value::Integer(n as i32))
            } else {
                Err(ValueError::LiteralParseError)
            },
            None => Err(ValueError::LiteralParseError),
        },
        DataType::Boolean => Err(ValueError::UnsupportedType),
        DataType::Varchar => Err(ValueError::UnsupportedType),
    }
}

/// What converting a literal under a declared data type yields: a boolean
/// literal is taken directly whatever the data type, a numeric literal goes
/// by `spec_from_number`, and any other literal kind is
/// `UnsupportedLiteral`.
pub open spec fn spec_from_literal(lit: Literal, data_type: DataType) -> Result<
    Value,
    ValueError,
> {
    match lit {
        Literal::Number(text) => spec_from_number(text@, data_type),
        Literal::Boolean(b) => Ok(Value::Boolean(b)),
        Literal::Other => Err(ValueError::UnsupportedLiteral),
    }
}

/// A sequence of digits denotes a number that is not negative.
proof fn lemma_digits_value_nonneg(s: Seq<char>)
    requires
        all_digits(s),
    ensures
        digits_value(s) >= 0,
    decreases s.len(),
{
    if s.len() > 0 {
        assert forall|i: int| 0 <= i < s.drop_last().len() implies is_digit(
            #[trigger] s.drop_last()[i],
        ) by {
            assert(s.drop_last()[i] == s[i]);
        }
        lemma_digits_value_nonneg(s.drop_last());
    }
}

/// Parses `text` as a signed decimal integer and returns it when it lies
/// in `min ..= max`, and `None` when the text does not parse or the value
/// lies outside that range.
fn parse_int_in_range(text: &str, min: i64, max: i64) -> (r: Option<i64>)
    requires
        -0x100000000 <= min < 0,
        0 < max <= 0x100000000,
    ensures
        match parsed_int(text@) {
            Some(n) => if min <= n && n <= max {
                r == Some(n as i64)
            } else {
                r is None
            },
            None => r is None,
        },
{
    let n_chars: usize = text.unicode_len();
    if n_chars == 0 {
        return None;
    }
    let c0: char = text.get_char(0);
    let neg: bool = c0 == '-';
    let has_sign: bool = c0 == '-' || c0 == '+';
    let start: usize = if has_sign {
        1
    } else {
        0
    };
    if n_chars == start {
        // a bare sign has no digits
        return None;
    }
    let cap: i64 = if neg {
        -min
    } else {
        max
    };
    // `acc` carries the digits' value, saturated at `cap + 1` so that a
    // too-large magnitude is detected without unbounded arithmetic.
    let mut acc: i64 = 0;
    let mut i: usize = start;
    while i < n_chars
        invariant
            n_chars == text@.len(),
            start <= i <= n_chars,
            start < n_chars,
            -0x100000000 <= min < 0,
            0 < max <= 0x100000000,
            neg == (text@[0] == '-'),
            has_sign == (text@[0] == '-' || text@[0] == '+'),
            start == (if has_sign { 1int } else { 0int }),
            cap as int == (if neg { -(min as int) } else { max as int }),
            1 <= cap <= 0x100000000,
            all_digits(text@.subrange(start as int, i as int)),
            ({
                let dv = digits_value(text@.subrange(start as int, i as int));
                acc as int == (if dv > cap { cap + 1int } else { dv })
            }),
            0 <= acc <= cap + 1,
        decreases n_chars - i,
    {
        let c: char = text.get_char(i);
        let code: u32 = c as u32;
        if code < 48 || code > 57 {
            proof {
                let s = text@;
                assert(!is_digit(s[i as int]));
                if has_sign {
                    let digits = s.subrange(1, s.len() as int);
                    assert(digits[i - 1] == s[i as int]);
                    assert(!all_digits(digits));
                } else {
                    assert(!all_digits(s));
                }
            }
            return None;
        }
        let d: i64 = (code - 48) as i64;
        let ghost prev = text@.subrange(start as int, i as int);
        let ghost cur = text@.subrange(start as int, i + 1int);
        proof {
            assert(cur.drop_last() =~= prev);
            assert(cur.last() == text@[i as int]);
            assert(is_digit(text@[i as int]));
            assert forall|j: int| 0 <= j < cur.len() implies is_digit(#[trigger] cur[j]) by {
                if j < prev.len() {
                    assert(cur[j] == prev[j]);
                }
            }
            lemma_digits_value_nonneg(prev);
        }
        if acc <= cap {
            acc = acc * 10 + d;
            if acc > cap {
                acc = cap + 1;
            }
        }
        i = i + 1;
    }
    let ghost s = text@;
    let ghost digits = if has_sign {
        s.subrange(1, s.len() as int)
    } else {
        s
    };
    proof {
        assert(s.subrange(start as int, n_chars as int) =~= digits);
    }
    if acc > cap {
        // all digits, but the magnitude exceeds the width's bound
        return None;
    }
    if neg {
        Some(-acc)
    } else {
        Some(acc)
    }
}

impl Value {
    /// Converts a parsed SQL literal into a value of the kind that
    /// `data_type` declares: a numeric literal's text is parsed as a
    /// signed integer of the declared width, a boolean literal is taken
    /// directly whatever the data type, and the three failure kinds are
    /// reported as distinct errors.
    pub fn from_literal(literal: &Literal, data_type: DataType) -> (r: Result<Self, ValueError>)
        ensures
            r == spec_from_literal(*literal, data_type),
    {
        match literal {
            Literal::Number(text) => match data_type {
                DataType::TinyInt => match parse_int_in_range(text.as_str(), -0x80, 0x7f) {
                    Some(v) => Ok(Self::TinyInt(v as i8)),
                    None => Err(ValueError::LiteralParseError),
                },
                DataType::SmallInt => match parse_int_in_range(text.as_str(), -0x8000, 0x7fff) {
                    Some(v) => Ok(Self::SmallInt(v as i16)),
                    None => Err(ValueError::LiteralParseError),
                },
                DataType::Integer => match parse_int_in_range(
                    text.as_str(),
                    -0x80000000,
                    0x7fffffff,
                ) {
                    Some(v) => Ok(Self::Integer(v as i32)),
                    None => Err(ValueError::LiteralParseError),
                },
                DataType::Boolean => Err(ValueError::UnsupportedType),
                DataType::Varchar => Err(ValueError::UnsupportedType),
            },
            Literal::Boolean(b) => Ok(Self::Boolean(*b)),
            Literal::Other => Err(ValueError::UnsupportedLiteral),
        }
    }

    /// Converts one of sqlparser's literal syntax nodes into a value of
    /// the kind that `data_type` declares, by mapping the node onto the
    /// `Literal` contract and converting that.
    pub fn from_sqlparser_value(value: &SqlAstValue, data_type: DataType) -> (r: Result<
        Self,
        ValueError,
    >)
        ensures
            r == spec_from_literal(ast_literal(*value), data_type),
    {
        let lit = literal_of_ast(value);
        Self::from_literal(&lit, data_type)
    }
}

/// The declaration of sqlparser's literal syntax node type, so that it can
/// stand in signatures; the node is opaque here.
#[verifier::external_type_specification]
#[verifier::external_body]
pub struct ExSqlValue(SqlAstValue);

/// The literal that one of sqlparser's syntax nodes maps to; it depends
/// on the node alone.
pub uninterp spec fn ast_literal(v: SqlAstValue) -> Literal;

/// Relies on sqlparser's `ast::Value` enum shape: its `Number` variant
/// carries the literal's textual form, its `Boolean` variant carries the
/// truth value, and every other variant is a literal kind that no value
/// kind here represents.
#[verifier::external_body]
fn literal_of_ast(value: &SqlAstValue) -> (r: Literal)
    ensures
        r == ast_literal(*value),
{
    match value {
        SqlAstValue::Number(text, _) => Literal::Number(text.clone()),
        SqlAstValue::Boolean(b) => Literal::Boolean(*b),
        _ => Literal::Other,
    }
}

} // verus!
