//! Recursive-descent, operator-precedence parser from formula text to an
//! expression tree, generic over any value/function/operator types that
//! expose a parse capability.
//!
//! Grammar (precedence high to low, left-associative):
//! ```text
//! add  := mul ( ('+'|'-') mul )*
//! mul  := term ( ('*'|'/') term )*
//! term := '(' add ')' | variable | constant | function term
//! variable := 'z' | 'c'
//! ```
//! Binary operators are lookahead-gated: after a complete left operand the
//! parser folds in an operator only if the next character belongs to that
//! precedence level, which is what disambiguates a leading `-` (a unary
//! negation at `term` level) from an infix `-`.
use vstd::prelude::*;

use crate::algebra::{Complex, Ring};
use crate::expression::{ComplexFunction, Expr, FieldFunction, FieldOperator, Variable};
use crate::rational::Rational;

verus! {

/// Classification of a parse failure.
#[derive(Debug, Clone, Copy, PartialEq, Eq, Structural)]
pub enum ParseErrorKind {
    /// No grammar alternative matched at the position.
    NotMatched,
    /// A complete expression was parsed but input remains.
    TrailingInput,
}

/// A parse failure: the position where the unconsumed remainder begins, and
/// a classification of what was expected there.
#[derive(Debug, Clone, Copy, PartialEq, Eq, Structural)]
pub struct ParseError {
    pub at: usize,
    pub kind: ParseErrorKind,
}

impl ParseError {
    /// The unconsumed remainder of `s` that this failure reports.
    pub fn remainder<'a>(&self, s: &'a str) -> (r: &'a str)
        requires
            self.at <= s@.len(),
        ensures
            r@ == s@.subrange(self.at as int, s@.len() as int),
    {
        s.substring_char(self.at, s.unicode_len())
    }
}

/// A decimal digit.
pub open spec fn is_digit(c: char) -> bool {
    48 <= c as u32 <= 57
}

/// The value of a decimal digit.
pub open spec fn digit_val(c: char) -> int {
    c as u32 - 48
}

/// The position of the first non-digit character at or after `pos`.
pub open spec fn spec_scan_digits(s: Seq<char>, pos: int) -> int
    decreases s.len() - pos
        when 0 <= pos <= s.len()
{
    if pos < s.len() && is_digit(s[pos]) {
        spec_scan_digits(s, pos + 1)
    } else {
        pos
    }
}

proof fn lemma_scan_digits(s: Seq<char>, pos: int)
    requires
        0 <= pos <= s.len(),
    ensures
        pos <= spec_scan_digits(s, pos) <= s.len(),
        forall|j: int| pos <= j < spec_scan_digits(s, pos) ==> is_digit(#[trigger] s[j]),
        spec_scan_digits(s, pos) < s.len() ==> !is_digit(s[spec_scan_digits(s, pos)]),
    decreases s.len() - pos,
{
    if pos < s.len() && is_digit(s[pos]) {
        lemma_scan_digits(s, pos + 1);
    }
}

/// The value of the decimal digit run `s[pos..end)`.
pub open spec fn spec_digits_val(s: Seq<char>, pos: int, end: int) -> int
    decreases end - pos
        when pos <= end
{
    if pos >= end {
        0
    } else {
        spec_digits_val(s, pos, end - 1) * 10 + digit_val(s[end - 1])
    }
}

/// Ten to the power `n`.
pub open spec fn spec_pow10(n: nat) -> int
    decreases n,
{
    if n == 0 {
        1
    } else {
        10 * spec_pow10((n - 1) as nat)
    }
}

proof fn lemma_pow10_bounds(n: nat)
    requires
        n <= 18,
    ensures
        1 <= spec_pow10(n) <= 1000000000000000000,
    decreases n,
{
    reveal_with_fuel(spec_pow10, 19);
    if n > 0 {
        lemma_pow10_bounds((n - 1) as nat);
    }
}

/// A digit run of length `k` denotes a value below ten to the `k`.
proof fn lemma_digits_val_bound(s: Seq<char>, pos: int, end: int)
    requires
        pos <= end,
        forall|j: int| pos <= j < end ==> is_digit(#[trigger] s[j]),
    ensures
        0 <= spec_digits_val(s, pos, end) < spec_pow10((end - pos) as nat),
    decreases end - pos,
{
    if pos < end {
        lemma_digits_val_bound(s, pos, end - 1);
        assert(spec_pow10((end - pos) as nat) == 10 * spec_pow10((end - pos - 1) as nat));
    }
}

/// First non-digit position at or after `pos`, executably.
fn scan_digits(s: &str, pos: usize) -> (r: usize)
    requires
        pos <= s@.len(),
    ensures
        r == spec_scan_digits(s@, pos as int),
        pos <= r <= s@.len(),
        forall|j: int| pos <= j < r ==> is_digit(#[trigger] s@[j]),
    decreases s@.len() - pos,
{
    proof {
        lemma_scan_digits(s@, pos as int);
    }
    let n = s.unicode_len();
    if pos < n {
        let c = s.get_char(pos);
        if c as u32 >= 48 && c as u32 <= 57 {
            return scan_digits(s, pos + 1);
        }
    }
    pos
}

/// The value of the digit run `s[pos..end)`, exactly; at most 18 digits so
/// the value is representable.
fn digits_val(s: &str, pos: usize, end: usize) -> (r: i64)
    requires
        pos <= end <= s@.len(),
        end - pos <= 18,
        forall|j: int| pos <= j < end ==> is_digit(#[trigger] s@[j]),
    ensures
        r == spec_digits_val(s@, pos as int, end as int),
        0 <= r < spec_pow10((end - pos) as nat),
    decreases end - pos,
{
    proof {
        lemma_digits_val_bound(s@, pos as int, end as int);
        lemma_pow10_bounds((end - pos) as nat);
    }
    if pos >= end {
        0
    } else {
        let high = digits_val(s, pos, end - 1);
        proof {
            lemma_pow10_bounds((end - 1 - pos) as nat);
        }
        let c = s.get_char(end - 1);
        high * 10 + ((c as u32 - 48) as i64)
    }
}

/// Ten to the power `k`, executably.
fn pow10(k: usize) -> (r: i64)
    requires
        k <= 18,
    ensures
        r == spec_pow10(k as nat),
    decreases k,
{
    proof {
        lemma_pow10_bounds(k as nat);
    }
    if k == 0 {
        1
    } else {
        proof {
            lemma_pow10_bounds((k - 1) as nat);
        }
        10 * pow10(k - 1)
    }
}

/// The parse capability: a type that can recognize one of its values as a
/// prefix of the input.
///
/// `parse_spec` is the exact relation: the value a prefix of `s` starting at
/// `pos` denotes and the position just past it, or `None` where no prefix
/// matches. A successful executable parse always consumes at least one
/// character.
pub trait Parseable: Sized {
    /// What a prefix of `s` starting at `pos` parses to, and where it ends.
    spec fn parse_spec(s: Seq<char>, pos: int) -> Option<(Self, int)>;

    fn parse(s: &str, pos: usize) -> (r: Result<(Self, usize), ParseError>)
        requires
            pos <= s@.len(),
        ensures
            match r {
                Ok((v, p2)) => Self::parse_spec(s@, pos as int) == Some((v, p2 as int)) && pos < p2
                    <= s@.len(),
                Err(e) => Self::parse_spec(s@, pos as int) is None && e.at == pos,
            },
    ;
}

impl Parseable for FieldOperator {
    open spec fn parse_spec(s: Seq<char>, pos: int) -> Option<(FieldOperator, int)> {
        if pos < s.len() && s[pos] == '+' {
            Some((FieldOperator::Add, pos + 1))
        } else if pos < s.len() && s[pos] == '-' {
            Some((FieldOperator::Sub, pos + 1))
        } else if pos < s.len() && s[pos] == '*' {
            Some((FieldOperator::Mul, pos + 1))
        } else if pos < s.len() && s[pos] == '/' {
            Some((FieldOperator::Div, pos + 1))
        } else {
            None
        }
    }

    fn parse(s: &str, pos: usize) -> Result<(FieldOperator, usize), ParseError> {
        if pos < s.unicode_len() {
            let c = s.get_char(pos);
            if c == '+' {
                return Ok((FieldOperator::Add, pos + 1));
            }
            if c == '-' {
                return Ok((FieldOperator::Sub, pos + 1));
            }
            if c == '*' {
                return Ok((FieldOperator::Mul, pos + 1));
            }
            if c == '/' {
                return Ok((FieldOperator::Div, pos + 1));
            }
        }
        Err(ParseError { at: pos, kind: ParseErrorKind::NotMatched })
    }
}

impl Parseable for FieldFunction {
    open spec fn parse_spec(s: Seq<char>, pos: int) -> Option<(FieldFunction, int)> {
        if pos < s.len() && s[pos] == '-' {
            Some((FieldFunction::Neg, pos + 1))
        } else if pos + 3 <= s.len() && s[pos] == 'i' && s[pos + 1] == 'n' && s[pos + 2] == 'v' {
            Some((FieldFunction::Inv, pos + 3))
        } else {
            None
        }
    }

    fn parse(s: &str, pos: usize) -> Result<(FieldFunction, usize), ParseError> {
        let n = s.unicode_len();
        if pos < n && s.get_char(pos) == '-' {
            return Ok((FieldFunction::Neg, pos + 1));
        }
        if n - pos >= 3 && s.get_char(pos) == 'i' && s.get_char(pos + 1) == 'n' && s.get_char(
            pos + 2,
        ) == 'v' {
            return Ok((FieldFunction::Inv, pos + 3));
        }
        Err(ParseError { at: pos, kind: ParseErrorKind::NotMatched })
    }
}

impl Parseable for ComplexFunction {
    open spec fn parse_spec(s: Seq<char>, pos: int) -> Option<(ComplexFunction, int)> {
        if pos + 2 <= s.len() && s[pos] == 'R' && s[pos + 1] == 'e' {
            Some((ComplexFunction::Re, pos + 2))
        } else if pos + 2 <= s.len() && s[pos] == 'I' && s[pos + 1] == 'm' {
            Some((ComplexFunction::Im, pos + 2))
        } else if pos + 3 <= s.len() && s[pos] == 'a' && s[pos + 1] == 'b' && s[pos + 2] == 's' {
            Some((ComplexFunction::Abs, pos + 3))
        } else {
            None
        }
    }

    fn parse(s: &str, pos: usize) -> Result<(ComplexFunction, usize), ParseError> {
        let n = s.unicode_len();
        if n - pos >= 2 && s.get_char(pos) == 'R' && s.get_char(pos + 1) == 'e' {
            return Ok((ComplexFunction::Re, pos + 2));
        }
        if n - pos >= 2 && s.get_char(pos) == 'I' && s.get_char(pos + 1) == 'm' {
            return Ok((ComplexFunction::Im, pos + 2));
        }
        if n - pos >= 3 && s.get_char(pos) == 'a' && s.get_char(pos + 1) == 'b' && s.get_char(
            pos + 2,
        ) == 's' {
            return Ok((ComplexFunction::Abs, pos + 3));
        }
        Err(ParseError { at: pos, kind: ParseErrorKind::NotMatched })
    }
}

/// The shape of a rational literal at `pos`: an optional sign, then decimal
/// digits with an optional fractional part (at least one digit in all), up
/// to 18 digits in all so that the exact value is representable.
pub open spec fn spec_rational_literal(s: Seq<char>, pos: int) -> Option<(Rational, int)> {
    let neg = pos < s.len() && s[pos] == '-';
    let p0 = if pos < s.len() && (s[pos] == '-' || s[pos] == '+') {
        pos + 1
    } else {
        pos
    };
    let int_end = spec_scan_digits(s, p0);
    let has_dot = int_end < s.len() && s[int_end] == '.';
    let frac_end = if has_dot {
        spec_scan_digits(s, int_end + 1)
    } else {
        int_end
    };
    let n_int = int_end - p0;
    let n_frac = if has_dot {
        frac_end - (int_end + 1)
    } else {
        0
    };
    if n_int + n_frac == 0 || n_int + n_frac > 18 {
        None
    } else {
        let den = spec_pow10(n_frac as nat);
        let mag = spec_digits_val(s, p0, int_end) * den + if has_dot {
            spec_digits_val(s, int_end + 1, frac_end)
        } else {
            0
        };
        let num = if neg {
            -mag
        } else {
            mag
        };
        let end = if has_dot {
            frac_end
        } else {
            int_end
        };
        Some((Rational { num: num as i64, den: den as i64 }, end))
    }
}

impl Parseable for Rational {
    /// A decimal floating-point literal in standard notation, read exactly:
    /// `d+ ('.' d*)?` or `'.' d+`, with an optional leading sign.
    open spec fn parse_spec(s: Seq<char>, pos: int) -> Option<(Rational, int)> {
        spec_rational_literal(s, pos)
    }

    fn parse(s: &str, pos: usize) -> Result<(Rational, usize), ParseError> {
        let n = s.unicode_len();
        let mut neg = false;
        let mut p0 = pos;
        if pos < n {
            let c = s.get_char(pos);
            if c == '-' || c == '+' {
                p0 = pos + 1;
                neg = c == '-';
            }
        }
        let int_end = scan_digits(s, p0);
        let mut has_dot = false;
        let mut frac_end = int_end;
        if int_end < n && s.get_char(int_end) == '.' {
            has_dot = true;
            frac_end = scan_digits(s, int_end + 1);
        }
        let n_int = int_end - p0;
        let n_frac = if has_dot {
            frac_end - (int_end + 1)
        } else {
            0
        };
        if n_int + n_frac == 0 {
            return Err(ParseError { at: pos, kind: ParseErrorKind::NotMatched });
        }
        if n_int + n_frac > 18 {
            return Err(ParseError { at: pos, kind: ParseErrorKind::NotMatched });
        }
        let den = pow10(n_frac);
        let int_val = digits_val(s, p0, int_end);
        let frac_val = if has_dot {
            digits_val(s, int_end + 1, frac_end)
        } else {
            0
        };
        proof {
            lemma_pow10_bounds(n_frac as nat);
            lemma_pow10_bounds((n_int + n_frac) as nat);
            lemma_pow10_mul(n_int as nat, n_frac as nat);
            assert(int_val * den + frac_val < spec_pow10((n_int + n_frac) as nat)) by (nonlinear_arith)
                requires
                    0 <= int_val < spec_pow10(n_int as nat),
                    0 <= frac_val < spec_pow10(n_frac as nat),
                    den == spec_pow10(n_frac as nat),
                    den >= 1,
                    spec_pow10((n_int + n_frac) as nat) == spec_pow10(n_int as nat) * spec_pow10(
                        n_frac as nat,
                    ),
            ;
        }
        let mag = int_val * den + frac_val;
        let num = if neg {
            -mag
        } else {
            mag
        };
        let end = if has_dot {
            frac_end
        } else {
            int_end
        };
        Ok((Rational { num, den }, end))
    }
}

/// Ten-powers multiply as their exponents add.
proof fn lemma_pow10_mul(a: nat, b: nat)
    ensures
        spec_pow10(a + b) == spec_pow10(a) * spec_pow10(b),
    decreases a,
{
    if a > 0 {
        lemma_pow10_mul((a - 1) as nat, b);
        assert(spec_pow10(a + b) == 10 * spec_pow10((a + b - 1) as nat));
        assert(10 * (spec_pow10((a - 1) as nat) * spec_pow10(b)) == (10 * spec_pow10(
            (a - 1) as nat,
        )) * spec_pow10(b)) by (nonlinear_arith);
    }
}

impl<T: Parseable + Ring> Parseable for Complex<T> {
    /// A scalar literal lifted to a complex value, or the single character
    /// `i`, the imaginary unit.
    open spec fn parse_spec(s: Seq<char>, pos: int) -> Option<(Complex<T>, int)> {
        match T::parse_spec(s, pos) {
            Some((t, p2)) => Some((Complex::lift_spec(t), p2)),
            None => if pos < s.len() && s[pos] == 'i' {
                Some((Complex::i_spec(), pos + 1))
            } else {
                None
            },
        }
    }

    fn parse(s: &str, pos: usize) -> Result<(Complex<T>, usize), ParseError> {
        match T::parse(s, pos) {
            Ok((t, p2)) => Ok((Complex::from(t), p2)),
            Err(_) => {
                if pos < s.unicode_len() && s.get_char(pos) == 'i' {
                    Ok((Complex::i(), pos + 1))
                } else {
                    Err(ParseError { at: pos, kind: ParseErrorKind::NotMatched })
                }
            },
        }
    }
}

/// The `variable` production: one of the closed variable tokens.
pub open spec fn spec_var<T, F, O>(s: Seq<char>, pos: int) -> Option<(Expr<T, F, O>, int)> {
    if pos < s.len() && s[pos] == 'z' {
        Some((Expr::Variable(Variable::Z), pos + 1))
    } else if pos < s.len() && s[pos] == 'c' {
        Some((Expr::Variable(Variable::C), pos + 1))
    } else {
        None
    }
}

/// The `term` production: a parenthesized sub-expression, a variable, a
/// constant, or a unary function applied to a following term, tried in that
/// order.
pub open spec fn spec_term<T: Parseable, F: Parseable, O: Parseable>(s: Seq<char>, pos: int) -> Option<
    (Expr<T, F, O>, int),
>
    decreases s.len() - pos, 0int
        when 0 <= pos <= s.len()
{
    let paren = if pos < s.len() && s[pos] == '(' {
        match spec_add::<T, F, O>(s, pos + 1) {
            Some((e, p)) => if p < s.len() && s[p] == ')' {
                Some((e, p + 1))
            } else {
                None
            },
            None => None,
        }
    } else {
        None
    };
    match paren {
        Some(r) => Some(r),
        None => match spec_var::<T, F, O>(s, pos) {
            Some(r) => Some(r),
            None => match T::parse_spec(s, pos) {
                Some((t, p)) => if pos < p <= s.len() {
                    Some((Expr::Constant(t), p))
                } else {
                    None
                },
                None => match F::parse_spec(s, pos) {
                    Some((f, p1)) => if pos < p1 <= s.len() {
                        match spec_term::<T, F, O>(s, p1) {
                            Some((e, p2)) => Some((Expr::Function(f, Box::new(e)), p2)),
                            None => None,
                        }
                    } else {
                        None
                    },
                    None => None,
                },
            },
        },
    }
}

/// The left fold at the `mul` precedence level: starting from the
/// accumulated tree `acc` at `pos`, folds in `*`/`/` operators while the
/// lookahead character belongs to this level.
pub open spec fn spec_mul_tail<T: Parseable, F: Parseable, O: Parseable>(
    s: Seq<char>,
    pos: int,
    acc: Expr<T, F, O>,
) -> (Expr<T, F, O>, int)
    decreases s.len() - pos, 0int
        when 0 <= pos <= s.len()
{
    if pos < s.len() && (s[pos] == '*' || s[pos] == '/') {
        match O::parse_spec(s, pos) {
            Some((op, p1)) => if pos < p1 <= s.len() {
                match spec_term::<T, F, O>(s, p1) {
                    Some((rhs, p2)) => if p1 < p2 <= s.len() {
                        spec_mul_tail(s, p2, Expr::Operator(op, Box::new(acc), Box::new(rhs)))
                    } else {
                        (acc, pos)
                    },
                    None => (acc, pos),
                }
            } else {
                (acc, pos)
            },
            None => (acc, pos),
        }
    } else {
        (acc, pos)
    }
}

/// The `mul` production: a term, then the `mul`-level left fold.
pub open spec fn spec_mul<T: Parseable, F: Parseable, O: Parseable>(s: Seq<char>, pos: int) -> Option<
    (Expr<T, F, O>, int),
>
    decreases s.len() - pos, 1int
        when 0 <= pos <= s.len()
{
    match spec_term::<T, F, O>(s, pos) {
        Some((e, p)) => if pos < p <= s.len() {
            Some(spec_mul_tail::<T, F, O>(s, p, e))
        } else {
            Some((e, p))
        },
        None => None,
    }
}

/// The left fold at the `add` precedence level: folds in `+`/`-` operators
/// while the lookahead character belongs to this level.
pub open spec fn spec_add_tail<T: Parseable, F: Parseable, O: Parseable>(
    s: Seq<char>,
    pos: int,
    acc: Expr<T, F, O>,
) -> (Expr<T, F, O>, int)
    decreases s.len() - pos, 2int
        when 0 <= pos <= s.len()
{
    if pos < s.len() && (s[pos] == '+' || s[pos] == '-') {
        match O::parse_spec(s, pos) {
            Some((op, p1)) => if pos < p1 <= s.len() {
                match spec_mul::<T, F, O>(s, p1) {
                    Some((rhs, p2)) => if p1 < p2 <= s.len() {
                        spec_add_tail(s, p2, Expr::Operator(op, Box::new(acc), Box::new(rhs)))
                    } else {
                        (acc, pos)
                    },
                    None => (acc, pos),
                }
            } else {
                (acc, pos)
            },
            None => (acc, pos),
        }
    } else {
        (acc, pos)
    }
}

/// The `add` production, the grammar's start symbol: a `mul`, then the
/// `add`-level left fold.
pub open spec fn spec_add<T: Parseable, F: Parseable, O: Parseable>(s: Seq<char>, pos: int) -> Option<
    (Expr<T, F, O>, int),
>
    decreases s.len() - pos, 3int
        when 0 <= pos <= s.len()
{
    match spec_mul::<T, F, O>(s, pos) {
        Some((e, p)) => if pos < p <= s.len() {
            Some(spec_add_tail::<T, F, O>(s, p, e))
        } else {
            Some((e, p))
        },
        None => None,
    }
}

/// Parse a variable token.
pub fn var<T, F, O>(s: &str, pos: usize) -> (r: Result<(Expr<T, F, O>, usize), ParseError>)
    requires
        pos <= s@.len(),
    ensures
        match r {
            Ok((e, p2)) => spec_var::<T, F, O>(s@, pos as int) == Some((e, p2 as int)) && pos < p2
                <= s@.len(),
            Err(err) => spec_var::<T, F, O>(s@, pos as int) is None && err == (ParseError {
                at: pos,
                kind: ParseErrorKind::NotMatched,
            }),
        },
{
    if pos < s.unicode_len() {
        let ch = s.get_char(pos);
        if ch == 'z' {
            return Ok((Expr::Variable(Variable::Z), pos + 1));
        }
        if ch == 'c' {
            return Ok((Expr::Variable(Variable::C), pos + 1));
        }
    }
    Err(ParseError { at: pos, kind: ParseErrorKind::NotMatched })
}

/// Parse a `term`.
pub fn term<T: Parseable, F: Parseable, O: Parseable>(s: &str, pos: usize) -> (r: Result<
    (Expr<T, F, O>, usize),
    ParseError,
>)
    requires
        pos <= s@.len(),
    ensures
        match r {
            Ok((e, p2)) => spec_term::<T, F, O>(s@, pos as int) == Some((e, p2 as int)) && pos < p2
                <= s@.len(),
            Err(err) => spec_term::<T, F, O>(s@, pos as int) is None && err == (ParseError {
                at: pos,
                kind: ParseErrorKind::NotMatched,
            }),
        },
    decreases s@.len() - pos, 0int,
{
    let n = s.unicode_len();
    if pos < n && s.get_char(pos) == '(' {
        match crate::parser::add::<T, F, O>(s, pos + 1) {
            Ok((e, p)) => {
                if p < n && s.get_char(p) == ')' {
                    return Ok((e, p + 1));
                }
            },
            Err(_) => {},
        }
    }
    match var::<T, F, O>(s, pos) {
        Ok(r) => {
            return Ok(r);
        },
        Err(_) => {},
    }
    match T::parse(s, pos) {
        Ok((t, p)) => {
            return Ok((Expr::Constant(t), p));
        },
        Err(_) => {},
    }
    match F::parse(s, pos) {
        Ok((f, p1)) => {
            match term::<T, F, O>(s, p1) {
                Ok((e, p2)) => {
                    return Ok((Expr::Function(f, Box::new(e)), p2));
                },
                Err(_) => {
                    return Err(ParseError { at: pos, kind: ParseErrorKind::NotMatched });
                },
            }
        },
        Err(_) => {},
    }
    Err(ParseError { at: pos, kind: ParseErrorKind::NotMatched })
}

/// Parse a `mul`: a term followed by the lookahead-gated `*`/`/` fold. Each
/// fold step builds a new operator node with the accumulated left subtree,
/// giving strict left-associativity.
pub fn mul<T: Parseable, F: Parseable, O: Parseable>(s: &str, pos: usize) -> (r: Result<
    (Expr<T, F, O>, usize),
    ParseError,
>)
    requires
        pos <= s@.len(),
    ensures
        match r {
            Ok((e, p2)) => spec_mul::<T, F, O>(s@, pos as int) == Some((e, p2 as int)) && pos < p2
                <= s@.len(),
            Err(err) => spec_mul::<T, F, O>(s@, pos as int) is None && err == (ParseError {
                at: pos,
                kind: ParseErrorKind::NotMatched,
            }),
        },
    decreases s@.len() - pos, 1int,
{
    let first = match term::<T, F, O>(s, pos) {
        Ok(x) => x,
        Err(e) => {
            return Err(e);
        },
    };
    let mut acc = first.0;
    let mut p = first.1;
    let ghost start_p = p as int;
    let ghost start_acc = acc;
    loop
        invariant_except_break
            pos < p <= s@.len(),
            spec_mul_tail::<T, F, O>(s@, p as int, acc) == spec_mul_tail::<T, F, O>(
                s@,
                start_p,
                start_acc,
            ),
        ensures
            pos < p <= s@.len(),
            (acc, p as int) == spec_mul_tail::<T, F, O>(s@, start_p, start_acc),
        decreases s@.len() - p,
    {
        let n = s.unicode_len();
        if !(p < n) {
            break ;
        }
        let ch = s.get_char(p);
        if !(ch == '*' || ch == '/') {
            break ;
        }
        match O::parse(s, p) {
            Err(_) => {
                break ;
            },
            Ok((op, p1)) => {
                match term::<T, F, O>(s, p1) {
                    Err(_) => {
                        break ;
                    },
                    Ok((rhs, p2)) => {
                        acc = Expr::Operator(op, Box::new(acc), Box::new(rhs));
                        p = p2;
                    },
                }
            },
        }
    }
    Ok((acc, p))
}

/// Parse an `add`, the grammar's start symbol: a `mul` followed by the
/// lookahead-gated `+`/`-` fold. The lookahead is what keeps an infix `-`
/// distinct from a leading unary negation.
pub fn add<T: Parseable, F: Parseable, O: Parseable>(s: &str, pos: usize) -> (r: Result<
    (Expr<T, F, O>, usize),
    ParseError,
>)
    requires
        pos <= s@.len(),
    ensures
        match r {
            Ok((e, p2)) => spec_add::<T, F, O>(s@, pos as int) == Some((e, p2 as int)) && pos < p2
                <= s@.len(),
            Err(err) => spec_add::<T, F, O>(s@, pos as int) is None && err == (ParseError {
                at: pos,
                kind: ParseErrorKind::NotMatched,
            }),
        },
    decreases s@.len() - pos, 2int,
{
    let first = match crate::parser::mul::<T, F, O>(s, pos) {
        Ok(x) => x,
        Err(e) => {
            return Err(e);
        },
    };
    let mut acc = first.0;
    let mut p = first.1;
    let ghost start_p = p as int;
    let ghost start_acc = acc;
    loop
        invariant_except_break
            pos < p <= s@.len(),
            spec_add_tail::<T, F, O>(s@, p as int, acc) == spec_add_tail::<T, F, O>(
                s@,
                start_p,
                start_acc,
            ),
        ensures
            pos < p <= s@.len(),
            (acc, p as int) == spec_add_tail::<T, F, O>(s@, start_p, start_acc),
        decreases s@.len() - p,
    {
        let n = s.unicode_len();
        if !(p < n) {
            break ;
        }
        let ch = s.get_char(p);
        if !(ch == '+' || ch == '-') {
            break ;
        }
        match O::parse(s, p) {
            Err(_) => {
                break ;
            },
            Ok((op, p1)) => {
                match crate::parser::mul::<T, F, O>(s, p1) {
                    Err(_) => {
                        break ;
                    },
                    Ok((rhs, p2)) => {
                        acc = Expr::Operator(op, Box::new(acc), Box::new(rhs));
                        p = p2;
                    },
                }
            },
        }
    }
    Ok((acc, p))
}

impl<T: Parseable, F: Parseable, O: Parseable> Parseable for Expr<T, F, O> {
    open spec fn parse_spec(s: Seq<char>, pos: int) -> Option<(Expr<T, F, O>, int)> {
        spec_add::<T, F, O>(s, pos)
    }

    fn parse(s: &str, pos: usize) -> Result<(Expr<T, F, O>, usize), ParseError> {
        crate::parser::add::<T, F, O>(s, pos)
    }
}

impl<T: Parseable, F: Parseable, O: Parseable> Expr<T, F, O> {
    /// Parse a complete formula. A full parse must consume the entire input:
    /// any unconsumed suffix or syntax mismatch surfaces as a `ParseError`
    /// carrying the position of the unconsumed remainder (see
    /// [`ParseError::remainder`]) and a classification.
    pub fn from_str(s: &str) -> (r: Result<Expr<T, F, O>, ParseError>)
        ensures
            match r {
                Ok(e) => spec_add::<T, F, O>(s@, 0) == Some((e, s@.len() as int)),
                Err(err) => match spec_add::<T, F, O>(s@, 0) {
                    Some((e2, p)) => p < s@.len() && err.at as int == p && err.kind
                        == ParseErrorKind::TrailingInput,
                    None => err == (ParseError { at: 0, kind: ParseErrorKind::NotMatched }),
                },
            },
    {
        match crate::parser::add::<T, F, O>(s, 0) {
            Ok((e, p)) => {
                if p == s.unicode_len() {
                    Ok(e)
                } else {
                    Err(ParseError { at: p, kind: ParseErrorKind::TrailingInput })
                }
            },
            Err(e) => Err(e),
        }
    }
}


/// Law: parenthesization is transparent. Where the inner expression parses
/// as an `add` between a matching pair of parentheses, the parenthesized
/// term yields exactly the inner tree, so `(E)` evaluates to whatever `E`
/// evaluates to.
pub proof fn lemma_paren_transparent<T: Parseable, F: Parseable, O: Parseable>(
    s: Seq<char>,
    pos: int,
    e: Expr<T, F, O>,
    p: int,
)
    requires
        0 <= pos < s.len(),
        s[pos] == '(',
        spec_add::<T, F, O>(s, pos + 1) == Some((e, p)),
        p < s.len(),
        s[p] == ')',
    ensures
        spec_term::<T, F, O>(s, pos) == Some((e, p + 1)),
{
}

/// Law: parsing is deterministic, so the same formula string parsed twice
/// yields two structurally equal trees.
pub proof fn lemma_parse_deterministic<T: Parseable, F: Parseable, O: Parseable>(
    s: Seq<char>,
    e1: Expr<T, F, O>,
    e2: Expr<T, F, O>,
)
    requires
        spec_add::<T, F, O>(s, 0) == Some((e1, s.len() as int)),
        spec_add::<T, F, O>(s, 0) == Some((e2, s.len() as int)),
    ensures
        e1 == e2,
{
}

/// Law: a formula that is a single literal parses to a lone constant node
/// (which evaluates to that literal under any bindings).
pub proof fn lemma_literal_formula<T: Parseable, F: Parseable, O: Parseable>(s: Seq<char>, n: T)
    requires
        s.len() > 0,
        s[0] != '(',
        s[0] != 'z',
        s[0] != 'c',
        T::parse_spec(s, 0) == Some((n, s.len() as int)),
    ensures
        spec_add::<T, F, O>(s, 0) == Some((Expr::<T, F, O>::Constant(n), s.len() as int)),
{
}

/// Law: the one-character formula `z` parses to the bare variable node
/// (which evaluates to whatever the bindings map `z` to).
pub proof fn lemma_variable_formula<T: Parseable, F: Parseable, O: Parseable>(s: Seq<char>)
    requires
        s.len() == 1,
        s[0] == 'z',
    ensures
        spec_add::<T, F, O>(s, 0) == Some((Expr::<T, F, O>::Variable(Variable::Z), 1int)),
{
}


/// Law: chains at the `mul` level left-fold. One fold step wraps the
/// accumulated tree as the left operand of a new operator node, so
/// `t1*t2*t3` parses as `(t1*t2)*t3`.
pub proof fn lemma_mul_fold_step<T: Parseable, F: Parseable, O: Parseable>(
    s: Seq<char>,
    pos: int,
    acc: Expr<T, F, O>,
    op: O,
    p1: int,
    rhs: Expr<T, F, O>,
    p2: int,
)
    requires
        0 <= pos < s.len(),
        s[pos] == '*' || s[pos] == '/',
        O::parse_spec(s, pos) == Some((op, p1)),
        pos < p1 <= s.len(),
        spec_term::<T, F, O>(s, p1) == Some((rhs, p2)),
        p1 < p2 <= s.len(),
    ensures
        spec_mul_tail::<T, F, O>(s, pos, acc) == spec_mul_tail::<T, F, O>(
            s,
            p2,
            Expr::Operator(op, Box::new(acc), Box::new(rhs)),
        ),
{
}

/// Law: chains at the `add` level left-fold. One fold step wraps the
/// accumulated tree as the left operand of a new operator node, so
/// `m1+m2+m3` parses as `(m1+m2)+m3`.
pub proof fn lemma_add_fold_step<T: Parseable, F: Parseable, O: Parseable>(
    s: Seq<char>,
    pos: int,
    acc: Expr<T, F, O>,
    op: O,
    p1: int,
    rhs: Expr<T, F, O>,
    p2: int,
)
    requires
        0 <= pos < s.len(),
        s[pos] == '+' || s[pos] == '-',
        O::parse_spec(s, pos) == Some((op, p1)),
        pos < p1 <= s.len(),
        spec_mul::<T, F, O>(s, p1) == Some((rhs, p2)),
        p1 < p2 <= s.len(),
    ensures
        spec_add_tail::<T, F, O>(s, pos, acc) == spec_add_tail::<T, F, O>(
            s,
            p2,
            Expr::Operator(op, Box::new(acc), Box::new(rhs)),
        ),
{
}

} // verus!
