//! Code generator: a deterministic, pure, recursive, total function from an
//! expression tree to a snippet of target shading-language text, with a
//! fixed mapping from tags to target-language spellings.
//!
//! Every composite node fully parenthesizes its own call form, so the output
//! never holds an unmatched parenthesis (see [`lemma_snippet_balanced`]).
use vstd::prelude::*;

use crate::algebra::Complex;
use crate::expression::{ComplexFunction, Expr, FieldFunction, FieldOperator, Variable};
use crate::rational::Rational;

verus! {

/// The character for one decimal digit value.
pub open spec fn digit_char(d: int) -> char {
    if d == 0 {
        '0'
    } else if d == 1 {
        '1'
    } else if d == 2 {
        '2'
    } else if d == 3 {
        '3'
    } else if d == 4 {
        '4'
    } else if d == 5 {
        '5'
    } else if d == 6 {
        '6'
    } else if d == 7 {
        '7'
    } else if d == 8 {
        '8'
    } else {
        '9'
    }
}

/// The decimal digit text of a non-negative number, most significant digit
/// first.
pub open spec fn spec_digits_text(n: nat) -> Seq<char>
    decreases n,
{
    if n < 10 {
        seq![digit_char(n as int)]
    } else {
        spec_digits_text(n / 10) + seq![digit_char((n % 10) as int)]
    }
}

/// The decimal text of an integer: a `-` sign where negative, then digits.
pub open spec fn spec_int_text(n: int) -> Seq<char> {
    if n < 0 {
        seq!['-'] + spec_digits_text((-n) as nat)
    } else {
        spec_digits_text(n as nat)
    }
}

/// The target-language text of an exact fraction: plain integer text where
/// the denominator is one, otherwise a parenthesized exact quotient of two
/// target-language float literals.
pub open spec fn spec_rat_text(r: Rational) -> Seq<char> {
    if r.den == 1 {
        spec_int_text(r.num as int)
    } else {
        seq!['('] + spec_int_text(r.num as int) + seq!['.', '0', '/'] + spec_int_text(r.den as int)
            + seq!['.', '0'] + seq![')']
    }
}

/// The two-component vector literal constructor call for a complex constant.
pub open spec fn spec_vec2_text(c: Complex<Rational>) -> Seq<char> {
    seq!['v', 'e', 'c', '2', '('] + spec_rat_text(c.re) + seq![','] + spec_rat_text(c.im) + seq![
        ')'
    ]
}

/// The one-character string for one decimal digit value.
fn digit_str(d: u64) -> (r: &'static str)
    requires
        d < 10,
    ensures
        r@ == seq![digit_char(d as int)],
{
    let r: &'static str = match d {
        0 => "0",
        1 => "1",
        2 => "2",
        3 => "3",
        4 => "4",
        5 => "5",
        6 => "6",
        7 => "7",
        8 => "8",
        _ => "9",
    };
    proof {
        reveal_strlit("0");
        reveal_strlit("1");
        reveal_strlit("2");
        reveal_strlit("3");
        reveal_strlit("4");
        reveal_strlit("5");
        reveal_strlit("6");
        reveal_strlit("7");
        reveal_strlit("8");
        reveal_strlit("9");
        assert(r@ =~= seq![digit_char(d as int)]);
    }
    r
}

/// Append the decimal digit text of `n`.
fn push_digits(out: &mut String, n: u64)
    ensures
        final(out)@ == old(out)@ + spec_digits_text(n as nat),
    decreases n,
{
    if n < 10 {
        out.append(digit_str(n));
    } else {
        push_digits(out, n / 10);
        out.append(digit_str(n % 10));
        proof {
            assert(out@ =~= old(out)@ + spec_digits_text(n as nat));
        }
    }
}

/// Append the decimal text of `n`, sign first.
fn push_int(out: &mut String, n: i64)
    ensures
        final(out)@ == old(out)@ + spec_int_text(n as int),
{
    if n < 0 {
        proof {
            reveal_strlit("-");
        }
        out.append("-");
        let mag: u64 = (-(n as i128)) as u64;
        push_digits(out, mag);
        proof {
            assert("-"@ =~= seq!['-']);
            assert(out@ =~= old(out)@ + spec_int_text(n as int));
        }
    } else {
        push_digits(out, n as u64);
    }
}

/// Append the target-language text of an exact fraction.
fn push_rat(out: &mut String, r: &Rational)
    ensures
        final(out)@ == old(out)@ + spec_rat_text(*r),
{
    if r.den == 1 {
        push_int(out, r.num);
    } else {
        proof {
            reveal_strlit("(");
            reveal_strlit(".0/");
            reveal_strlit(".0");
            reveal_strlit(")");
        }
        out.append("(");
        push_int(out, r.num);
        out.append(".0/");
        push_int(out, r.den);
        out.append(".0");
        out.append(")");
        proof {
            assert(out@ =~= old(out)@ + spec_rat_text(*r));
        }
    }
}

/// Append the vector constructor call for a complex constant.
fn push_vec2(out: &mut String, c: &Complex<Rational>)
    ensures
        final(out)@ == old(out)@ + spec_vec2_text(*c),
{
    proof {
        reveal_strlit("vec2(");
        reveal_strlit(",");
        reveal_strlit(")");
    }
    out.append("vec2(");
    push_rat(out, &c.re);
    out.append(",");
    push_rat(out, &c.im);
    out.append(")");
    proof {
        assert(out@ =~= old(out)@ + spec_vec2_text(*c));
    }
}


/// The fixed tag-to-target-identifier mapping: each tag's spelling in the
/// target shading language, and whether it renders as a bare prefix before
/// its operand (negation, inversion) or as a function call wrapping its
/// operand(s) in parentheses (named functions; binary operators always
/// render as calls).
pub trait Spelling {
    /// The tag's target-language spelling.
    spec fn spelling_spec(self) -> Seq<char>;

    /// Whether the tag renders as a bare prefix rather than a call.
    spec fn prefix_spec(self) -> bool;

    fn spelling(&self) -> (r: &'static str)
        ensures
            r@ == self.spelling_spec(),
    ;

    fn prefix(&self) -> (r: bool)
        ensures
            r == self.prefix_spec(),
    ;
}

impl Spelling for FieldFunction {
    open spec fn spelling_spec(self) -> Seq<char> {
        match self {
            FieldFunction::Neg => seq!['-'],
            FieldFunction::Inv => seq!['1', '.', '0', '/'],
        }
    }

    open spec fn prefix_spec(self) -> bool {
        true
    }

    fn spelling(&self) -> (r: &'static str) {
        let r: &'static str = match self {
            FieldFunction::Neg => "-",
            FieldFunction::Inv => "1.0/",
        };
        proof {
            reveal_strlit("-");
            reveal_strlit("1.0/");
            assert(r@ =~= self.spelling_spec());
        }
        r
    }

    fn prefix(&self) -> bool {
        true
    }
}

impl Spelling for ComplexFunction {
    open spec fn spelling_spec(self) -> Seq<char> {
        match self {
            ComplexFunction::Re => seq!['r', 'e'],
            ComplexFunction::Im => seq!['i', 'm'],
            ComplexFunction::Abs => seq!['a', 'b', 's'],
        }
    }

    open spec fn prefix_spec(self) -> bool {
        false
    }

    fn spelling(&self) -> (r: &'static str) {
        let r: &'static str = match self {
            ComplexFunction::Re => "re",
            ComplexFunction::Im => "im",
            ComplexFunction::Abs => "abs",
        };
        proof {
            reveal_strlit("re");
            reveal_strlit("im");
            reveal_strlit("abs");
            assert(r@ =~= self.spelling_spec());
        }
        r
    }

    fn prefix(&self) -> bool {
        false
    }
}

impl Spelling for FieldOperator {
    open spec fn spelling_spec(self) -> Seq<char> {
        match self {
            FieldOperator::Add => seq!['a', 'd', 'd'],
            FieldOperator::Sub => seq!['s', 'u', 'b'],
            FieldOperator::Mul => seq!['m', 'u', 'l'],
            FieldOperator::Div => seq!['d', 'i', 'v'],
        }
    }

    open spec fn prefix_spec(self) -> bool {
        false
    }

    fn spelling(&self) -> (r: &'static str) {
        let r: &'static str = match self {
            FieldOperator::Add => "add",
            FieldOperator::Sub => "sub",
            FieldOperator::Mul => "mul",
            FieldOperator::Div => "div",
        };
        proof {
            reveal_strlit("add");
            reveal_strlit("sub");
            reveal_strlit("mul");
            reveal_strlit("div");
            assert(r@ =~= self.spelling_spec());
        }
        r
    }

    fn prefix(&self) -> bool {
        false
    }
}

/// The snippet text of an expression tree: variables map to the target
/// identifiers `z` and `c`, constants to a vector constructor call, unary
/// tags to a prefix or a call form, binary tags to a call form over both
/// operands. A pure function of the tree alone, so the generator is
/// deterministic: structurally equal trees give byte-identical snippets.
pub open spec fn spec_snippet<F: Spelling, O: Spelling>(e: Expr<Complex<Rational>, F, O>) -> Seq<
    char,
>
    decreases e,
{
    match e {
        Expr::Variable(v) => match v {
            Variable::Z => seq!['z'],
            Variable::C => seq!['c'],
        },
        Expr::Constant(ct) => spec_vec2_text(ct),
        Expr::Function(f, e1) => if f.prefix_spec() {
            f.spelling_spec() + spec_snippet(*e1)
        } else {
            f.spelling_spec() + seq!['('] + spec_snippet(*e1) + seq![')']
        },
        Expr::Operator(op, l, r) => op.spelling_spec() + seq!['('] + spec_snippet(*l) + seq![',']
            + spec_snippet(*r) + seq![')'],
    }
}

/// Append the snippet text of `expr` to `ret`.
pub fn build_snippet<F: Spelling, O: Spelling>(ret: &mut String, expr: &Expr<Complex<Rational>, F, O>)
    ensures
        final(ret)@ == old(ret)@ + spec_snippet(*expr),
    decreases *expr,
{
    proof {
        reveal_strlit("z");
        reveal_strlit("c");
        reveal_strlit("(");
        reveal_strlit(",");
        reveal_strlit(")");
    }
    match expr {
        Expr::Variable(v) => {
            match v {
                Variable::Z => ret.append("z"),
                Variable::C => ret.append("c"),
            }
            proof {
                assert(ret@ =~= old(ret)@ + spec_snippet(*expr));
            }
        },
        Expr::Constant(ct) => {
            push_vec2(ret, ct);
        },
        Expr::Function(fun, e) => {
            ret.append(fun.spelling());
            if fun.prefix() {
                build_snippet(ret, e);
            } else {
                ret.append("(");
                build_snippet(ret, e);
                ret.append(")");
            }
            proof {
                assert(ret@ =~= old(ret)@ + spec_snippet(*expr));
            }
        },
        Expr::Operator(op, lhs, rhs) => {
            ret.append(op.spelling());
            ret.append("(");
            build_snippet(ret, lhs);
            ret.append(",");
            build_snippet(ret, rhs);
            ret.append(")");
            proof {
                assert(ret@ =~= old(ret)@ + spec_snippet(*expr));
            }
        },
    }
}

/// No parenthesis occurs in the text.
pub open spec fn paren_free(s: Seq<char>) -> bool {
    forall|i: int| 0 <= i < s.len() ==> s[i] != '(' && s[i] != ')'
}

/// Scan the text left to right, tracking parenthesis depth from `d`: `None`
/// where the depth ever dips below zero, else the final depth.
pub open spec fn spec_paren_depth(s: Seq<char>, d: int) -> Option<int>
    decreases s.len(),
{
    if s.len() == 0 {
        Some(d)
    } else {
        let d2 = if s[0] == '(' {
            d + 1
        } else if s[0] == ')' {
            d - 1
        } else {
            d
        };
        if d2 < 0 {
            None
        } else {
            spec_paren_depth(s.subrange(1, s.len() as int), d2)
        }
    }
}

/// Every parenthesis in the text is matched.
pub open spec fn balanced(s: Seq<char>) -> bool {
    spec_paren_depth(s, 0) == Some(0int)
}

proof fn lemma_depth_concat(a: Seq<char>, b: Seq<char>, d: int, d1: int)
    requires
        spec_paren_depth(a, d) == Some(d1),
    ensures
        spec_paren_depth(a + b, d) == spec_paren_depth(b, d1),
    decreases a.len(),
{
    if a.len() == 0 {
        assert(a + b =~= b);
    } else {
        let d2 = if a[0] == '(' {
            d + 1
        } else if a[0] == ')' {
            d - 1
        } else {
            d
        };
        assert((a + b).subrange(1, (a + b).len() as int) =~= a.subrange(1, a.len() as int) + b);
        lemma_depth_concat(a.subrange(1, a.len() as int), b, d2, d1);
    }
}

proof fn lemma_depth_paren_free(s: Seq<char>, d: int)
    requires
        paren_free(s),
        d >= 0,
    ensures
        spec_paren_depth(s, d) == Some(d),
    decreases s.len(),
{
    if s.len() > 0 {
        lemma_depth_paren_free(s.subrange(1, s.len() as int), d);
    }
}

proof fn lemma_depth_shift(s: Seq<char>, d: int, k: int, d1: int)
    requires
        spec_paren_depth(s, d) == Some(d1),
        k >= 0,
    ensures
        spec_paren_depth(s, d + k) == Some(d1 + k),
    decreases s.len(),
{
    if s.len() > 0 {
        let d2 = if s[0] == '(' {
            d + 1
        } else if s[0] == ')' {
            d - 1
        } else {
            d
        };
        lemma_depth_shift(s.subrange(1, s.len() as int), d2, k, d1);
    }
}

proof fn lemma_depth_one(c: char, d: int)
    requires
        d >= 0,
        c != ')',
    ensures
        spec_paren_depth(seq![c], d) == Some(if c == '(' { d + 1 } else { d }),
{
    reveal_with_fuel(spec_paren_depth, 3);
    assert(seq![c].len() == 1 && seq![c][0] == c);
    assert(seq![c].subrange(1, 1) =~= Seq::<char>::empty());
    assert(spec_paren_depth(Seq::<char>::empty(), if c == '(' { d + 1 } else { d }) == Some(
        if c == '(' {
            d + 1
        } else {
            d
        },
    ));
}

proof fn lemma_depth_close(d: int)
    requires
        d >= 1,
    ensures
        spec_paren_depth(seq![')'], d) == Some(d - 1),
{
    reveal_with_fuel(spec_paren_depth, 3);
    assert(seq![')'].len() == 1 && seq![')'][0] == ')');
    assert(seq![')'].subrange(1, 1) =~= Seq::<char>::empty());
    assert(spec_paren_depth(Seq::<char>::empty(), d - 1) == Some(d - 1));
}

/// A call form `name(inner)` with a paren-free name and a balanced operand
/// is balanced.
proof fn lemma_call1_balanced(name: Seq<char>, inner: Seq<char>)
    requires
        paren_free(name),
        balanced(inner),
    ensures
        balanced(name + seq!['('] + inner + seq![')']),
{
    lemma_depth_paren_free(name, 0);
    lemma_depth_one('(', 0);
    lemma_depth_concat(name, seq!['('], 0, 0);
    lemma_depth_shift(inner, 0, 1, 0);
    lemma_depth_concat(name + seq!['('], inner, 0, 1);
    lemma_depth_close(1);
    lemma_depth_concat(name + seq!['('] + inner, seq![')'], 0, 1);
}

/// A call form `name(l,r)` with a paren-free name and balanced operands is
/// balanced.
proof fn lemma_call2_balanced(name: Seq<char>, l: Seq<char>, r: Seq<char>)
    requires
        paren_free(name),
        balanced(l),
        balanced(r),
    ensures
        balanced(name + seq!['('] + l + seq![','] + r + seq![')']),
{
    lemma_depth_paren_free(name, 0);
    lemma_depth_one('(', 0);
    lemma_depth_concat(name, seq!['('], 0, 0);
    lemma_depth_shift(l, 0, 1, 0);
    lemma_depth_concat(name + seq!['('], l, 0, 1);
    lemma_depth_one(',', 1);
    lemma_depth_concat(name + seq!['('] + l, seq![','], 0, 1);
    lemma_depth_shift(r, 0, 1, 0);
    lemma_depth_concat(name + seq!['('] + l + seq![','], r, 0, 1);
    lemma_depth_close(1);
    lemma_depth_concat(name + seq!['('] + l + seq![','] + r, seq![')'], 0, 1);
}

/// A bare prefix before a balanced operand is balanced.
proof fn lemma_prefix_balanced(name: Seq<char>, inner: Seq<char>)
    requires
        paren_free(name),
        balanced(inner),
    ensures
        balanced(name + inner),
{
    lemma_depth_paren_free(name, 0);
    lemma_depth_concat(name, inner, 0, 0);
}

proof fn lemma_digits_text_paren_free(n: nat)
    ensures
        paren_free(spec_digits_text(n)),
    decreases n,
{
    if n >= 10 {
        lemma_digits_text_paren_free(n / 10);
    }
}

proof fn lemma_int_text_paren_free(n: int)
    ensures
        paren_free(spec_int_text(n)),
{
    if n < 0 {
        lemma_digits_text_paren_free((-n) as nat);
    } else {
        lemma_digits_text_paren_free(n as nat);
    }
}

proof fn lemma_rat_text_balanced(r: Rational)
    ensures
        balanced(spec_rat_text(r)),
{
    lemma_int_text_paren_free(r.num as int);
    lemma_int_text_paren_free(r.den as int);
    if r.den == 1 {
        lemma_depth_paren_free(spec_int_text(r.num as int), 0);
    } else {
        let mid = spec_int_text(r.num as int) + seq!['.', '0', '/'] + spec_int_text(r.den as int)
            + seq!['.', '0'];
        assert(paren_free(mid));
        lemma_depth_one('(', 0);
        lemma_depth_paren_free(mid, 1);
        lemma_depth_concat(seq!['('], mid, 0, 1);
        lemma_depth_close(1);
        lemma_depth_concat(seq!['('] + mid, seq![')'], 0, 1);
        assert(seq!['('] + mid + seq![')'] =~= spec_rat_text(r));
    }
}

proof fn lemma_vec2_text_balanced(c: Complex<Rational>)
    ensures
        balanced(spec_vec2_text(c)),
{
    lemma_rat_text_balanced(c.re);
    lemma_rat_text_balanced(c.im);
    lemma_call2_balanced(seq!['v', 'e', 'c', '2'], spec_rat_text(c.re), spec_rat_text(c.im));
    assert(seq!['v', 'e', 'c', '2'] + seq!['('] + spec_rat_text(c.re) + seq![','] + spec_rat_text(
        c.im,
    ) + seq![')'] =~= spec_vec2_text(c));
}

/// Law: for every expression tree whose tag spellings hold no parenthesis,
/// the generated snippet contains no unmatched parenthesis. (That the
/// generator is deterministic is already given by [`spec_snippet`] being a
/// function of the tree alone, which the contract of [`build_snippet`] pins
/// its output to.)
pub proof fn lemma_snippet_balanced<F: Spelling, O: Spelling>(e: Expr<Complex<Rational>, F, O>)
    requires
        forall|f: F| paren_free(#[trigger] f.spelling_spec()),
        forall|o: O| paren_free(#[trigger] o.spelling_spec()),
    ensures
        balanced(spec_snippet(e)),
    decreases e,
{
    match e {
        Expr::Variable(v) => {
            lemma_depth_paren_free(spec_snippet(e), 0);
        },
        Expr::Constant(ct) => {
            lemma_vec2_text_balanced(ct);
        },
        Expr::Function(f, e1) => {
            lemma_snippet_balanced(*e1);
            if f.prefix_spec() {
                lemma_prefix_balanced(f.spelling_spec(), spec_snippet(*e1));
            } else {
                lemma_call1_balanced(f.spelling_spec(), spec_snippet(*e1));
            }
        },
        Expr::Operator(op, l, r) => {
            lemma_snippet_balanced(*l);
            lemma_snippet_balanced(*r);
            lemma_call2_balanced(op.spelling_spec(), spec_snippet(*l), spec_snippet(*r));
        },
    }
}

/// The spellings of the concrete complex-function tag set hold no
/// parenthesis.
pub proof fn lemma_complex_spellings_paren_free()
    ensures
        forall|f: ComplexFunction| paren_free(#[trigger] f.spelling_spec()),
        forall|o: FieldOperator| paren_free(#[trigger] o.spelling_spec()),
{
}

/// Law, at the concrete tag sets the plotter renders with: every generated
/// snippet is balanced.
pub proof fn lemma_snippet_balanced_complex(e: Expr<Complex<Rational>, ComplexFunction, FieldOperator>)
    ensures
        balanced(spec_snippet(e)),
{
    lemma_complex_spellings_paren_free();
    lemma_snippet_balanced(e);
}


/// The display text of a complex value: the imaginary part carries an
/// explicit leading sign token and both components are rendered as absolute
/// values, so the output is always of the form `[-]re [+|-] im i`.
pub open spec fn spec_display_text(c: Complex<Rational>) -> Seq<char> {
    (if c.re.is_pos() {
        Seq::<char>::empty()
    } else {
        seq![' ', '-']
    }) + spec_rat_text(c.re.abs_spec()) + (if c.im.is_pos() {
        seq![' ', '+', ' ']
    } else {
        seq![' ', '-', ' ']
    }) + spec_rat_text(c.im.abs_spec()) + seq!['i']
}

impl Complex<Rational> {
    /// Render the value for display, with explicit sign tokens.
    pub fn display_string(&self) -> (r: String)
        requires
            self.re.abs_ok(),
            self.im.abs_ok(),
        ensures
            r@ == spec_display_text(*self),
    {
        proof {
            reveal_strlit(" -");
            reveal_strlit(" + ");
            reveal_strlit(" - ");
            reveal_strlit("i");
        }
        let mut out = String::new();
        if !(self.re.num > 0) {
            out.append(" -");
        }
        push_rat(&mut out, &self.re.abs());
        if self.im.num > 0 {
            out.append(" + ");
        } else {
            out.append(" - ");
        }
        push_rat(&mut out, &self.im.abs());
        out.append("i");
        proof {
            assert(out@ =~= spec_display_text(*self));
        }
        out
    }
}

} // verus!
