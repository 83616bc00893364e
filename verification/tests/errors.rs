use complex_formula::expression::{Expr, ExprComplex, FieldFunction, FieldOperator};
use complex_formula::parser::{ParseError, ParseErrorKind};
use complex_formula::rational::Rational;

type ExprRat = Expr<Rational, FieldFunction, FieldOperator>;

#[test]
fn unmatched_parenthesis_is_reported() {
    let err = ExprRat::from_str("(3+2").unwrap_err();
    assert_eq!(
        err,
        ParseError {
            at: 0,
            kind: ParseErrorKind::NotMatched
        }
    );
    assert_eq!(err.remainder("(3+2"), "(3+2");
}

#[test]
fn trailing_garbage_is_reported() {
    let err = ExprRat::from_str("2+4+5xyz").unwrap_err();
    assert_eq!(err.at, 5);
    assert_eq!(err.kind, ParseErrorKind::TrailingInput);
    assert_eq!(err.remainder("2+4+5xyz"), "xyz");
}

#[test]
fn dangling_operator_is_reported() {
    let err = ExprRat::from_str("2+").unwrap_err();
    assert_eq!(err.at, 1);
    assert_eq!(err.kind, ParseErrorKind::TrailingInput);
    assert_eq!(err.remainder("2+"), "+");
}

#[test]
fn unknown_function_token_is_reported() {
    let err = ExprRat::from_str("foo").unwrap_err();
    assert_eq!(err.at, 0);
    assert_eq!(err.kind, ParseErrorKind::NotMatched);
}

#[test]
fn empty_input_is_reported() {
    let err = ExprRat::from_str("").unwrap_err();
    assert_eq!(err.at, 0);
    assert_eq!(err.kind, ParseErrorKind::NotMatched);
}

#[test]
fn oversized_literal_is_reported() {
    // more digits than the exact scalar holds
    let err = ExprRat::from_str("12345678901234567890").unwrap_err();
    assert_eq!(err.at, 0);
    assert_eq!(err.kind, ParseErrorKind::NotMatched);
}

#[test]
fn same_formula_parses_equal() {
    let a = ExprComplex::from_str("(2-i)*(2+i)").unwrap();
    let b = ExprComplex::from_str("(2-i)*(2+i)").unwrap();
    assert_eq!(a, b);
}

#[test]
fn equivalent_formulas_need_not_compare_equal() {
    let a = ExprRat::from_str("1+1").unwrap();
    let b = ExprRat::from_str("2").unwrap();
    assert_ne!(a, b);
}

#[test]
fn fraction_equality_is_by_value() {
    assert_eq!(Rational::new(2, 4), Rational::new(1, 2));
    assert_ne!(Rational::new(2, 4), Rational::new(1, 3));
}
