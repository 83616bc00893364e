use complex_formula::algebra::{Complex, Field, Group, Ring, Zero};
use complex_formula::expression::{
    Bindings, Expr, ExprComplex, FieldFunction, FieldOperator, Function, Operator, Variable,
};
use complex_formula::parser::Parseable;
use complex_formula::rational::Rational;

fn parse_and_eval<T>(input: &str) -> T
where
    T: Parseable + Field,
    FieldFunction: Function<T>,
    FieldOperator: Operator<T>,
{
    let mut values = Bindings::new();
    values.insert(Variable::Z, T::o());
    Expr::<T, FieldFunction, FieldOperator>::from_str(input)
        .unwrap()
        .eval(&values)
}

#[test]
fn literal() {
    assert_eq!(parse_and_eval::<Rational>("1"), Rational::from_int(1))
}

#[test]
fn variable() {
    assert_eq!(parse_and_eval::<Rational>("z"), Rational::from_int(0))
}

#[test]
fn parens() {
    assert_eq!(parse_and_eval::<Rational>("(2)"), Rational::from_int(2))
}

#[test]
fn sum() {
    assert_eq!(parse_and_eval::<Rational>("2+4"), Rational::from_int(6))
}

#[test]
fn sum_2() {
    assert_eq!(parse_and_eval::<Rational>("2+4+5"), Rational::from_int(11))
}

#[test]
fn prod() {
    assert_eq!(parse_and_eval::<Rational>("2*4"), Rational::from_int(8))
}

#[test]
fn prod_2() {
    assert_eq!(parse_and_eval::<Rational>("3*4*5"), Rational::from_int(60))
}

#[test]
fn div_div() {
    assert_eq!(parse_and_eval::<Rational>("2/2/2"), Rational::new(1, 2))
}

#[test]
fn mix_1() {
    assert_eq!(parse_and_eval::<Rational>("3*4+5"), Rational::from_int(17))
}

#[test]
fn mix_2() {
    assert_eq!(parse_and_eval::<Rational>("-(3+2)"), Rational::from_int(-5))
}

#[test]
fn complex() {
    assert_eq!(
        parse_and_eval::<Complex<Rational>>("1*i"),
        Complex::<Rational>::i()
    )
}

#[test]
fn complex_2() {
    assert_eq!(
        parse_and_eval::<Complex<Rational>>("-1*i"),
        Complex::<Rational>::i().neg()
    )
}

#[test]
fn complex_3() {
    assert_eq!(
        parse_and_eval::<Complex<Rational>>("(2-i)*(2+i)"),
        Complex::from(Rational::from_int(5))
    )
}

#[test]
fn fraction_literal() {
    assert_eq!(parse_and_eval::<Rational>("0.5+0.25"), Rational::new(3, 4))
}

#[test]
fn inversion_function() {
    assert_eq!(parse_and_eval::<Rational>("inv2"), Rational::new(1, 2))
}

#[test]
fn leading_minus_literal() {
    // a leading minus directly before a literal is part of the literal
    assert_eq!(parse_and_eval::<Rational>("-3+2"), Rational::from_int(-1))
}

#[test]
fn two_variables() {
    let mut values = Bindings::new();
    values.insert(Variable::Z, Rational::from_int(6));
    values.insert(Variable::C, Rational::from_int(7));
    let e = Expr::<Rational, FieldFunction, FieldOperator>::from_str("z*c").unwrap();
    assert_eq!(e.eval(&values), Rational::from_int(42));
}

#[test]
fn complex_function_eval() {
    let mut values = Bindings::new();
    values.insert(Variable::Z, Complex::from(Rational::from_int(-3)));
    let e = ExprComplex::from_str("abs(z)").unwrap();
    assert_eq!(e.eval(&values), Complex::from(Rational::from_int(3)));
    let re = ExprComplex::from_str("Re(i)").unwrap();
    assert_eq!(re.eval(&values), Complex::from(Rational::from_int(0)));
    let im = ExprComplex::from_str("Im(3+i)").unwrap();
    assert_eq!(im.eval(&values), Complex::from(Rational::from_int(1)));
}

#[test]
fn norm_sq_of_three_four() {
    let v = Complex {
        re: Rational::from_int(3),
        im: Rational::from_int(4),
    };
    assert_eq!(v.norm_sq(), Rational::from_int(25));
}

#[test]
fn complex_division() {
    // (4 + 2i) / (1 + i) = 3 - i
    let mut values = Bindings::new();
    values.insert(Variable::Z, Complex::<Rational>::o());
    let e = Expr::<Complex<Rational>, FieldFunction, FieldOperator>::from_str("(4+2*i)/(1+i)")
        .unwrap();
    let expected = Complex {
        re: Rational::from_int(3),
        im: Rational::from_int(-1),
    };
    assert_eq!(e.eval(&values), expected);
}

#[test]
fn integer_group_and_ring() {
    assert_eq!(2u32.add(3), 5);
    assert_eq!((-2i32).mul(3), -6);
    assert_eq!(5i32.sub(9), -4);
    assert_eq!(7i32.neg(), -7);
}
