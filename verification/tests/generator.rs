use complex_formula::algebra::Complex;
use complex_formula::codegen::build_snippet;
use complex_formula::expression::{Expr, ExprComplex, FieldFunction, FieldOperator, Variable};
use complex_formula::rational::Rational;

fn snippet_of(e: &ExprComplex) -> String {
    let mut out = String::new();
    build_snippet(&mut out, e);
    out
}

#[test]
fn snippet_simple_sum() {
    let e = ExprComplex::from_str("z+1").unwrap();
    assert_eq!(snippet_of(&e), "add(z,vec2(1,0))");
}

#[test]
fn snippet_named_functions() {
    let e = ExprComplex::from_str("Re(z)*abs(i)").unwrap();
    assert_eq!(snippet_of(&e), "mul(re(z),abs(vec2(0,1)))");
}

#[test]
fn snippet_fraction_constant() {
    let e = ExprComplex::from_str("0.5").unwrap();
    assert_eq!(snippet_of(&e), "vec2((5.0/10.0),0)");
}

#[test]
fn snippet_prefix_functions() {
    // the field-function tag set renders as bare prefixes
    let e =
        Expr::<Complex<Rational>, FieldFunction, FieldOperator>::from_str("-(z+i)").unwrap();
    let mut out = String::new();
    build_snippet(&mut out, &e);
    assert_eq!(out, "-add(z,vec2(0,1))");

    // over the complex domain a leading `i` always parses as the imaginary
    // unit, so an inversion node is built directly
    let inv: Expr<Complex<Rational>, FieldFunction, FieldOperator> = Expr::Function(
        FieldFunction::Inv,
        Box::new(Expr::Variable(Variable::Z)),
    );
    let mut out2 = String::new();
    build_snippet(&mut out2, &inv);
    assert_eq!(out2, "1.0/z");
}

#[test]
fn snippet_deterministic_and_balanced() {
    let src = "(z*z+1)/(z*z-1)+z";
    let e1 = ExprComplex::from_str(src).unwrap();
    let e2 = ExprComplex::from_str(src).unwrap();
    let s1 = snippet_of(&e1);
    let s2 = snippet_of(&e2);
    assert_eq!(s1, s2);
    let mut depth: i64 = 0;
    for ch in s1.chars() {
        if ch == '(' {
            depth += 1;
        }
        if ch == ')' {
            depth -= 1;
            assert!(depth >= 0, "unmatched closing parenthesis");
        }
    }
    assert_eq!(depth, 0, "unmatched opening parenthesis");
}

#[test]
fn snippet_appends_after_existing_text() {
    let e = ExprComplex::from_str("z").unwrap();
    let mut out = String::from("prefix ");
    build_snippet(&mut out, &e);
    assert_eq!(out, "prefix z");
}

#[test]
fn display_form() {
    let five = Complex::from(Rational::from_int(5));
    assert_eq!(five.display_string(), "5 - 0i");
    let v = Complex {
        re: Rational::from_int(-2),
        im: Rational::from_int(3),
    };
    assert_eq!(v.display_string(), " -2 + 3i");
    let w = Complex {
        re: Rational::new(1, 2),
        im: Rational::from_int(-4),
    };
    assert_eq!(w.display_string(), "(1.0/2.0) - 4i");
}
