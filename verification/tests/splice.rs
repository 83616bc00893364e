use complex_formula::algebra::{Complex, Module, VectorSpace};
use complex_formula::rational::Rational;
use complex_formula::template::{find_str, splice_template};

#[test]
fn find_first_occurrence() {
    assert_eq!(find_str("abcabc", "bc"), Some(1));
    assert_eq!(find_str("abcabc", "cab"), Some(2));
    assert_eq!(find_str("abcabc", "x"), None);
    assert_eq!(find_str("short", "much longer"), None);
}

#[test]
fn splice_replaces_marked_span() {
    let template = "head /*BEGIN*/old text/*END*/ tail";
    let out = splice_template(template, "/*BEGIN*/", "/*END*/", "NEW");
    assert_eq!(out, "head NEW tail");
}

#[test]
fn splice_without_markers_is_noop() {
    let template = "no markers here";
    let out = splice_template(template, "/*BEGIN*/", "/*END*/", "NEW");
    assert_eq!(out, template);
}

#[test]
fn splice_with_reversed_markers_is_noop() {
    let template = "x /*END*/ y /*BEGIN*/ z";
    let out = splice_template(template, "/*BEGIN*/", "/*END*/", "NEW");
    assert_eq!(out, template);
}

fn scale_by<V: VectorSpace<Rational>>(v: V, f: Rational) -> V {
    v.scale(f)
}

#[test]
fn complex_is_a_vector_space_over_its_scalar() {
    let v = Complex {
        re: Rational::from_int(2),
        im: Rational::from_int(-1),
    };
    let scaled = scale_by(v, Rational::from_int(3));
    let expected = Complex {
        re: Rational::from_int(6),
        im: Rational::from_int(-3),
    };
    assert_eq!(scaled, expected);
}
