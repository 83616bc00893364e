//! Expression model: a generic AST over a value type `T`, a unary function
//! tag type `F` and a binary operator tag type `O`, together with the closed
//! tag enumerations and a tree-walking evaluator.
use vstd::prelude::*;

use crate::algebra::{Complex, Field};
use crate::rational::Rational;

verus! {

/// A unary capability: one operation, `apply(value) -> value`.
///
/// `apply_ok` says on which values the operation is defined (representable
/// without overflow, divisor non-degenerate); `apply_spec` gives the exact
/// result.
pub trait Function<T> {
    /// Whether `apply` is defined on `val`.
    spec fn apply_ok(self, val: T) -> bool;

    /// The exact result of `apply` on `val`.
    spec fn apply_spec(self, val: T) -> T;

    fn apply(&self, val: T) -> (r: T)
        requires
            self.apply_ok(val),
        ensures
            r == self.apply_spec(val),
    ;
}

/// A binary capability: one operation, `apply(left, right) -> value`.
pub trait Operator<T> {
    /// Whether `apply` is defined on `left` and `right`.
    spec fn apply_ok(self, left: T, right: T) -> bool;

    /// The exact result of `apply` on `left` and `right`.
    spec fn apply_spec(self, left: T, right: T) -> T;

    fn apply(&self, left: T, right: T) -> (r: T)
        requires
            self.apply_ok(left, right),
        ensures
            r == self.apply_spec(left, right),
    ;
}

/// One of the closed set of named variables a formula may reference.
#[derive(Debug, Clone, Copy, PartialEq, Eq, Hash, Structural)]
pub enum Variable {
    Z,
    C,
}

/// An immutable, recursively-owned expression tree with four node shapes.
///
/// Structural equality is defined recursively over node shape and payload;
/// no algebraic simplification or normalization is ever performed.
#[derive(Debug, PartialEq, Eq)]
pub enum Expr<T, F, O> {
    Variable(Variable),
    Constant(T),
    Function(F, Box<Expr<T, F, O>>),
    Operator(O, Box<Expr<T, F, O>>, Box<Expr<T, F, O>>),
}

/// The binding environment: a mapping from each variable token to a concrete
/// value, supplied fresh by the caller before each evaluation.
pub struct Bindings<T> {
    z: Option<T>,
    c: Option<T>,
}

impl<T> View for Bindings<T> {
    type V = Map<Variable, T>;

    closed spec fn view(&self) -> Map<Variable, T> {
        let m = Map::empty();
        let m = match self.z {
            Some(t) => m.insert(Variable::Z, t),
            None => m,
        };
        match self.c {
            Some(t) => m.insert(Variable::C, t),
            None => m,
        }
    }
}

impl<T> Bindings<T> {
    pub fn new() -> (r: Bindings<T>)
        ensures
            r@ == Map::<Variable, T>::empty(),
    {
        let r = Bindings { z: None, c: None };
        proof {
            assert(r@ =~= Map::<Variable, T>::empty());
        }
        r
    }

    pub fn insert(&mut self, v: Variable, t: T)
        ensures
            final(self)@ == old(self)@.insert(v, t),
    {
        match v {
            Variable::Z => {
                self.z = Some(t);
            },
            Variable::C => {
                self.c = Some(t);
            },
        }
        proof {
            assert(self@ =~= old(self)@.insert(v, t));
        }
    }

    pub fn get(&self, v: Variable) -> (r: Option<&T>)
        ensures
            match r {
                Some(t) => self@.contains_key(v) && *t == self@[v],
                None => !self@.contains_key(v),
            },
    {
        match v {
            Variable::Z => self.z.as_ref(),
            Variable::C => self.c.as_ref(),
        }
    }
}

/// The value of an expression under an environment, by direct post-order
/// reduction: `None` where the tree references an unbound variable or where
/// a tag's operation is undefined on the reduced children.
pub open spec fn spec_eval<T, F: Function<T>, O: Operator<T>>(
    e: Expr<T, F, O>,
    env: Map<Variable, T>,
) -> Option<T>
    decreases e,
{
    match e {
        Expr::Variable(v) => if env.contains_key(v) {
            Some(env[v])
        } else {
            None
        },
        Expr::Constant(t) => Some(t),
        Expr::Function(fun, exp) => match spec_eval(*exp, env) {
            Some(val) => if fun.apply_ok(val) {
                Some(fun.apply_spec(val))
            } else {
                None
            },
            None => None,
        },
        Expr::Operator(op, left, right) => match (spec_eval(*left, env), spec_eval(*right, env)) {
            (Some(l), Some(r)) => if op.apply_ok(l, r) {
                Some(op.apply_spec(l, r))
            } else {
                None
            },
            _ => None,
        },
    }
}

impl<T, F, O> Expr<T, F, O> where T: Copy, F: Function<T>, O: Operator<T> {
    /// Evaluate the tree under the bindings `t`: children first, then the
    /// node's own tag. The precondition rules out exactly the unbound
    /// variables (a violation of the caller's duty to bind every variable
    /// the formula can reference) and the undefined arithmetic.
    pub fn eval(&self, t: &Bindings<T>) -> (r: T)
        requires
            spec_eval(*self, t@) is Some,
        ensures
            Some(r) == spec_eval(*self, t@),
        decreases *self,
    {
        match self {
            Expr::Variable(v) => *t.get(*v).unwrap(),
            Expr::Constant(ct) => *ct,
            Expr::Function(fun, exp) => {
                let val = exp.eval(t);
                fun.apply(val)
            },
            Expr::Operator(op, left, right) => {
                let l = left.eval(t);
                let r = right.eval(t);
                op.apply(l, r)
            },
        }
    }
}

/// Law: a formula that is a single literal evaluates to that literal under
/// any bindings.
pub proof fn lemma_eval_constant<T, F: Function<T>, O: Operator<T>>(n: T, env: Map<Variable, T>)
    ensures
        spec_eval(Expr::<T, F, O>::Constant(n), env) == Some(n),
{
}

/// Law: under any bindings that map the variable `z` to a value `v`, the
/// bare formula `z` evaluates to `v`.
pub proof fn lemma_eval_variable<T, F: Function<T>, O: Operator<T>>(v: T, env: Map<Variable, T>)
    requires
        env.contains_key(Variable::Z),
        env[Variable::Z] == v,
    ensures
        spec_eval(Expr::<T, F, O>::Variable(Variable::Z), env) == Some(v),
{
}

/// The closed binary operator set over any `Field`.
#[derive(Debug, Clone, Copy, PartialEq, Eq)]
pub enum FieldOperator {
    Add,
    Sub,
    Mul,
    Div,
}

impl<T: Field> Operator<T> for FieldOperator {
    open spec fn apply_ok(self, left: T, right: T) -> bool {
        match self {
            FieldOperator::Add => left.add_ok(right),
            FieldOperator::Sub => left.sub_ok(right),
            FieldOperator::Mul => left.mul_ok(right),
            FieldOperator::Div => left.div_ok(right),
        }
    }

    open spec fn apply_spec(self, left: T, right: T) -> T {
        match self {
            FieldOperator::Add => left.add_spec(right),
            FieldOperator::Sub => left.sub_spec(right),
            FieldOperator::Mul => left.mul_spec(right),
            FieldOperator::Div => left.div_spec(right),
        }
    }

    fn apply(&self, left: T, right: T) -> T {
        match self {
            FieldOperator::Add => left.add(right),
            FieldOperator::Sub => left.sub(right),
            FieldOperator::Mul => left.mul(right),
            FieldOperator::Div => left.div(right),
        }
    }
}

/// The closed unary function set over any `Field`: negation and inversion.
#[derive(Debug, Clone, Copy, PartialEq, Eq)]
pub enum FieldFunction {
    Neg,
    Inv,
}

impl<T: Field> Function<T> for FieldFunction {
    open spec fn apply_ok(self, val: T) -> bool {
        match self {
            FieldFunction::Neg => val.neg_ok(),
            FieldFunction::Inv => T::u_spec().div_ok(val),
        }
    }

    open spec fn apply_spec(self, val: T) -> T {
        match self {
            FieldFunction::Neg => val.neg_spec(),
            FieldFunction::Inv => T::u_spec().div_spec(val),
        }
    }

    fn apply(&self, val: T) -> T {
        match self {
            FieldFunction::Neg => val.neg(),
            FieldFunction::Inv => T::u().div(val),
        }
    }
}

/// The closed unary function set that only makes sense on a complex value:
/// real part, imaginary part, magnitude.
#[derive(Debug, Clone, Copy, PartialEq, Eq)]
pub enum ComplexFunction {
    Re,
    Im,
    Abs,
}

impl Function<Complex<Rational>> for ComplexFunction {
    /// `Abs` is the square root of the squared norm; over the exact scalar
    /// it is defined on the real-valued inputs (imaginary part zero), where
    /// it is the absolute value of the real part.
    open spec fn apply_ok(self, val: Complex<Rational>) -> bool {
        match self {
            ComplexFunction::Re => true,
            ComplexFunction::Im => true,
            ComplexFunction::Abs => val.im.is_zero() && val.re.abs_ok(),
        }
    }

    open spec fn apply_spec(self, val: Complex<Rational>) -> Complex<Rational> {
        match self {
            ComplexFunction::Re => Complex::lift_spec(val.re),
            ComplexFunction::Im => Complex::lift_spec(val.im),
            ComplexFunction::Abs => Complex::lift_spec(val.re.abs_spec()),
        }
    }

    fn apply(&self, val: Complex<Rational>) -> Complex<Rational> {
        match self {
            ComplexFunction::Re => Complex::from(val.re),
            ComplexFunction::Im => Complex::from(val.im),
            ComplexFunction::Abs => Complex::from(val.re.abs()),
        }
    }
}

/// The expression type the plotter renders: complex constants, the
/// complex-specific function tags, and the field operators.
pub type ExprComplex = Expr<Complex<Rational>, ComplexFunction, FieldOperator>;

} // verus!
