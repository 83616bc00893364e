//! Formula pipeline for plotting functions over the complex numbers: an
//! algebraic capability hierarchy, a generic expression tree, a
//! recursive-descent parser, a tree-walking evaluator, and a code generator
//! that renders an expression tree as a shading-language snippet.
pub mod algebra;
pub mod codegen;
pub mod expression;
pub mod parser;
pub mod rational;
pub mod template;

pub use algebra::Complex;
pub use rational::Rational;
