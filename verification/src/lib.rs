//! Front end of a small expression language: a scanner that turns source text
//! into tokens, and an evaluator that reduces an expression tree to a value.
pub mod convert;
pub mod expression;
pub mod number;
pub mod scanner;
pub mod token;
