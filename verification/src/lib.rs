//! An interactive arithmetic expression evaluator: a tokenizer and a
//! recursive-descent, precedence-climbing parser that folds an infix
//! expression into a single exact rational value, plus a bounded history
//! of prior evaluations.

pub mod calculator;
pub mod errors;
pub mod parser;
pub mod text;
pub mod value;
