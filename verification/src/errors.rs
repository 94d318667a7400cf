//! The error taxonomy of the calculator. Every failure is surfaced to the
//! caller as a value; no error aborts the process.

use vstd::prelude::*;
use vstd::string::StringExecFns;

verus! {

/// What can go wrong while evaluating an expression.
#[derive(Debug, Clone)]
pub enum CalculatorError {
    /// Malformed syntax: an invalid character, an unexpected token, or
    /// trailing tokens after a complete expression.
    ParseError(String),
    /// The right operand of `/` is exactly zero.
    DivisionByZero,
    /// Reserved for operations the calculator does not support.
    InvalidOperation(String),
    /// A `(` is never matched by a corresponding `)`.
    UnbalancedParentheses,
    /// The input is empty or consists only of whitespace.
    EmptyExpression,
    /// A numeric literal could not be converted to a value.
    InvalidNumber(String),
    /// An exact intermediate result does not fit the calculator's numeric
    /// range (or a power has a non-integer exponent).
    NotRepresentable,
}

/// The mathematical image of a `CalculatorError`: the same variants, with
/// each message as a sequence of characters.
pub enum ErrView {
    Parse(Seq<char>),
    DivZero,
    InvalidOp(Seq<char>),
    Unbalanced,
    Empty,
    InvalidNum(Seq<char>),
    NotRep,
}

impl View for CalculatorError {
    type V = ErrView;

    open spec fn view(&self) -> ErrView {
        match self {
            CalculatorError::ParseError(m) => ErrView::Parse(m@),
            CalculatorError::DivisionByZero => ErrView::DivZero,
            CalculatorError::InvalidOperation(m) => ErrView::InvalidOp(m@),
            CalculatorError::UnbalancedParentheses => ErrView::Unbalanced,
            CalculatorError::EmptyExpression => ErrView::Empty,
            CalculatorError::InvalidNumber(m) => ErrView::InvalidNum(m@),
            CalculatorError::NotRepresentable => ErrView::NotRep,
        }
    }
}

impl CalculatorError {
    /// The description of an error, one line of text.
    pub open spec fn spec_message(&self) -> Seq<char> {
        match self@ {
            ErrView::Parse(m) => "parse error: "@ + m,
            ErrView::DivZero => "division by zero"@,
            ErrView::InvalidOp(m) => "invalid operation: "@ + m,
            ErrView::Unbalanced => "unbalanced parentheses"@,
            ErrView::Empty => "empty expression"@,
            ErrView::InvalidNum(m) => "invalid number: "@ + m,
            ErrView::NotRep => "value not representable"@,
        }
    }

    /// A human-readable description of the error.
    pub fn message(&self) -> (r: String)
        ensures
            r@ == self.spec_message(),
    {
        match self {
            CalculatorError::ParseError(m) => "parse error: ".to_owned().concat(m.as_str()),
            CalculatorError::DivisionByZero => "division by zero".to_owned(),
            CalculatorError::InvalidOperation(m) => "invalid operation: ".to_owned().concat(
                m.as_str(),
            ),
            CalculatorError::UnbalancedParentheses => "unbalanced parentheses".to_owned(),
            CalculatorError::EmptyExpression => "empty expression".to_owned(),
            CalculatorError::InvalidNumber(m) => "invalid number: ".to_owned().concat(m.as_str()),
            CalculatorError::NotRepresentable => "value not representable".to_owned(),
        }
    }
}

pub type CalculatorResult<T> = Result<T, CalculatorError>;

} // verus!
