use calculator_cli::errors::CalculatorError;
use calculator_cli::parser::Parser;
use calculator_cli::value::Value;

fn as_f64(v: Value) -> f64 {
    v.num as f64 / v.den as f64
}

#[test]
fn test_simple_addition() {
    let mut parser = Parser::new("1 + 2");
    assert_eq!(as_f64(parser.parse().unwrap()), 3.0);
}

#[test]
fn test_multiplication_precedence() {
    let mut parser = Parser::new("2 + 3 * 4");
    assert_eq!(as_f64(parser.parse().unwrap()), 14.0);
}

#[test]
fn test_parentheses() {
    let mut parser = Parser::new("(2 + 3) * 4");
    assert_eq!(as_f64(parser.parse().unwrap()), 20.0);
}

#[test]
fn test_power() {
    let mut parser = Parser::new("2 ^ 3");
    assert_eq!(as_f64(parser.parse().unwrap()), 8.0);
}

#[test]
fn test_division_by_zero() {
    let mut parser = Parser::new("1 / 0");
    assert!(matches!(parser.parse(), Err(CalculatorError::DivisionByZero)));
}

#[test]
fn test_unbalanced_parentheses() {
    let mut parser = Parser::new("(1 + 2");
    assert!(matches!(
        parser.parse(),
        Err(CalculatorError::UnbalancedParentheses)
    ));
}

#[test]
fn test_negative_numbers() {
    let mut parser = Parser::new("-5 + 3");
    assert_eq!(as_f64(parser.parse().unwrap()), -2.0);
}

#[test]
fn test_floating_point() {
    let mut parser = Parser::new("3.14 + 2.86");
    assert!((as_f64(parser.parse().unwrap()) - 6.0).abs() < 1e-10);
}

#[test]
fn test_left_associative_subtraction() {
    let mut parser = Parser::new("10 - 3 - 2");
    assert_eq!(as_f64(parser.parse().unwrap()), 5.0);
}

#[test]
fn test_right_associative_power() {
    let mut parser = Parser::new("2 ^ 3 ^ 2");
    assert_eq!(as_f64(parser.parse().unwrap()), 512.0);
}

#[test]
fn test_unary_chain() {
    let mut parser = Parser::new("--5");
    assert_eq!(as_f64(parser.parse().unwrap()), 5.0);
}

#[test]
fn test_unary_plus() {
    let mut parser = Parser::new("+5 - 3");
    assert_eq!(as_f64(parser.parse().unwrap()), 2.0);
}

#[test]
fn test_zero_over_zero() {
    let mut parser = Parser::new("0 / 0");
    assert!(matches!(parser.parse(), Err(CalculatorError::DivisionByZero)));
}

#[test]
fn test_trailing_garbage() {
    let mut parser = Parser::new("1 2");
    assert!(matches!(parser.parse(), Err(CalculatorError::ParseError(_))));
}

#[test]
fn test_trailing_right_paren() {
    let mut parser = Parser::new("1 + 2 )");
    assert!(matches!(parser.parse(), Err(CalculatorError::ParseError(_))));
}

#[test]
fn test_invalid_character() {
    let mut parser = Parser::new("1 + $");
    match parser.parse() {
        Err(CalculatorError::ParseError(m)) => assert_eq!(m, "invalid character: $"),
        other => panic!("expected a parse error, got {:?}", other),
    }
}

#[test]
fn test_invalid_character_first() {
    let mut parser = Parser::new("$");
    match parser.parse() {
        Err(CalculatorError::ParseError(m)) => assert_eq!(m, "invalid character: $"),
        other => panic!("expected a parse error, got {:?}", other),
    }
}

#[test]
fn test_lone_dot_is_invalid_number() {
    let mut parser = Parser::new("1 + .");
    match parser.parse() {
        Err(CalculatorError::InvalidNumber(m)) => assert_eq!(m, "."),
        other => panic!("expected an invalid number error, got {:?}", other),
    }
}

#[test]
fn test_two_dots_split_the_literal() {
    let mut parser = Parser::new("1.2.3");
    assert!(matches!(parser.parse(), Err(CalculatorError::ParseError(_))));
}

#[test]
fn test_trailing_dot_literal() {
    let mut parser = Parser::new("1.");
    assert_eq!(as_f64(parser.parse().unwrap()), 1.0);
}

#[test]
fn test_leading_dot_literal() {
    let mut parser = Parser::new(".5");
    assert_eq!(as_f64(parser.parse().unwrap()), 0.5);
}

#[test]
fn test_empty_parens() {
    let mut parser = Parser::new("()");
    assert!(matches!(parser.parse(), Err(CalculatorError::ParseError(_))));
}

#[test]
fn test_operator_without_operand() {
    let mut parser = Parser::new("1 +");
    assert!(matches!(parser.parse(), Err(CalculatorError::ParseError(_))));
}

#[test]
fn test_negative_exponent() {
    let mut parser = Parser::new("2 ^ -1");
    let v = parser.parse().unwrap();
    assert_eq!(as_f64(v), 0.5);
}

#[test]
fn test_zero_power_zero() {
    let mut parser = Parser::new("0 ^ 0");
    assert_eq!(as_f64(parser.parse().unwrap()), 1.0);
}

#[test]
fn test_fractional_exponent_not_representable() {
    let mut parser = Parser::new("2 ^ 0.5");
    assert!(matches!(
        parser.parse(),
        Err(CalculatorError::NotRepresentable)
    ));
}

#[test]
fn test_addition_overflow_not_representable() {
    let mut parser = Parser::new("9223372036854775807 + 1");
    assert!(matches!(
        parser.parse(),
        Err(CalculatorError::NotRepresentable)
    ));
}

#[test]
fn test_huge_literal_is_invalid_number() {
    let mut parser = Parser::new("123456789012345678901234567890");
    assert!(matches!(
        parser.parse(),
        Err(CalculatorError::InvalidNumber(_))
    ));
}

#[test]
fn test_whitespace_everywhere() {
    let mut parser = Parser::new("  1   +\t2  ");
    assert_eq!(as_f64(parser.parse().unwrap()), 3.0);
}

#[test]
fn test_nested_parentheses() {
    let mut parser = Parser::new("((2 + 3) * (4 - 1))");
    assert_eq!(as_f64(parser.parse().unwrap()), 15.0);
}

#[test]
fn test_division_is_left_associative() {
    let mut parser = Parser::new("8 / 4 / 2");
    assert_eq!(as_f64(parser.parse().unwrap()), 1.0);
}
