use calculator_cli::calculator::Calculator;
use calculator_cli::errors::CalculatorError;
use calculator_cli::value::Value;

#[test]
fn test_calculator_new() {
    let calc = Calculator::new();
    assert_eq!(calc.history_count(), 0);
    assert_eq!(calc.max_history, 100);
}

#[test]
fn test_calculator_with_max_history() {
    let calc = Calculator::with_max_history(50);
    assert_eq!(calc.max_history, 50);
}

#[test]
fn test_calculator_creation() {
    let calc = Calculator::new();
    assert_eq!(calc.history_count(), 0);
}

#[test]
fn test_empty_expression() {
    let mut calc = Calculator::new();
    let result = calc.evaluate("");
    assert!(matches!(result, Err(CalculatorError::EmptyExpression)));
}

#[test]
fn test_whitespace_only_expression() {
    let mut calc = Calculator::new();
    let result = calc.evaluate("   ");
    assert!(matches!(result, Err(CalculatorError::EmptyExpression)));
}

#[test]
fn test_history_management() {
    let mut calc = Calculator::with_max_history(2);

    calc.add_to_history("1+1", &Value::from_int(2));
    calc.add_to_history("2+2", &Value::from_int(4));
    calc.add_to_history("3+3", &Value::from_int(6));

    assert_eq!(calc.history_count(), 2);
    assert_eq!(calc.get_history()[0], "2+2 = 4");
    assert_eq!(calc.get_history()[1], "3+3 = 6");
}

#[test]
fn test_history_fifo_through_evaluate() {
    let mut calc = Calculator::with_max_history(2);
    calc.evaluate("1+1").unwrap();
    calc.evaluate("2+2").unwrap();
    calc.evaluate("3+3").unwrap();
    assert_eq!(calc.history_count(), 2);
    assert_eq!(calc.get_history()[0], "2+2 = 4");
    assert_eq!(calc.get_history()[1], "3+3 = 6");
}

#[test]
fn test_history_entry_for_fraction() {
    let mut calc = Calculator::new();
    let v = calc.evaluate("1 / 2").unwrap();
    assert_eq!(v.num, 1);
    assert_eq!(v.den, 2);
    assert_eq!(calc.get_history()[0], "1 / 2 = 1/2");
}

#[test]
fn test_history_entry_for_negative_result() {
    let mut calc = Calculator::new();
    calc.evaluate("2 - 5").unwrap();
    assert_eq!(calc.get_history()[0], "2 - 5 = -3");
}

#[test]
fn test_clear_history() {
    let mut calc = Calculator::new();
    calc.evaluate("1+1").unwrap();
    assert_eq!(calc.history_count(), 1);
    calc.clear_history();
    assert_eq!(calc.history_count(), 0);
}

#[test]
fn test_error_leaves_history_unchanged() {
    let mut calc = Calculator::new();
    calc.evaluate("1+1").unwrap();
    let result = calc.evaluate("1 / 0");
    assert!(matches!(result, Err(CalculatorError::DivisionByZero)));
    assert_eq!(calc.history_count(), 1);
    assert_eq!(calc.get_history()[0], "1+1 = 2");
}

#[test]
fn test_default_calculator() {
    let calc = Calculator::default();
    assert_eq!(calc.history_count(), 0);
    assert_eq!(calc.max_history, 100);
}

#[test]
fn test_error_messages() {
    assert_eq!(CalculatorError::DivisionByZero.message(), "division by zero");
    assert_eq!(
        CalculatorError::UnbalancedParentheses.message(),
        "unbalanced parentheses"
    );
    assert_eq!(CalculatorError::EmptyExpression.message(), "empty expression");
    assert_eq!(
        CalculatorError::ParseError("oops".to_string()).message(),
        "parse error: oops"
    );
    assert_eq!(
        CalculatorError::InvalidNumber(".".to_string()).message(),
        "invalid number: ."
    );
    assert_eq!(
        CalculatorError::NotRepresentable.message(),
        "value not representable"
    );
}
