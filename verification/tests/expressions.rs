use asb_interpreter::error::Error;
use asb_interpreter::expression::ExpressionEvaluator;
use asb_interpreter::variable::{Value, VariableStore};

#[test]
fn literals_and_expressions() {
    let mut vars = VariableStore::new();
    vars.set("a", Value::Int(6));
    vars.set("s.name", Value::String("x".to_string()));
    let ev = ExpressionEvaluator::new(&vars);
    assert_eq!(ev.resolve_param("42").unwrap(), Value::Int(42));
    assert_eq!(ev.resolve_param("042").unwrap(), Value::String("042".to_string()));
    assert_eq!(ev.resolve_param("\"quoted\"").unwrap(), Value::String("quoted".to_string()));
    assert_eq!(ev.resolve_param("$a").unwrap(), Value::Int(6));
    assert_eq!(ev.resolve_param("$a*2").unwrap(), Value::Int(12));
    assert_eq!(ev.resolve_param("$a % 4").unwrap(), Value::Int(2));
    assert_eq!(ev.resolve_param("$a==6").unwrap(), Value::Bool(true));
    assert_eq!(ev.resolve_param("$s.name+\"y\"").unwrap(), Value::String("xy".to_string()));
    assert_eq!(ev.resolve_param("$missing").unwrap(), Value::Null);
}

#[test]
fn expression_errors() {
    let vars = VariableStore::new();
    let ev = ExpressionEvaluator::new(&vars);
    assert!(matches!(ev.resolve_param("$1/0"), Err(Error::ExpressionError(_))));
    assert!(matches!(ev.resolve_param("$"), Err(Error::ExpressionError(_))));
    assert!(matches!(ev.resolve_param("$9223372036854775807+1"), Err(Error::ExpressionError(_))));
}
