use asb_interpreter::strmap::StrMap;
use asb_interpreter::variable::{Value, VariableStore};

#[test]
fn test_value_conversion() {
    assert_eq!(Value::Int(42).as_string(), "42");
    assert_eq!(Value::String("123".into()).as_int(), Some(123));
    assert!(Value::Bool(true).as_bool());
    assert!(!Value::Bool(false).as_bool());
    assert_eq!(Value::Null.as_int(), Some(0));
}

#[test]
fn test_variable_store() {
    let mut store = VariableStore::new();

    store.set("foo", Value::Int(1));
    assert_eq!(store.get("foo"), Some(&Value::Int(1)));

    store.set("g.score", Value::Int(100));
    assert_eq!(store.get("g.score"), Some(&Value::Int(100)));

    store.set("t.temp", Value::String("test".into()));
    assert_eq!(store.get("t.temp"), Some(&Value::String("test".into())));

    store.clear_temp();
    assert_eq!(store.get("t.temp"), None);
    assert_eq!(store.get("g.score"), Some(&Value::Int(100)));
}

#[test]
fn value_text_and_numbers() {
    assert_eq!(Value::Int(-7).as_string(), "-7");
    assert_eq!(Value::Bool(true).as_string(), "1");
    assert_eq!(Value::Bool(false).as_string(), "0");
    assert_eq!(Value::Null.as_string(), "");
    assert_eq!(Value::String("+5".into()).as_int(), Some(5));
    assert_eq!(Value::String("5x".into()).as_int(), None);
    assert_eq!(Value::String("".into()).as_bool(), false);
    assert!(Value::Int(3).is_numeric());
    assert!(!Value::String("3".into()).is_numeric());
}

#[test]
fn read_after_write_gives_the_value() {
    let mut store = VariableStore::new();
    store.set("s.x", Value::Int(5));
    store.set("s.x", Value::Int(6));
    assert_eq!(store.get("s.x"), Some(&Value::Int(6)));
    assert_eq!(store.get("x"), None);
}

#[test]
fn scopes_are_separate() {
    let mut store = VariableStore::new();
    store.set("a", Value::Int(1));
    store.set("g.a", Value::Int(2));
    store.set("t.a", Value::Int(3));
    store.set("s.a", Value::Int(4));
    assert_eq!(store.get("a"), Some(&Value::Int(1)));
    assert_eq!(store.get("g.a"), Some(&Value::Int(2)));
    assert_eq!(store.get("t.a"), Some(&Value::Int(3)));
    assert_eq!(store.get("s.a"), Some(&Value::Int(4)));
    assert_eq!(store.remove("g.a"), Some(Value::Int(2)));
    assert_eq!(store.get("g.a"), None);
    assert_eq!(store.get("a"), Some(&Value::Int(1)));
}

#[test]
fn reset_keeps_global_and_system() {
    let mut store = VariableStore::new();
    store.set("a", Value::Int(1));
    store.set("g.b", Value::Int(2));
    store.set("t.c", Value::Int(3));
    store.set("s.d", Value::Int(4));
    store.reset();
    assert_eq!(store.get("a"), None);
    assert_eq!(store.get("t.c"), None);
    assert_eq!(store.get("g.b"), Some(&Value::Int(2)));
    assert_eq!(store.get("s.d"), Some(&Value::Int(4)));
    store.clear_all();
    assert!(!store.contains("g.b"));
    assert!(!store.contains("s.d"));
}

#[test]
fn remove_prefixed_in_every_scope() {
    let mut store = VariableStore::new();
    store.set("ab", Value::Int(1));
    store.set("ac", Value::Int(2));
    store.set("g.ad", Value::Int(3));
    store.set("b", Value::Int(4));
    store.remove_prefixed("a");
    assert_eq!(store.get("ab"), None);
    assert_eq!(store.get("ac"), None);
    assert_eq!(store.get("g.ad"), None);
    assert_eq!(store.get("b"), Some(&Value::Int(4)));
}

#[test]
fn save_keeps_all_but_temporary() {
    let mut store = VariableStore::new();
    store.set_platform("android".to_string());
    store.set("local_var", Value::Int(42));
    store.set("g.global_var", Value::String("hello".into()));
    store.set("t.temp_var", Value::Bool(true));
    store.set("s.sys", Value::Int(7));
    let saved = store.saved_part();
    assert_eq!(saved.get("local_var"), Some(&Value::Int(42)));
    assert_eq!(saved.get("g.global_var"), Some(&Value::String("hello".into())));
    assert_eq!(saved.get("s.sys"), Some(&Value::Int(7)));
    assert_eq!(saved.get("t.temp_var"), None);
    assert_eq!(saved.platform(), "");
}

#[test]
fn store_from_saved_parts() {
    let mut local = StrMap::new();
    local.insert("x".to_string(), Value::Int(1));
    let mut global = StrMap::new();
    global.insert("y".to_string(), Value::Int(2));
    let store = VariableStore::from_parts(local, global, StrMap::new());
    assert_eq!(store.get("x"), Some(&Value::Int(1)));
    assert_eq!(store.get("g.y"), Some(&Value::Int(2)));
    assert_eq!(store.iter_global().len(), 1);
    assert_eq!(store.iter_temp().len(), 0);
}
