use asb_interpreter::engine::{
    merge_handlers, next_random, parse_canonical_integer_key, read_var, route_enqueued, route_tag, DefaultEngineCallbacks,
    Routed, VarReading,
};
use asb_interpreter::strmap::StrMap;
use asb_interpreter::variable::{Value, VariableStore};

fn params(pairs: &[(&str, &str)]) -> StrMap<String> {
    let mut m = StrMap::new();
    for (k, v) in pairs {
        m.insert(k.to_string(), v.to_string());
    }
    m
}

#[test]
fn var_readings() {
    let mut store = VariableStore::new();
    store.set("i", Value::Int(4));
    store.set("b", Value::Bool(true));
    store.set("s", Value::String("x".to_string()));
    store.set("n", Value::Null);
    assert_eq!(read_var(&store, "i"), VarReading::Integer(4));
    assert_eq!(read_var(&store, "b"), VarReading::Integer(1));
    assert_eq!(read_var(&store, "s"), VarReading::Text("x".to_string()));
    assert_eq!(read_var(&store, "n"), VarReading::Text("0".to_string()));
    assert_eq!(read_var(&store, "missing"), VarReading::Text("0".to_string()));
}

#[test]
fn var_tags_from_lua_apply_at_once() {
    let mut store = VariableStore::new();
    let r = route_tag("var".to_string(), params(&[("1", "var"), ("name", "t.w"), ("data", "3")]), &mut store).unwrap();
    assert!(matches!(r, Routed::Applied));
    assert_eq!(store.get("t.w"), Some(&Value::Int(3)));
    match route_tag("lyc".to_string(), params(&[("1", "lyc"), ("id", "0")]), &mut store).unwrap() {
        Routed::Queued { tag, params } => {
            assert_eq!(tag, "lyc");
            assert_eq!(params.get("1"), None);
            assert_eq!(params.get("id").map(String::as_str), Some("0"));
        },
        _ => panic!("other tags are queued"),
    }
}

#[test]
fn enqueued_calllua_runs_at_once() {
    match route_enqueued("calllua".to_string(), params(&[("1", "calllua"), ("function", "f")])) {
        Routed::CallNow { function, params } => {
            assert_eq!(function, "f");
            assert_eq!(params.get("1"), None);
        },
        _ => panic!("calllua with a function runs at once"),
    }
    assert!(matches!(route_enqueued("calllua".to_string(), params(&[])), Routed::Queued { .. }));
    assert!(matches!(route_enqueued("wt".to_string(), params(&[])), Routed::Queued { .. }));
}

#[test]
fn handlers_merge() {
    let mut into = params(&[("onEnterFrame", "a"), ("onSave", "b")]);
    merge_handlers(&mut into, &params(&[("onSave", "c"), ("onLoad", "d")]));
    assert_eq!(into.get("onEnterFrame").map(String::as_str), Some("a"));
    assert_eq!(into.get("onSave").map(String::as_str), Some("c"));
    assert_eq!(into.get("onLoad").map(String::as_str), Some("d"));
    assert_eq!(into.len(), 3);
}

#[test]
fn random_steps() {
    let (state, value) = next_random(0, 1);
    let x = 1u64.wrapping_mul(6364136223846793005).wrapping_add(1442695040888963407);
    assert_eq!(state, x);
    assert_eq!(value, ((x >> 33) & 0x7fff_ffff) as i64);
    let (state2, value2) = next_random(state, 99);
    assert_eq!(state2, state.wrapping_mul(6364136223846793005).wrapping_add(1442695040888963407));
    assert!(value2 >= 0);
}

#[test]
fn canonical_integer_keys() {
    assert_eq!(parse_canonical_integer_key("12"), Some(12));
    assert_eq!(parse_canonical_integer_key("-3"), Some(-3));
    assert_eq!(parse_canonical_integer_key("012"), None);
    assert_eq!(parse_canonical_integer_key("+1"), None);
    assert_eq!(parse_canonical_integer_key("-0"), None);
    assert_eq!(parse_canonical_integer_key("x"), None);
}

#[test]
fn default_callbacks_answer_nothing() {
    let d = DefaultEngineCallbacks;
    assert_eq!(d.get_script_status(), 0);
    assert!(!d.is_key_down(1));
    assert_eq!(d.get_mouse_point(), (0, 0));
    assert!(!d.is_file_exists("a"));
    assert_eq!(d.convert_encoding("a", "b", "text"), "text");
    assert!(d.get_layer_info("x").is_none());
    assert_eq!(d.get_script_stack().len(), 0);
}
