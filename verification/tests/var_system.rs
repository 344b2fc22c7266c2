use asb_interpreter::error::Error;
use asb_interpreter::strmap::StrMap;
use asb_interpreter::tags::var_handler::{apply_var_tag, execute_var_system, random_pick};
use asb_interpreter::variable::{Value, VariableStore};

fn params(pairs: &[(&str, &str)]) -> StrMap<String> {
    let mut m = StrMap::new();
    for (k, v) in pairs {
        m.insert(k.to_string(), v.to_string());
    }
    m
}

fn values(pairs: &[(&str, Value)]) -> StrMap<Value> {
    let mut m = StrMap::new();
    for (k, v) in pairs {
        m.insert(k.to_string(), v.clone());
    }
    m
}

#[test]
fn test_var_system_var_exist() {
    let mut vars = VariableStore::new();
    vars.set("foo", Value::Int(42));

    let p = params(&[("name", "result"), ("target", "foo")]);
    let resolved = StrMap::new();

    execute_var_system("var_exist", &p, &resolved, &mut vars).unwrap();
    assert_eq!(vars.get("result"), Some(&Value::Bool(true)));

    let p2 = params(&[("name", "result"), ("target", "bar")]);
    execute_var_system("var_exist", &p2, &resolved, &mut vars).unwrap();
    assert_eq!(vars.get("result"), Some(&Value::Bool(false)));
}

#[test]
fn test_var_system_explode() {
    let mut vars = VariableStore::new();
    let p = params(&[("name", "arr")]);
    let resolved = values(&[("source", Value::String("a,b,c".to_string()))]);

    execute_var_system("explode", &p, &resolved, &mut vars).unwrap();

    assert_eq!(vars.get("arr.0"), Some(&Value::String("a".to_string())));
    assert_eq!(vars.get("arr.1"), Some(&Value::String("b".to_string())));
    assert_eq!(vars.get("arr.2"), Some(&Value::String("c".to_string())));
    assert_eq!(vars.get("arr.size"), Some(&Value::Int(3)));
}

#[test]
fn test_var_system_length() {
    let mut vars = VariableStore::new();
    let p = params(&[("name", "len"), ("mode", "1")]);
    let resolved = values(&[("source", Value::String("hello".to_string()))]);

    execute_var_system("length", &p, &resolved, &mut vars).unwrap();
    assert_eq!(vars.get("len"), Some(&Value::Int(5)));
}

#[test]
fn test_var_system_find() {
    let mut vars = VariableStore::new();
    let p = params(&[("name", "pos")]);
    let resolved = values(&[
        ("source", Value::String("hello world".to_string())),
        ("string", Value::String("world".to_string())),
    ]);

    execute_var_system("find", &p, &resolved, &mut vars).unwrap();
    assert_eq!(vars.get("pos"), Some(&Value::Int(6)));
}

#[test]
fn test_var_system_substr() {
    let mut vars = VariableStore::new();
    let p = params(&[("name", "sub"), ("mode", "1")]);
    let resolved = values(&[
        ("source", Value::String("hello world".to_string())),
        ("position", Value::Int(6)),
        ("length", Value::Int(5)),
    ]);

    execute_var_system("substr", &p, &resolved, &mut vars).unwrap();
    assert_eq!(vars.get("sub"), Some(&Value::String("world".to_string())));
}

#[test]
fn test_var_system_delete() {
    let mut vars = VariableStore::new();
    vars.set("foo.bar", Value::Int(1));
    vars.set("foo.baz", Value::Int(2));
    vars.set("foo", Value::Int(3));

    let p = params(&[("name", "foo")]);
    let resolved = StrMap::new();

    execute_var_system("delete", &p, &resolved, &mut vars).unwrap();

    assert_eq!(vars.get("foo"), None);
    assert_eq!(vars.get("foo.bar"), None);
    assert_eq!(vars.get("foo.baz"), None);
}

#[test]
fn delete_without_name_clears_everything() {
    let mut vars = VariableStore::new();
    vars.set("a", Value::Int(1));
    vars.set("g.b", Value::Int(2));
    execute_var_system("delete", &params(&[]), &StrMap::new(), &mut vars).unwrap();
    assert_eq!(vars.get("a"), None);
    assert_eq!(vars.get("g.b"), None);
}

#[test]
fn delete_tree_keeps_other_names() {
    let mut vars = VariableStore::new();
    vars.set("foo.bar", Value::Int(1));
    vars.set("foobar", Value::Int(2));
    vars.set("g.foo.x", Value::Int(3));
    execute_var_system("delete", &params(&[("name", "foo")]), &StrMap::new(), &mut vars).unwrap();
    assert_eq!(vars.get("foo.bar"), None);
    assert_eq!(vars.get("foobar"), Some(&Value::Int(2)));
    assert_eq!(vars.get("g.foo.x"), Some(&Value::Int(3)));
}

#[test]
fn delete_scoped_tree() {
    let mut vars = VariableStore::new();
    vars.set("g.foo", Value::Int(1));
    vars.set("g.foo.bar", Value::Int(2));
    vars.set("foo.bar", Value::Int(3));
    vars.set("t.foo.bar", Value::Int(4));
    execute_var_system("delete", &params(&[("name", "g.foo")]), &StrMap::new(), &mut vars).unwrap();
    assert_eq!(vars.get("g.foo"), None);
    assert_eq!(vars.get("g.foo.bar"), None);
    assert_eq!(vars.get("foo.bar"), Some(&Value::Int(3)));
    assert_eq!(vars.get("t.foo.bar"), Some(&Value::Int(4)));
}

#[test]
fn var_exist_local_only() {
    let mut vars = VariableStore::new();
    vars.set("g.x", Value::Int(1));
    execute_var_system("var_exist", &params(&[("name", "r"), ("target", "g.x"), ("local", "1")]), &StrMap::new(), &mut vars)
        .unwrap();
    assert_eq!(vars.get("r"), Some(&Value::Bool(false)));
    execute_var_system("var_exist", &params(&[("name", "r"), ("target", "g.x")]), &StrMap::new(), &mut vars).unwrap();
    assert_eq!(vars.get("r"), Some(&Value::Bool(true)));
}

#[test]
fn length_counts_bytes_by_default() {
    let mut vars = VariableStore::new();
    let resolved = values(&[("source", Value::String("日本a".to_string()))]);
    execute_var_system("length", &params(&[("name", "n")]), &resolved, &mut vars).unwrap();
    assert_eq!(vars.get("n"), Some(&Value::Int(7)));
    execute_var_system("length", &params(&[("name", "n"), ("mode", "1")]), &resolved, &mut vars).unwrap();
    assert_eq!(vars.get("n"), Some(&Value::Int(3)));
}

#[test]
fn find_gives_byte_offsets_and_minus_one() {
    let mut vars = VariableStore::new();
    let resolved = values(&[
        ("source", Value::String("日本語".to_string())),
        ("string", Value::String("語".to_string())),
    ]);
    execute_var_system("find", &params(&[("name", "p")]), &resolved, &mut vars).unwrap();
    assert_eq!(vars.get("p"), Some(&Value::Int(6)));
    let missing = values(&[
        ("source", Value::String("abc".to_string())),
        ("string", Value::String("x".to_string())),
    ]);
    execute_var_system("find", &params(&[("name", "p")]), &missing, &mut vars).unwrap();
    assert_eq!(vars.get("p"), Some(&Value::Int(-1)));
    let empty = values(&[("source", Value::String("abc".to_string()))]);
    execute_var_system("find", &params(&[("name", "p")]), &empty, &mut vars).unwrap();
    assert_eq!(vars.get("p"), Some(&Value::Int(0)));
}

#[test]
fn substr_by_bytes() {
    let mut vars = VariableStore::new();
    let ok = values(&[
        ("source", Value::String("日本語".to_string())),
        ("position", Value::Int(3)),
        ("length", Value::Int(3)),
    ]);
    execute_var_system("substr", &params(&[("name", "s")]), &ok, &mut vars).unwrap();
    assert_eq!(vars.get("s"), Some(&Value::String("本".to_string())));
    let inside = values(&[
        ("source", Value::String("日本語".to_string())),
        ("position", Value::Int(1)),
        ("length", Value::Int(3)),
    ]);
    execute_var_system("substr", &params(&[("name", "s")]), &inside, &mut vars).unwrap();
    assert_eq!(vars.get("s"), Some(&Value::String(String::new())));
    let rest = values(&[("source", Value::String("hello".to_string())), ("position", Value::Int(2))]);
    execute_var_system("substr", &params(&[("name", "s")]), &rest, &mut vars).unwrap();
    assert_eq!(vars.get("s"), Some(&Value::String(String::new())));
    let tail = values(&[
        ("source", Value::String("hello".to_string())),
        ("position", Value::Int(2)),
        ("length", Value::Int(3)),
    ]);
    execute_var_system("substr", &params(&[("name", "s")]), &tail, &mut vars).unwrap();
    assert_eq!(vars.get("s"), Some(&Value::String("llo".to_string())));
}

#[test]
fn substr_by_characters_past_the_end() {
    let mut vars = VariableStore::new();
    let resolved = values(&[
        ("source", Value::String("abc".to_string())),
        ("position", Value::Int(1)),
        ("length", Value::Int(10)),
    ]);
    execute_var_system("substr", &params(&[("name", "s"), ("mode", "1")]), &resolved, &mut vars).unwrap();
    assert_eq!(vars.get("s"), Some(&Value::String("bc".to_string())));
}

#[test]
fn explode_with_custom_and_empty_delimiters() {
    let mut vars = VariableStore::new();
    let resolved = values(&[("source", Value::String("a--b".to_string()))]);
    execute_var_system("explode", &params(&[("name", "p"), ("delimiter", "-")]), &resolved, &mut vars).unwrap();
    assert_eq!(vars.get("p.size"), Some(&Value::Int(3)));
    assert_eq!(vars.get("p.1"), Some(&Value::String(String::new())));
    assert_eq!(vars.get("p.2"), Some(&Value::String("b".to_string())));
    let ab = values(&[("source", Value::String("ab".to_string()))]);
    execute_var_system("explode", &params(&[("name", "q"), ("delimiter", "")]), &ab, &mut vars).unwrap();
    assert_eq!(vars.get("q.size"), Some(&Value::Int(4)));
    assert_eq!(vars.get("q.0"), Some(&Value::String(String::new())));
    assert_eq!(vars.get("q.1"), Some(&Value::String("a".to_string())));
    assert_eq!(vars.get("q.3"), Some(&Value::String(String::new())));
}

#[test]
fn date_is_fixed() {
    let mut vars = VariableStore::new();
    execute_var_system("date", &params(&[("name", "d")]), &StrMap::new(), &mut vars).unwrap();
    assert_eq!(vars.get("d.year"), Some(&Value::Int(2024)));
    assert_eq!(vars.get("d.month"), Some(&Value::Int(1)));
    assert_eq!(vars.get("d.second"), Some(&Value::Int(0)));
}

#[test]
fn os_prefers_the_platform() {
    let mut vars = VariableStore::new();
    vars.set_host_os("linux".to_string());
    execute_var_system("os", &params(&[("name", "o")]), &StrMap::new(), &mut vars).unwrap();
    assert_eq!(vars.get("o"), Some(&Value::String("linux".to_string())));
    vars.set_platform("android".to_string());
    execute_var_system("os", &params(&[("name", "o")]), &StrMap::new(), &mut vars).unwrap();
    assert_eq!(vars.get("o"), Some(&Value::String("android".to_string())));
}

#[test]
fn screen_sizes_and_defaults() {
    let mut vars = VariableStore::new();
    execute_var_system("screen_width", &params(&[("name", "w")]), &StrMap::new(), &mut vars).unwrap();
    assert_eq!(vars.get("w"), Some(&Value::Int(640)));
    vars.set("s.screen_height", Value::Int(720));
    execute_var_system("screen_height", &params(&[("name", "h")]), &StrMap::new(), &mut vars).unwrap();
    assert_eq!(vars.get("h"), Some(&Value::Int(720)));
    vars.set("s.screen_width", Value::Int(-1));
    execute_var_system("screen_width", &params(&[("name", "w")]), &StrMap::new(), &mut vars).unwrap();
    assert_eq!(vars.get("w"), Some(&Value::Int(640)));
}

#[test]
fn layer_info_is_the_screen() {
    let mut vars = VariableStore::new();
    vars.set("s.screen_width", Value::Int(800));
    execute_var_system("get_layer_info", &params(&[("name", "t.ly")]), &StrMap::new(), &mut vars).unwrap();
    assert_eq!(vars.get("t.ly.left"), Some(&Value::Int(0)));
    assert_eq!(vars.get("t.ly.width"), Some(&Value::Int(800)));
    assert_eq!(vars.get("t.ly.height"), Some(&Value::Int(720)));
    execute_var_system("get_font", &params(&[("name", "f")]), &StrMap::new(), &mut vars).unwrap();
    assert_eq!(vars.get("f"), Some(&Value::Int(0)));
}

#[test]
fn url_coding() {
    let mut vars = VariableStore::new();
    let resolved = values(&[("source", Value::String("a b/~é".to_string()))]);
    execute_var_system("url_encode", &params(&[("name", "e")]), &resolved, &mut vars).unwrap();
    assert_eq!(vars.get("e"), Some(&Value::String("a%20b%2F~%E9".to_string())));
    let encoded = values(&[("source", Value::String("a%20b+c%4".to_string()))]);
    execute_var_system("url_decode", &params(&[("name", "d")]), &encoded, &mut vars).unwrap();
    assert_eq!(vars.get("d"), Some(&Value::String("a b c\u{4}".to_string())));
    let bad = values(&[("source", Value::String("%zz!".to_string()))]);
    execute_var_system("url_decode", &params(&[("name", "d")]), &bad, &mut vars).unwrap();
    assert_eq!(vars.get("d"), Some(&Value::String("!".to_string())));
}

#[test]
fn base64_marker_and_empty_answers() {
    let mut vars = VariableStore::new();
    let resolved = values(&[("source", Value::String("xy".to_string()))]);
    execute_var_system("base64_encode", &params(&[("name", "b")]), &resolved, &mut vars).unwrap();
    assert_eq!(vars.get("b"), Some(&Value::String("[base64: xy]".to_string())));
    execute_var_system("implode", &params(&[("name", "i")]), &resolved, &mut vars).unwrap();
    assert_eq!(vars.get("i"), Some(&Value::String(String::new())));
    execute_var_system("no_such_variant", &params(&[("name", "z")]), &resolved, &mut vars).unwrap();
    assert_eq!(vars.get("z"), None);
}

#[test]
fn file_crc_for_executables() {
    let mut vars = VariableStore::new();
    vars.set("t.crc.exe", Value::String("1234".to_string()));
    let exe = values(&[("file", Value::String("Game.EXE".to_string()))]);
    execute_var_system("file_crc", &params(&[("name", "t.crc.exe.check")]), &exe, &mut vars).unwrap();
    assert_eq!(vars.get("t.crc.exe.check"), Some(&Value::String("1234".to_string())));
    let other = values(&[("file", Value::String("data.bin".to_string()))]);
    execute_var_system("file_crc", &params(&[("name", "c")]), &other, &mut vars).unwrap();
    assert_eq!(vars.get("c"), Some(&Value::String(String::new())));
}

#[test]
fn executables_always_exist() {
    let mut vars = VariableStore::new();
    let exe = values(&[("file", Value::String("launcher.exe".to_string()))]);
    execute_var_system("file_exist", &params(&[("name", "e")]), &exe, &mut vars).unwrap();
    assert_eq!(vars.get("e"), Some(&Value::Bool(true)));
}

#[test]
fn random_stays_in_range() {
    let mut vars = VariableStore::new();
    let resolved = values(&[("min", Value::Int(3)), ("max", Value::Int(5))]);
    for _ in 0..20 {
        execute_var_system("random", &params(&[("name", "r")]), &resolved, &mut vars).unwrap();
        let v = vars.get("r").unwrap().as_int().unwrap();
        assert!((3..=5).contains(&v));
    }
    let empty = values(&[("min", Value::Int(9)), ("max", Value::Int(2))]);
    execute_var_system("random", &params(&[("name", "r")]), &empty, &mut vars).unwrap();
    assert_eq!(vars.get("r"), Some(&Value::Int(9)));
}

#[test]
fn random_pick_formula() {
    assert_eq!(random_pick(0, 0, 9), 1);
    assert_eq!(random_pick(1, 0, 1), 0);
    assert_eq!(random_pick(7, 5, 5), 5);
    assert_eq!(random_pick(12345, i64::MIN, i64::MAX), i64::MIN.wrapping_add(12345u64.wrapping_mul(6364136223846793005).wrapping_add(1) as i64));
}

#[test]
fn var_tag_sets_data() {
    let mut vars = VariableStore::new();
    vars.set("a", Value::Int(2));
    apply_var_tag(&params(&[("name", "b"), ("data", "$a+3")]), &mut vars).unwrap();
    assert_eq!(vars.get("b"), Some(&Value::Int(5)));
    apply_var_tag(&params(&[("name", "c"), ("data", "hello")]), &mut vars).unwrap();
    assert_eq!(vars.get("c"), Some(&Value::String("hello".to_string())));
}

#[test]
fn var_tag_with_system_resolves_expressions() {
    let mut vars = VariableStore::new();
    vars.set("s.text", Value::String("abcd".to_string()));
    apply_var_tag(&params(&[("name", "n"), ("system", "length"), ("source", "$s.text")]), &mut vars).unwrap();
    assert_eq!(vars.get("n"), Some(&Value::Int(4)));
}

#[test]
fn var_tag_expression_error_changes_nothing() {
    let mut vars = VariableStore::new();
    let r = apply_var_tag(&params(&[("name", "b"), ("data", "$1/0")]), &mut vars);
    assert!(matches!(r, Err(Error::ExpressionError(_))));
    assert_eq!(vars.get("b"), None);
    let r2 = apply_var_tag(&params(&[("name", "n"), ("system", "length"), ("source", "$1*")]), &mut vars);
    assert!(matches!(r2, Err(Error::ExpressionError(_))));
    assert_eq!(vars.get("n"), None);
}

#[test]
fn url_decode_undoes_encode() {
    let mut vars = VariableStore::new();
    let text = "Voilà 100%+ fini/ok?";
    let resolved = values(&[("source", Value::String(text.to_string()))]);
    execute_var_system("url_encode", &params(&[("name", "e")]), &resolved, &mut vars).unwrap();
    let encoded = vars.get("e").cloned().unwrap();
    let again = values(&[("source", encoded)]);
    execute_var_system("url_decode", &params(&[("name", "d")]), &again, &mut vars).unwrap();
    assert_eq!(vars.get("d"), Some(&Value::String(text.to_string())));
}
