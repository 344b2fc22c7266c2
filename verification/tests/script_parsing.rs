use asb_interpreter::script::{Instruction, Script};
use asb_interpreter::strmap::StrMap;

#[test]
fn test_parse_simple_script() {
    let content = r#"
*main
[calllua function="scriptMainloop"]
[jump label="next"]
*next
[return]
"#;

    let script = Script::parse("test", content).unwrap();
    assert_eq!(script.labels.get("main"), Some(&0));
    assert_eq!(script.labels.get("next"), Some(&2));
    assert_eq!(script.instructions.len(), 3);
}

#[test]
fn test_parse_params() {
    let content = r#"
*test
[uitrans 0="500" time="1000"]
[uitrans fade="$t.trns"]
[jump cond="$t.check==0" label="next"]
"#;

    let script = Script::parse("test", content).unwrap();

    let inst1 = &script.instructions[0];
    assert_eq!(inst1.tag, "uitrans");
    assert_eq!(inst1.get("0"), Some("500"));
    assert_eq!(inst1.get("time"), Some("1000"));

    let inst2 = &script.instructions[1];
    assert_eq!(inst2.get("fade"), Some("$t.trns"));

    let inst3 = &script.instructions[2];
    assert_eq!(inst3.get("cond"), Some("$t.check==0"));
    assert_eq!(inst3.get("label"), Some("next"));
}

#[test]
fn test_parse_text() {
    let content = r#"
*main
这是剧情文本
[return]
"#;

    let script = Script::parse("test", content).unwrap();
    assert_eq!(script.instructions[0].tag, "__text");
    assert_eq!(
        script.instructions[0].get("text"),
        Some("这是剧情文本")
    );
}

#[test]
fn test_instruction_methods() {
    let inst = Instruction {
        tag: "test".to_string(),
        params: {
            let mut m = StrMap::new();
            m.insert("key1".to_string(), "value1".to_string());
            m.insert("0".to_string(), "default".to_string());
            m
        },
        line: 1,
    };

    assert_eq!(inst.get("key1"), Some("value1"));
    assert_eq!(inst.get("key2"), None);
    assert_eq!(inst.get_or("key2", "fallback"), "fallback");
    assert_eq!(inst.get_default(), Some("default"));
    assert!(inst.has("key1"));
    assert!(!inst.has("key2"));
}

#[test]
fn lua_block_collects_lines_until_close_tag() {
    let content = "*s\n[lua]\n\nlocal a = 1\n  b = 2\n[/lua]\n[return]\n";
    let script = Script::parse("t", content).unwrap();
    assert_eq!(script.instructions.len(), 2);
    assert_eq!(script.instructions[0].tag, "__lua_block");
    assert_eq!(script.instructions[0].get("code"), Some("local a = 1\n  b = 2"));
    assert_eq!(script.instructions[0].line, 2);
    assert_eq!(script.instructions[1].tag, "return");
}

#[test]
fn unterminated_lua_block_is_a_parse_error() {
    let err = Script::parse("t", "[lua]\nx = 1\n").err().unwrap();
    match err {
        asb_interpreter::error::Error::ParseError { line, message } => {
            assert_eq!(line, 1);
            assert_eq!(message, "未找到 [/lua] 结束标记");
        }
        _ => panic!("expected a parse error"),
    }
}

#[test]
fn several_tags_on_one_line_and_bare_params() {
    let script = Script::parse("t", "[if estimate=$a][load file] [/if]\r\n").unwrap();
    assert_eq!(script.instructions.len(), 3);
    assert_eq!(script.instructions[0].tag, "if");
    assert_eq!(script.instructions[0].get("estimate"), Some("$a"));
    assert_eq!(script.instructions[1].tag, "load");
    assert_eq!(script.instructions[1].get("0"), Some("file"));
    assert_eq!(script.instructions[2].tag, "/if");
    // a bare word after a keyed one is numbered by its position
    let s2 = Script::parse("t", "[x a=1 b]").unwrap();
    assert_eq!(s2.instructions[0].get("1"), Some("b"));
}

#[test]
fn unclosed_quote_and_empty_tag_are_errors() {
    let e1 = Script::parse("t", "\n[x a=\"oops]").err().unwrap();
    match e1 {
        asb_interpreter::error::Error::ParseError { line, message } => {
            assert_eq!(line, 2);
            assert_eq!(message, "未闭合的引号");
        }
        _ => panic!("expected a parse error"),
    }
    let e2 = Script::parse("t", "[]").err().unwrap();
    match e2 {
        asb_interpreter::error::Error::ParseError { line, message } => {
            assert_eq!(line, 1);
            assert_eq!(message, "空指令");
        }
        _ => panic!("expected a parse error"),
    }
}

#[test]
fn later_label_definition_replaces_earlier_one() {
    let script = Script::parse("t", "*a\n[x]\n*a\n[y]\n").unwrap();
    assert_eq!(script.get_label_line("a"), Some(1));
    assert_eq!(script.get_label_line("b"), None);
    assert!(script.get_instruction(1).is_some());
    assert!(script.get_instruction(2).is_none());
    assert_eq!(script.len(), 2);
    assert!(!script.is_empty());
}

#[test]
fn text_beside_tags_is_story_text() {
    let script = Script::parse("t", "*m\nHello[rt]\n").unwrap();
    assert_eq!(script.instructions.len(), 2);
    assert_eq!(script.instructions[0].tag, "__text");
    assert_eq!(script.instructions[0].get("text"), Some("Hello"));
    assert_eq!(script.instructions[0].line, 2);
    assert_eq!(script.instructions[1].tag, "rt");

    let s2 = Script::parse("t", "  one [l] two [r]   \n").unwrap();
    let tags: Vec<&str> = s2.instructions.iter().map(|i| i.tag.as_str()).collect();
    assert_eq!(tags, vec!["__text", "l", "__text", "r"]);
    assert_eq!(s2.instructions[0].get("text"), Some("one"));
    assert_eq!(s2.instructions[2].get("text"), Some("two"));

    let s3 = Script::parse("t", "[a]  [b]\n").unwrap();
    assert_eq!(s3.instructions.len(), 2);
}

#[test]
fn bare_star_defines_no_label() {
    let script = Script::parse("t", "*\n[x]\n").unwrap();
    assert_eq!(script.labels.len(), 0);
    assert_eq!(script.instructions.len(), 1);
}
