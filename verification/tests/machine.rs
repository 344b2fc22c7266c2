use asb_interpreter::error::Error;
use asb_interpreter::event::{CallbackResult, Event};
use asb_interpreter::machine::{is_asb_data, Action, CallFrame, Machine};
use asb_interpreter::strmap::StrMap;
use asb_interpreter::tags::TagResult;
use asb_interpreter::variable::Value;

fn machine() -> Machine {
    Machine::new("windows".to_string(), "linux".to_string(), 1280, 720, None, None)
}

/// Runs until the machine asks for something other than going on.
fn run(m: &mut Machine) -> Result<Action, Error> {
    loop {
        match m.step_inline()? {
            Action::Next => continue,
            other => return Ok(other),
        }
    }
}

#[test]
fn new_machine_has_system_constants() {
    let m = Machine::new("android".to_string(), String::new(), 800, 600, None, Some("data".to_string()));
    assert_eq!(m.get_variable("s.screen_width"), Some(&Value::Int(800)));
    assert_eq!(m.get_variable("s.screen_height"), Some(&Value::Int(600)));
    assert_eq!(m.get_variable("s.savepath"), Some(&Value::String("save".to_string())));
    assert_eq!(m.get_variable("s.datapath"), Some(&Value::String("data".to_string())));
    assert_eq!(m.get_variable("s.engineversion"), Some(&Value::String("4.00".to_string())));
    assert_eq!(m.variables().platform(), "android");
    assert!(m.current_script().is_none());
}

#[test]
fn text_waits_for_the_host() {
    let mut m = machine();
    m.load_script("main.ast", "*main\nhello\n[return]\n").unwrap();
    m.start("main.ast", "main").unwrap();
    match run(&mut m).unwrap() {
        Action::Notify(events) => {
            assert_eq!(events.len(), 1);
            assert!(matches!(&events[0], Event::ScenarioText { content, inline: false } if content == "hello"));
        },
        _ => panic!("text goes to the host"),
    }
    assert_eq!(m.event_answered(CallbackResult::Pause, true).unwrap(), true);
    assert_eq!(m.current_line(), 0);
    m.advance_line();
    assert_eq!(m.current_line(), 1);
    assert!(matches!(run(&mut m).unwrap(), Action::Completed));
}

#[test]
fn abort_is_an_error() {
    let mut m = machine();
    m.load_script("s", "[wt]\n").unwrap();
    m.boot("s").unwrap();
    assert!(matches!(run(&mut m).unwrap(), Action::Notify(_)));
    assert!(matches!(m.event_answered(CallbackResult::Abort, true), Err(Error::Aborted)));
    assert_eq!(m.event_answered(CallbackResult::Continue, true).unwrap(), false);
    assert_eq!(m.current_line(), 1);
}

#[test]
fn call_and_return() {
    let mut m = machine();
    m.load_script("s", "*main\n[call label=\"sub\"]\n[wt]\n*sub\n[var name=\"x\" data=\"5\"]\n[return]\n").unwrap();
    m.start("s", "main").unwrap();
    assert!(matches!(m.step_inline().unwrap(), Action::Next));
    assert_eq!(m.current_line(), 2);
    assert_eq!(m.call_stack().len(), 1);
    assert!(matches!(m.step_inline().unwrap(), Action::Next));
    assert_eq!(m.get_variable("x"), Some(&Value::Int(5)));
    assert!(matches!(m.step_inline().unwrap(), Action::Next));
    assert_eq!(m.current_line(), 1);
    assert_eq!(m.current_script(), Some("s"));
    assert_eq!(m.call_stack().len(), 0);
}

#[test]
fn return_with_empty_stack_completes() {
    let mut m = machine();
    m.load_script("s", "[return]\n[wt]\n").unwrap();
    m.boot("s").unwrap();
    assert!(matches!(m.step_inline().unwrap(), Action::Completed));
}

#[test]
fn missing_label_and_script_errors() {
    let mut m = machine();
    m.load_script("s", "*main\n[jump label=\"nowhere\"]\n").unwrap();
    assert!(matches!(m.start("t", "main"), Err(Error::ScriptNotFound(ref n)) if n == "t"));
    assert!(matches!(m.start("s", "x"), Err(Error::LabelNotFound(ref l)) if l == "x"));
    m.start("s", "main").unwrap();
    assert!(matches!(m.step_inline(), Err(Error::LabelNotFound(ref l)) if l == "nowhere"));
}

#[test]
fn parse_errors_leave_the_machine_alone() {
    let mut m = machine();
    assert!(matches!(m.load_script("s", "[lua]\nprint(1)\n"), Err(Error::ParseError { .. })));
    assert!(!m.has_script("s"));
}

#[test]
fn calls_to_another_file_ask_for_it() {
    let mut m = machine();
    m.load_script("a", "[call file=\"b\" label=\"x\"]\n[wt]\n").unwrap();
    m.boot("a").unwrap();
    let label = match m.step_inline().unwrap() {
        Action::NeedScript { file, label } => {
            assert_eq!(file, "b");
            label
        },
        _ => panic!("the file is asked for"),
    };
    assert_eq!(m.call_stack().len(), 1);
    m.load_script("b", "*x\n[return]\n").unwrap();
    assert!(matches!(m.enter_label("b", &label).unwrap(), Action::Next));
    assert_eq!(m.current_script(), Some("b"));
    assert_eq!(m.current_line(), 0);
    assert!(matches!(m.step_inline().unwrap(), Action::Next));
    assert_eq!(m.current_script(), Some("a"));
    assert_eq!(m.current_line(), 1);
}

#[test]
fn boot_picks_the_start_label() {
    let mut m = machine();
    m.load_script("s", "[wt]\n*start\n[wt]\n*_start\n[wt]\n").unwrap();
    m.boot("s").unwrap();
    assert_eq!(m.current_line(), 1);
    m.load_script("s", "[wt]\n[wt]\n").unwrap();
    m.boot("s").unwrap();
    assert_eq!(m.current_line(), 0);
    assert!(matches!(m.boot("zz"), Err(Error::ScriptNotFound(_))));
}

#[test]
fn lua_blocks_and_calls_go_to_the_host() {
    let mut m = machine();
    m.load_script("s", "[lua]\nx = 1\n[/lua]\n[calllua function=\"f\" a=\"1\"]\n").unwrap();
    m.boot("s").unwrap();
    assert!(matches!(m.step_inline().unwrap(), Action::RunLua(ref c) if c == "x = 1"));
    m.advance();
    match m.step_inline().unwrap() {
        Action::CallLua { function, params } => {
            assert_eq!(function, "f");
            assert_eq!(params.get("a").map(String::as_str), Some("1"));
        },
        _ => panic!("calllua goes to the host"),
    }
}

#[test]
fn unknown_tags_fall_back_to_custom_events() {
    let mut m = machine();
    m.load_script("s", "[mytag a=\"1\"]\n[wt]\n").unwrap();
    m.boot("s").unwrap();
    let ins = match m.step_inline().unwrap() {
        Action::Unhandled(ins) => ins,
        _ => panic!("nothing built in knows mytag"),
    };
    match m.fallback(ins.duplicate(), false) {
        Action::Notify(events) => {
            assert!(matches!(&events[0], Event::Custom { tag, .. } if tag == "mytag"));
        },
        _ => panic!("an unknown tag becomes a custom event"),
    }
    assert_eq!(m.current_line(), 0);
    assert!(matches!(m.fallback(ins, true), Action::Next));
    assert_eq!(m.current_line(), 1);
}

#[test]
fn queued_call_returns_to_the_pending_instruction() {
    let mut m = machine();
    m.load_script("s", "[wt]\n[wt]\n*sub\n[return]\n").unwrap();
    m.boot("s").unwrap();
    m.advance();
    let mut params = StrMap::new();
    params.insert("label".to_string(), "sub".to_string());
    m.reset_drain_flags();
    assert!(matches!(m.run_queued("call".to_string(), params).unwrap(), Action::Next));
    assert_eq!(m.current_line(), 2);
    assert_eq!(m.drain_flags(), (false, true));
    let frames: Vec<CallFrame> = m.call_stack();
    assert_eq!(frames[0].return_line, 1);
    assert!(matches!(m.run_queued("return".to_string(), StrMap::new()).unwrap(), Action::Next));
    assert_eq!(m.current_line(), 1);
    assert_eq!(m.drain_flags(), (true, true));
}

#[test]
fn wait_from_the_queue_keeps_the_position() {
    let mut m = machine();
    m.load_script("s", "[wt]\n[wt]\n").unwrap();
    m.boot("s").unwrap();
    let action = m.run_queued("wt".to_string(), StrMap::new()).unwrap();
    assert!(matches!(action, Action::Notify(_)));
    assert_eq!(m.queued_event_answered(CallbackResult::Pause).unwrap(), true);
    m.advance_line();
    assert_eq!(m.current_line(), 0);
    m.advance_line();
    assert_eq!(m.current_line(), 1);
}

#[test]
fn queued_var_is_applied() {
    let mut m = machine();
    let mut params = StrMap::new();
    params.insert("name".to_string(), "t.w".to_string());
    params.insert("data".to_string(), "7".to_string());
    assert!(matches!(m.run_queued("var".to_string(), params).unwrap(), Action::Next));
    assert_eq!(m.get_variable("t.w"), Some(&Value::Int(7)));
}

#[test]
fn nested_dynamic_tags_are_refused() {
    let mut m = machine();
    m.load_script("s", "[tag name=\"tag\"]\n").unwrap();
    m.boot("s").unwrap();
    assert!(matches!(m.step_inline(), Err(Error::RuntimeError { .. })));
    let mut m2 = machine();
    m2.load_script("s", "[tag name=\"jump\" label=\"x\"]\n*x\n[wt]\n").unwrap();
    m2.boot("s").unwrap();
    assert!(matches!(m2.step_inline().unwrap(), Action::Next));
    assert_eq!(m2.current_line(), 1);
    assert!(matches!(m2.apply_result(TagResult::Jump(0)).unwrap(), Action::Next));
}

#[test]
fn restore_position_and_variables() {
    let mut m = machine();
    m.load_script("s", "[wt]\n[wt]\n").unwrap();
    m.restore_position("s", 1, vec![CallFrame { script: "s".to_string(), return_line: 0 }]);
    assert_eq!(m.current_line(), 1);
    assert_eq!(m.call_stack().len(), 1);
    let mut vars = m.variables().clone();
    vars.set("g.k", Value::Int(1));
    m.restore_variables(vars);
    assert_eq!(m.get_variable("g.k"), Some(&Value::Int(1)));
    m.set_variable("g.k", Value::Int(2));
    assert_eq!(m.get_variable("g.k"), Some(&Value::Int(2)));
}

#[test]
fn asb_magic_and_text_files() {
    assert!(is_asb_data(b"ASB\0rest"));
    assert!(!is_asb_data(b"ASB"));
    assert!(!is_asb_data(b"*main\n"));
    let mut m = machine();
    m.load_text_file("t", "*main\n[wt]\n".as_bytes()).unwrap();
    assert_eq!(m.get_script("t").unwrap().get_label_line("main"), Some(0));
}

#[test]
fn invalid_utf8_is_replaced() {
    let mut m = machine();
    m.load_text_file("u", b"*main\nab\xFFc\n").unwrap();
    m.start("u", "main").unwrap();
    match run(&mut m).unwrap() {
        Action::Notify(events) => {
            assert!(matches!(&events[0], Event::ScenarioText { content, .. } if content == "ab\u{FFFD}c"));
        },
        _ => panic!("text goes to the host"),
    }
}

#[test]
fn a_failed_load_keeps_the_pushed_frame() {
    let mut m = machine();
    m.load_script("a", "[call file=\"b\" label=\"x\"]\n").unwrap();
    m.boot("a").unwrap();
    assert!(matches!(m.step_inline().unwrap(), Action::NeedScript { .. }));
    assert!(matches!(m.enter_label("b", "x"), Err(Error::ScriptNotFound(n)) if n == "b"));
    assert_eq!(m.call_stack().len(), 1);
    m.load_script("b", "*y\n").unwrap();
    assert!(matches!(m.enter_label("b", "x"), Err(Error::LabelNotFound(l)) if l == "x"));
}

#[test]
fn an_empty_event_list_moves_on() {
    let mut m = machine();
    m.load_script("s", "[wt]\n[wt]\n").unwrap();
    m.boot("s").unwrap();
    assert!(matches!(m.apply_result(TagResult::EmitMany(Vec::new())).unwrap(), Action::Next));
    assert_eq!(m.current_line(), 1);
}
