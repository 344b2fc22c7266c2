use asb_interpreter::error::Error;
use asb_interpreter::event::{Event, LayerEvent, LoadMaskAction, TransitionEvent, WaitReason};
use asb_interpreter::script::{Instruction, Script};
use asb_interpreter::strmap::StrMap;
use asb_interpreter::tags::condition::{ElseHandler, EndloopHandler, IfHandler, LoopHandler};
use asb_interpreter::tags::jump::{CallHandler, JumpHandler, TagTagHandler};
use asb_interpreter::tags::layer::{AnimeHandler, LyeventHandler};
use asb_interpreter::tags::lua::CallLuaHandler;
use asb_interpreter::tags::sound::{SeplayHandler, SfadeinHandler};
use asb_interpreter::tags::ui::{LoadMaskHandler, LypropHandler, UiTransHandler};
use asb_interpreter::tags::{dispatch_builtin, ExecutionContext, TagHandler, TagResult};
use asb_interpreter::variable::{Value, VariableStore};

fn instruction(tag: &str, pairs: &[(&str, &str)]) -> Instruction {
    let mut params = StrMap::new();
    for (k, v) in pairs {
        params.insert(k.to_string(), v.to_string());
    }
    Instruction { tag: tag.to_string(), params, line: 1 }
}

fn run(handler: &dyn Fn(&ExecutionContext<'_>) -> Result<TagResult, Error>, ins: &Instruction, vars: &VariableStore, script: Option<&Script>, line: usize) -> Result<TagResult, Error> {
    let ctx = ExecutionContext { variables: vars, current_script: "test", current_line: line, instruction: ins, script };
    handler(&ctx)
}

#[test]
fn lyevent_custom_click_over_out_params_are_only_forwarded() {
    let instruction = instruction(
        "lyevent",
        &[
            ("id", "dock"),
            ("type", "click"),
            ("handler", "calllua"),
            ("function", "btn_clickex"),
            ("click", "btn_click"),
            ("over", "mwarea_over"),
            ("out", "mwarea_out"),
        ],
    );
    let variables = VariableStore::new();
    let ctx = ExecutionContext {
        variables: &variables,
        current_script: "test",
        current_line: 0,
        instruction: &instruction,
        script: None,
    };
    let TagResult::Emit(Event::LayerEventHandler { id, event_type, handler, extra_params, .. }) =
        LyeventHandler.execute(&ctx).unwrap()
    else {
        panic!("lyevent should produce a single documented event registration");
    };
    assert_eq!(id, "dock");
    assert_eq!(event_type, "click");
    assert_eq!(handler.as_deref(), Some("calllua"));
    assert_eq!(extra_params.get("function").map(String::as_str), Some("btn_clickex"));
    assert_eq!(extra_params.get("click").map(String::as_str), Some("btn_click"));
    assert_eq!(extra_params.get("over").map(String::as_str), Some("mwarea_over"));
    assert_eq!(extra_params.get("out").map(String::as_str), Some("mwarea_out"));
}

const BRANCHES: &str = "
*main
[if estimate=\"$f==1\"]
one
[elseif estimate=\"$f==2\"]
two
[else]
other
[/if]
[loop estimate=\"$n<3\"]
[if estimate=\"0\"]
[/if]
[/loop]
end
";

#[test]
fn if_jumps_to_the_next_branch() {
    let script = Script::parse("test", BRANCHES).unwrap();
    let mut vars = VariableStore::new();
    vars.set("f", Value::Int(1));
    let ins = script.instructions[0].clone();
    let r = run(&|c| IfHandler.execute(c), &ins, &vars, Some(&script), 0).unwrap();
    assert!(matches!(r, TagResult::Continue));
    vars.set("f", Value::Int(2));
    let r = run(&|c| IfHandler.execute(c), &ins, &vars, Some(&script), 0).unwrap();
    assert!(matches!(r, TagResult::Jump(2)));
    vars.set("f", Value::Int(3));
    let elseif = script.instructions[2].clone();
    let r = run(&|c| IfHandler.execute(c), &elseif, &vars, Some(&script), 2).unwrap();
    assert!(matches!(r, TagResult::Jump(5)));
    let r = run(&|c| ElseHandler.execute(c), &script.instructions[4].clone(), &vars, Some(&script), 4).unwrap();
    assert!(matches!(r, TagResult::Jump(7)));
}

#[test]
fn loops_skip_nested_blocks() {
    let script = Script::parse("test", BRANCHES).unwrap();
    let mut vars = VariableStore::new();
    vars.set("n", Value::Int(5));
    let r = run(&|c| LoopHandler.execute(c), &script.instructions[7].clone(), &vars, Some(&script), 7).unwrap();
    assert!(matches!(r, TagResult::Jump(11)));
    vars.set("n", Value::Int(0));
    let r = run(&|c| LoopHandler.execute(c), &script.instructions[7].clone(), &vars, Some(&script), 7).unwrap();
    assert!(matches!(r, TagResult::Continue));
    let r = run(&|c| EndloopHandler.execute(c), &script.instructions[10].clone(), &vars, Some(&script), 10).unwrap();
    assert!(matches!(r, TagResult::Jump(7)));
}

#[test]
fn unmatched_if_is_an_error() {
    let script = Script::parse("test", "[if estimate=\"0\"]\ntext\n").unwrap();
    let vars = VariableStore::new();
    let r = run(&|c| IfHandler.execute(c), &script.instructions[0].clone(), &vars, Some(&script), 0);
    assert!(matches!(r, Err(Error::RuntimeError { line: 0, .. })));
    let r = run(&|c| IfHandler.execute(c), &script.instructions[0].clone(), &vars, None, 0);
    assert!(matches!(r, Err(Error::RuntimeError { .. })));
}

#[test]
fn condition_errors_are_expression_errors() {
    let vars = VariableStore::new();
    let ins = instruction("if", &[("estimate", "$1/0")]);
    let r = run(&|c| IfHandler.execute(c), &ins, &vars, None, 0);
    assert!(matches!(r, Err(Error::ExpressionError(_))));
}

#[test]
fn jump_within_and_across_scripts() {
    let script = Script::parse("test", "*a\n[wt]\n*b\n[wt]\n").unwrap();
    let vars = VariableStore::new();
    let r = run(&|c| JumpHandler.execute(c), &instruction("jump", &[("label", "*b")]), &vars, Some(&script), 0).unwrap();
    assert!(matches!(r, TagResult::Jump(1)));
    let r = run(&|c| JumpHandler.execute(c), &instruction("jump", &[("label", "zz")]), &vars, Some(&script), 0);
    assert!(matches!(r, Err(Error::LabelNotFound(ref l)) if l == "zz"));
    let r = run(&|c| JumpHandler.execute(c), &instruction("jump", &[("file", "other"), ("label", "x")]), &vars, Some(&script), 4)
        .unwrap();
    match r {
        TagResult::Call { file, label, return_line, return_script } => {
            assert_eq!(file.as_deref(), Some("other"));
            assert_eq!(label, "x");
            assert_eq!(return_line, 5);
            assert_eq!(return_script, "test");
        },
        _ => panic!("a jump to another file is a call"),
    }
}

#[test]
fn call_returns_to_the_next_line() {
    let vars = VariableStore::new();
    let r = run(&|c| CallHandler.execute(c), &instruction("call", &[("label", "sub")]), &vars, None, 3).unwrap();
    match r {
        TagResult::Call { file, label, return_line, return_script } => {
            assert!(file.is_none());
            assert_eq!(label, "sub");
            assert_eq!(return_line, 4);
            assert_eq!(return_script, "test");
        },
        _ => panic!("call gives a call"),
    }
}

#[test]
fn tag_runs_the_named_tag() {
    let vars = VariableStore::new();
    let r = run(&|c| TagTagHandler.execute(c), &instruction("tag", &[("name", "lyc"), ("id", "3")]), &vars, None, 0).unwrap();
    match r {
        TagResult::Dynamic(inner) => {
            assert_eq!(inner.tag, "lyc");
            assert_eq!(inner.get("id"), Some("3"));
            assert_eq!(inner.get("name"), None);
        },
        _ => panic!("tag gives another instruction"),
    }
}

#[test]
fn calllua_needs_a_function() {
    let vars = VariableStore::new();
    let r = run(&|c| CallLuaHandler.execute(c), &instruction("calllua", &[]), &vars, None, 9);
    assert!(matches!(r, Err(Error::RuntimeError { line: 9, .. })));
    let r = run(&|c| CallLuaHandler.execute(c), &instruction("calllua", &[("function", "f"), ("x", "1")]), &vars, None, 9).unwrap();
    match r {
        TagResult::CallLua { function, params } => {
            assert_eq!(function, "f");
            assert_eq!(params.get("x").map(String::as_str), Some("1"));
            assert_eq!(params.get("function"), None);
        },
        _ => panic!("calllua gives a Lua call"),
    }
}

#[test]
fn uitrans_defaults_and_waits() {
    let vars = VariableStore::new();
    let r = run(&|c| UiTransHandler.execute(c), &instruction("uitrans", &[("0", "250")]), &vars, None, 0).unwrap();
    assert!(matches!(r, TagResult::Wait(Event::UiTransition(TransitionEvent { time: 250, .. }))));
    let r = run(&|c| UiTransHandler.execute(c), &instruction("uitrans", &[("time", "x"), ("0", "250")]), &vars, None, 0).unwrap();
    assert!(matches!(r, TagResult::Wait(Event::UiTransition(TransitionEvent { time: 500, .. }))));
}

#[test]
fn sound_parameters_are_resolved() {
    let mut vars = VariableStore::new();
    vars.set("t.se", Value::String("click".to_string()));
    let ins = instruction("seplay", &[("id", "1"), ("file", "$t.se"), ("loop", "1"), ("gain", "800"), ("time", "x")]);
    let r = run(&|c| SeplayHandler.execute(c), &ins, &vars, None, 0).unwrap();
    match r {
        TagResult::Emit(Event::SePlay { id, file, loop_play, gain, pan, fade_time, skippable }) => {
            assert_eq!(id, "1");
            assert_eq!(file, "click");
            assert!(loop_play);
            assert_eq!(gain, Some(800));
            assert_eq!(pan, None);
            assert_eq!(fade_time, None);
            assert!(!skippable);
        },
        _ => panic!("seplay plays a sound effect"),
    }
    let r = run(&|c| SfadeinHandler.execute(c), &instruction("sfadein", &[("time", "300")]), &vars, None, 0).unwrap();
    assert!(matches!(r, TagResult::Emit(Event::BgmFade { gain: 1000, time: 300 })));
}

#[test]
fn layer_tags() {
    let mut vars = VariableStore::new();
    vars.set("x", Value::Int(10));
    let r = run(&|c| LypropHandler.execute(c), &instruction("lyprop", &[("id", "bg"), ("left", "$x+5")]), &vars, None, 0).unwrap();
    match r {
        TagResult::Emit(Event::Layer(LayerEvent::SetProperties { id, properties })) => {
            assert_eq!(id, "bg");
            assert_eq!(properties.get("left").map(String::as_str), Some("15"));
            assert_eq!(properties.get("id"), None);
        },
        _ => panic!("lyprop sets properties"),
    }
    let r = run(&|c| LoadMaskHandler.execute(c), &instruction("loadmask", &[("0", "del")]), &vars, None, 0).unwrap();
    assert!(matches!(r, TagResult::Emit(Event::LoadMask { action: LoadMaskAction::Delete, time: 0 })));
    let r = run(&|c| AnimeHandler.execute(c), &instruction("anime", &[("id", "a"), ("alpha", "128"), ("foo", "1")]), &vars, None, 0).unwrap();
    match r {
        TagResult::Emit(Event::Anime { props, .. }) => {
            assert_eq!(props.len(), 1);
            assert_eq!(props.get("alpha").map(String::as_str), Some("128"));
        },
        _ => panic!("anime animates"),
    }
}

#[test]
fn dispatch_finds_built_in_handlers() {
    let vars = VariableStore::new();
    let ins = instruction("wait", &[("time", "100")]);
    let ctx = ExecutionContext { variables: &vars, current_script: "test", current_line: 0, instruction: &ins, script: None };
    let r = dispatch_builtin("wait", &ctx).unwrap().unwrap();
    assert!(matches!(r, TagResult::Wait(Event::Wait { reason: WaitReason::Timed { milliseconds: 100, input: 1 } })));
    assert!(dispatch_builtin("no_such_tag", &ctx).is_none());
    let ins = instruction("setonpush", &[("label", "x"), ("key", "7")]);
    let ctx = ExecutionContext { variables: &vars, current_script: "test", current_line: 0, instruction: &ins, script: None };
    match dispatch_builtin("setonpush", &ctx).unwrap().unwrap() {
        TagResult::Emit(Event::SetEventHandler { event_name, label, call, extra_params, .. }) => {
            assert_eq!(event_name, "push");
            assert_eq!(label.as_deref(), Some("x"));
            assert!(!call);
            assert_eq!(extra_params.get("key").map(String::as_str), Some("7"));
        },
        _ => panic!("setonpush registers a handler"),
    }
}
