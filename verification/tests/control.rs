use asb_interpreter::event::{Event, SaveAction, WaitReason};
use asb_interpreter::script::Instruction;
use asb_interpreter::strmap::StrMap;
use asb_interpreter::tags::control::{
    DialogHandler, ExkeyHandler, ReturnHandler, StopHandler, SyssaveHandler, WaitHandler, Wt0Handler, YesnoHandler,
};
use asb_interpreter::tags::{ExecutionContext, TagHandler, TagResult};
use asb_interpreter::variable::VariableStore;

fn instruction(tag: &str, pairs: &[(&str, &str)]) -> Instruction {
    let mut params = StrMap::new();
    for (k, v) in pairs {
        params.insert(k.to_string(), v.to_string());
    }
    Instruction { tag: tag.to_string(), params, line: 3 }
}

fn execute(handler: &dyn TagHandler, ins: &Instruction) -> TagResult {
    let vars = VariableStore::new();
    let ctx = ExecutionContext { variables: &vars, current_script: "main", current_line: 3, instruction: ins, script: None };
    handler.execute(&ctx).unwrap()
}

#[test]
fn return_and_stop() {
    assert!(matches!(execute(&ReturnHandler, &instruction("return", &[])), TagResult::Return));
    match execute(&StopHandler, &instruction("stop", &[("reason", "menu")])) {
        TagResult::Wait(Event::Wait { reason: WaitReason::Stop { reason } }) => assert_eq!(reason.as_deref(), Some("menu")),
        _ => panic!("stop waits"),
    }
    match execute(&StopHandler, &instruction("stop", &[])) {
        TagResult::Wait(Event::Wait { reason: WaitReason::Stop { reason } }) => assert_eq!(reason, None),
        _ => panic!("stop waits"),
    }
}

#[test]
fn wait_defaults_and_bad_numbers() {
    let r = execute(&WaitHandler, &instruction("wait", &[]));
    assert!(matches!(r, TagResult::Wait(Event::Wait { reason: WaitReason::Timed { milliseconds: 0, input: 1 } })));
    let r = execute(&WaitHandler, &instruction("wait", &[("time", "1500"), ("input", "2")]));
    assert!(matches!(r, TagResult::Wait(Event::Wait { reason: WaitReason::Timed { milliseconds: 1500, input: 2 } })));
    let r = execute(&WaitHandler, &instruction("wait", &[("time", "-5"), ("input", "x")]));
    assert!(matches!(r, TagResult::Wait(Event::Wait { reason: WaitReason::Timed { milliseconds: 0, input: 1 } })));
    let r = execute(&Wt0Handler, &instruction("wt0", &[]));
    assert!(matches!(r, TagResult::Wait(Event::Wait { reason: WaitReason::Generic0 })));
}

#[test]
fn exkey_lists_the_keys() {
    match execute(&ExkeyHandler, &instruction("exkey", &[("0", "enter"), ("1", "esc")])) {
        TagResult::Wait(Event::Wait { reason: WaitReason::KeyWait { buttons } }) => {
            assert_eq!(buttons.len(), 2);
            assert!(buttons.contains(&"enter".to_string()));
            assert!(buttons.contains(&"esc".to_string()));
        },
        _ => panic!("exkey waits for keys"),
    }
}

#[test]
fn dialogs_wait_for_an_answer() {
    let ins = instruction("dialog", &[("title", "Name"), ("message", "Who?"), ("varname", "f.name"), ("textfield_size", "12")]);
    match execute(&DialogHandler, &ins) {
        TagResult::Wait(Event::ShowDialog { title, message, varname, textfield, textfield_size }) => {
            assert_eq!(title, "Name");
            assert_eq!(message, "Who?");
            assert_eq!(varname.as_deref(), Some("f.name"));
            assert_eq!(textfield, None);
            assert_eq!(textfield_size, Some(12));
        },
        _ => panic!("dialog waits"),
    }
    match execute(&YesnoHandler, &instruction("yesno", &[("file", "quit.png")])) {
        TagResult::Wait(Event::YesNo { file, se }) => {
            assert_eq!(file, "quit.png");
            assert_eq!(se, None);
        },
        _ => panic!("yesno waits"),
    }
    let r = execute(&SyssaveHandler, &instruction("syssave", &[]));
    assert!(matches!(r, TagResult::Emit(Event::SaveOperation { action: SaveAction::SystemSave })));
}
