//! `seton*` / `delon*` tags: registering and removing the handlers of input events.
use crate::error::Error;
use crate::event::Event;
use crate::tags::{ExecutionContext, TagHandler, TagResult, param, opt_view, param_flag, params_except};
use crate::text::{str_eq, to_owned_string};
use crate::variable::StoreView;
use crate::script::InstructionView;
use vstd::prelude::*;

verus! {

/// What `[setonpush]` gives: registers the handler of the `push` event; the other parameters go with it.
pub open spec fn set_on_push_outcome(ins: InstructionView, vars: StoreView, r: Result<TagResult, Error>) -> bool {
    {
        &&& r matches Ok(TagResult::Emit(Event::SetEventHandler { event_name, file, label, call, handler, extra_params }))
        &&& event_name@ == "push"@
        &&& opt_view(file) == param(ins, "file"@)
        &&& opt_view(label) == param(ins, "label"@)
        &&& call == param_flag(ins, "call"@, 0)
        &&& opt_view(handler) == param(ins, "handler"@)
        &&& extra_params@ == params_except(ins.params, seq!["file"@, "label"@, "call"@, "handler"@])
    }
}

/// `[setonpush]`: registers the handler of the `push` event; the other parameters go with it.
pub struct SetOnPushHandler;

impl TagHandler for SetOnPushHandler {
    fn execute(&self, ctx: &ExecutionContext<'_>) -> (r: Result<TagResult, Error>)
        ensures
            set_on_push_outcome(ctx.instruction@, ctx.variables@, r),
    {
        let event_name = to_owned_string("push");
        let file = ctx.instruction.get_opt("file");
        let label = ctx.instruction.get_opt("label");
        let call = ctx.instruction.get_flag("call", 0);
        let handler = ctx.instruction.get_opt("handler");
        let known_keys: Vec<&str> = vec!["file", "label", "call", "handler"];
        assert(known_keys@.map_values(|k: &str| k@) =~= seq!["file"@, "label"@, "call"@, "handler"@]);
        let extra_params = ctx.instruction.params_except(known_keys.as_slice());
        Ok(TagResult::Emit(Event::SetEventHandler { event_name, file, label, call, handler, extra_params }))
    }
}

/// What `[setonautomodein]` gives: registers the handler of the `automodein` event; the other parameters go with it.
pub open spec fn set_on_automode_in_outcome(ins: InstructionView, vars: StoreView, r: Result<TagResult, Error>) -> bool {
    {
        &&& r matches Ok(TagResult::Emit(Event::SetEventHandler { event_name, file, label, call, handler, extra_params }))
        &&& event_name@ == "automodein"@
        &&& opt_view(file) == param(ins, "file"@)
        &&& opt_view(label) == param(ins, "label"@)
        &&& call == param_flag(ins, "call"@, 0)
        &&& opt_view(handler) == param(ins, "handler"@)
        &&& extra_params@ == params_except(ins.params, seq!["file"@, "label"@, "call"@, "handler"@])
    }
}

/// `[setonautomodein]`: registers the handler of the `automodein` event; the other parameters go with it.
pub struct SetOnAutomodeInHandler;

impl TagHandler for SetOnAutomodeInHandler {
    fn execute(&self, ctx: &ExecutionContext<'_>) -> (r: Result<TagResult, Error>)
        ensures
            set_on_automode_in_outcome(ctx.instruction@, ctx.variables@, r),
    {
        let event_name = to_owned_string("automodein");
        let file = ctx.instruction.get_opt("file");
        let label = ctx.instruction.get_opt("label");
        let call = ctx.instruction.get_flag("call", 0);
        let handler = ctx.instruction.get_opt("handler");
        let known_keys: Vec<&str> = vec!["file", "label", "call", "handler"];
        assert(known_keys@.map_values(|k: &str| k@) =~= seq!["file"@, "label"@, "call"@, "handler"@]);
        let extra_params = ctx.instruction.params_except(known_keys.as_slice());
        Ok(TagResult::Emit(Event::SetEventHandler { event_name, file, label, call, handler, extra_params }))
    }
}

/// What `[setonautomodeout]` gives: registers the handler of the `automodeout` event; the other parameters go with it.
pub open spec fn set_on_automode_out_outcome(ins: InstructionView, vars: StoreView, r: Result<TagResult, Error>) -> bool {
    {
        &&& r matches Ok(TagResult::Emit(Event::SetEventHandler { event_name, file, label, call, handler, extra_params }))
        &&& event_name@ == "automodeout"@
        &&& opt_view(file) == param(ins, "file"@)
        &&& opt_view(label) == param(ins, "label"@)
        &&& call == param_flag(ins, "call"@, 0)
        &&& opt_view(handler) == param(ins, "handler"@)
        &&& extra_params@ == params_except(ins.params, seq!["file"@, "label"@, "call"@, "handler"@])
    }
}

/// `[setonautomodeout]`: registers the handler of the `automodeout` event; the other parameters go with it.
pub struct SetOnAutomodeOutHandler;

impl TagHandler for SetOnAutomodeOutHandler {
    fn execute(&self, ctx: &ExecutionContext<'_>) -> (r: Result<TagResult, Error>)
        ensures
            set_on_automode_out_outcome(ctx.instruction@, ctx.variables@, r),
    {
        let event_name = to_owned_string("automodeout");
        let file = ctx.instruction.get_opt("file");
        let label = ctx.instruction.get_opt("label");
        let call = ctx.instruction.get_flag("call", 0);
        let handler = ctx.instruction.get_opt("handler");
        let known_keys: Vec<&str> = vec!["file", "label", "call", "handler"];
        assert(known_keys@.map_values(|k: &str| k@) =~= seq!["file"@, "label"@, "call"@, "handler"@]);
        let extra_params = ctx.instruction.params_except(known_keys.as_slice());
        Ok(TagResult::Emit(Event::SetEventHandler { event_name, file, label, call, handler, extra_params }))
    }
}

/// What `[setonbacklogin]` gives: registers the handler of the `backlogin` event; the other parameters go with it.
pub open spec fn set_on_backlog_in_outcome(ins: InstructionView, vars: StoreView, r: Result<TagResult, Error>) -> bool {
    {
        &&& r matches Ok(TagResult::Emit(Event::SetEventHandler { event_name, file, label, call, handler, extra_params }))
        &&& event_name@ == "backlogin"@
        &&& opt_view(file) == param(ins, "file"@)
        &&& opt_view(label) == param(ins, "label"@)
        &&& call == param_flag(ins, "call"@, 0)
        &&& opt_view(handler) == param(ins, "handler"@)
        &&& extra_params@ == params_except(ins.params, seq!["file"@, "label"@, "call"@, "handler"@])
    }
}

/// `[setonbacklogin]`: registers the handler of the `backlogin` event; the other parameters go with it.
pub struct SetOnBacklogInHandler;

impl TagHandler for SetOnBacklogInHandler {
    fn execute(&self, ctx: &ExecutionContext<'_>) -> (r: Result<TagResult, Error>)
        ensures
            set_on_backlog_in_outcome(ctx.instruction@, ctx.variables@, r),
    {
        let event_name = to_owned_string("backlogin");
        let file = ctx.instruction.get_opt("file");
        let label = ctx.instruction.get_opt("label");
        let call = ctx.instruction.get_flag("call", 0);
        let handler = ctx.instruction.get_opt("handler");
        let known_keys: Vec<&str> = vec!["file", "label", "call", "handler"];
        assert(known_keys@.map_values(|k: &str| k@) =~= seq!["file"@, "label"@, "call"@, "handler"@]);
        let extra_params = ctx.instruction.params_except(known_keys.as_slice());
        Ok(TagResult::Emit(Event::SetEventHandler { event_name, file, label, call, handler, extra_params }))
    }
}

/// What `[setonbacklogout]` gives: registers the handler of the `backlogout` event; the other parameters go with it.
pub open spec fn set_on_backlog_out_outcome(ins: InstructionView, vars: StoreView, r: Result<TagResult, Error>) -> bool {
    {
        &&& r matches Ok(TagResult::Emit(Event::SetEventHandler { event_name, file, label, call, handler, extra_params }))
        &&& event_name@ == "backlogout"@
        &&& opt_view(file) == param(ins, "file"@)
        &&& opt_view(label) == param(ins, "label"@)
        &&& call == param_flag(ins, "call"@, 0)
        &&& opt_view(handler) == param(ins, "handler"@)
        &&& extra_params@ == params_except(ins.params, seq!["file"@, "label"@, "call"@, "handler"@])
    }
}

/// `[setonbacklogout]`: registers the handler of the `backlogout` event; the other parameters go with it.
pub struct SetOnBacklogOutHandler;

impl TagHandler for SetOnBacklogOutHandler {
    fn execute(&self, ctx: &ExecutionContext<'_>) -> (r: Result<TagResult, Error>)
        ensures
            set_on_backlog_out_outcome(ctx.instruction@, ctx.variables@, r),
    {
        let event_name = to_owned_string("backlogout");
        let file = ctx.instruction.get_opt("file");
        let label = ctx.instruction.get_opt("label");
        let call = ctx.instruction.get_flag("call", 0);
        let handler = ctx.instruction.get_opt("handler");
        let known_keys: Vec<&str> = vec!["file", "label", "call", "handler"];
        assert(known_keys@.map_values(|k: &str| k@) =~= seq!["file"@, "label"@, "call"@, "handler"@]);
        let extra_params = ctx.instruction.params_except(known_keys.as_slice());
        Ok(TagResult::Emit(Event::SetEventHandler { event_name, file, label, call, handler, extra_params }))
    }
}

/// What `[setoncommandskipin]` gives: registers the handler of the `commandskipin` event; the other parameters go with it.
pub open spec fn set_on_command_skip_in_outcome(ins: InstructionView, vars: StoreView, r: Result<TagResult, Error>) -> bool {
    {
        &&& r matches Ok(TagResult::Emit(Event::SetEventHandler { event_name, file, label, call, handler, extra_params }))
        &&& event_name@ == "commandskipin"@
        &&& opt_view(file) == param(ins, "file"@)
        &&& opt_view(label) == param(ins, "label"@)
        &&& call == param_flag(ins, "call"@, 0)
        &&& opt_view(handler) == param(ins, "handler"@)
        &&& extra_params@ == params_except(ins.params, seq!["file"@, "label"@, "call"@, "handler"@])
    }
}

/// `[setoncommandskipin]`: registers the handler of the `commandskipin` event; the other parameters go with it.
pub struct SetOnCommandSkipInHandler;

impl TagHandler for SetOnCommandSkipInHandler {
    fn execute(&self, ctx: &ExecutionContext<'_>) -> (r: Result<TagResult, Error>)
        ensures
            set_on_command_skip_in_outcome(ctx.instruction@, ctx.variables@, r),
    {
        let event_name = to_owned_string("commandskipin");
        let file = ctx.instruction.get_opt("file");
        let label = ctx.instruction.get_opt("label");
        let call = ctx.instruction.get_flag("call", 0);
        let handler = ctx.instruction.get_opt("handler");
        let known_keys: Vec<&str> = vec!["file", "label", "call", "handler"];
        assert(known_keys@.map_values(|k: &str| k@) =~= seq!["file"@, "label"@, "call"@, "handler"@]);
        let extra_params = ctx.instruction.params_except(known_keys.as_slice());
        Ok(TagResult::Emit(Event::SetEventHandler { event_name, file, label, call, handler, extra_params }))
    }
}

/// What `[setoncommandskipout]` gives: registers the handler of the `commandskipout` event; the other parameters go with it.
pub open spec fn set_on_command_skip_out_outcome(ins: InstructionView, vars: StoreView, r: Result<TagResult, Error>) -> bool {
    {
        &&& r matches Ok(TagResult::Emit(Event::SetEventHandler { event_name, file, label, call, handler, extra_params }))
        &&& event_name@ == "commandskipout"@
        &&& opt_view(file) == param(ins, "file"@)
        &&& opt_view(label) == param(ins, "label"@)
        &&& call == param_flag(ins, "call"@, 0)
        &&& opt_view(handler) == param(ins, "handler"@)
        &&& extra_params@ == params_except(ins.params, seq!["file"@, "label"@, "call"@, "handler"@])
    }
}

/// `[setoncommandskipout]`: registers the handler of the `commandskipout` event; the other parameters go with it.
pub struct SetOnCommandSkipOutHandler;

impl TagHandler for SetOnCommandSkipOutHandler {
    fn execute(&self, ctx: &ExecutionContext<'_>) -> (r: Result<TagResult, Error>)
        ensures
            set_on_command_skip_out_outcome(ctx.instruction@, ctx.variables@, r),
    {
        let event_name = to_owned_string("commandskipout");
        let file = ctx.instruction.get_opt("file");
        let label = ctx.instruction.get_opt("label");
        let call = ctx.instruction.get_flag("call", 0);
        let handler = ctx.instruction.get_opt("handler");
        let known_keys: Vec<&str> = vec!["file", "label", "call", "handler"];
        assert(known_keys@.map_values(|k: &str| k@) =~= seq!["file"@, "label"@, "call"@, "handler"@]);
        let extra_params = ctx.instruction.params_except(known_keys.as_slice());
        Ok(TagResult::Emit(Event::SetEventHandler { event_name, file, label, call, handler, extra_params }))
    }
}

/// What `[setoncontrolskipin]` gives: registers the handler of the `controlskipin` event; the other parameters go with it.
pub open spec fn set_on_control_skip_in_outcome(ins: InstructionView, vars: StoreView, r: Result<TagResult, Error>) -> bool {
    {
        &&& r matches Ok(TagResult::Emit(Event::SetEventHandler { event_name, file, label, call, handler, extra_params }))
        &&& event_name@ == "controlskipin"@
        &&& opt_view(file) == param(ins, "file"@)
        &&& opt_view(label) == param(ins, "label"@)
        &&& call == param_flag(ins, "call"@, 0)
        &&& opt_view(handler) == param(ins, "handler"@)
        &&& extra_params@ == params_except(ins.params, seq!["file"@, "label"@, "call"@, "handler"@])
    }
}

/// `[setoncontrolskipin]`: registers the handler of the `controlskipin` event; the other parameters go with it.
pub struct SetOnControlSkipInHandler;

impl TagHandler for SetOnControlSkipInHandler {
    fn execute(&self, ctx: &ExecutionContext<'_>) -> (r: Result<TagResult, Error>)
        ensures
            set_on_control_skip_in_outcome(ctx.instruction@, ctx.variables@, r),
    {
        let event_name = to_owned_string("controlskipin");
        let file = ctx.instruction.get_opt("file");
        let label = ctx.instruction.get_opt("label");
        let call = ctx.instruction.get_flag("call", 0);
        let handler = ctx.instruction.get_opt("handler");
        let known_keys: Vec<&str> = vec!["file", "label", "call", "handler"];
        assert(known_keys@.map_values(|k: &str| k@) =~= seq!["file"@, "label"@, "call"@, "handler"@]);
        let extra_params = ctx.instruction.params_except(known_keys.as_slice());
        Ok(TagResult::Emit(Event::SetEventHandler { event_name, file, label, call, handler, extra_params }))
    }
}

/// What `[setoncontrolskipout]` gives: registers the handler of the `controlskipout` event; the other parameters go with it.
pub open spec fn set_on_control_skip_out_outcome(ins: InstructionView, vars: StoreView, r: Result<TagResult, Error>) -> bool {
    {
        &&& r matches Ok(TagResult::Emit(Event::SetEventHandler { event_name, file, label, call, handler, extra_params }))
        &&& event_name@ == "controlskipout"@
        &&& opt_view(file) == param(ins, "file"@)
        &&& opt_view(label) == param(ins, "label"@)
        &&& call == param_flag(ins, "call"@, 0)
        &&& opt_view(handler) == param(ins, "handler"@)
        &&& extra_params@ == params_except(ins.params, seq!["file"@, "label"@, "call"@, "handler"@])
    }
}

/// `[setoncontrolskipout]`: registers the handler of the `controlskipout` event; the other parameters go with it.
pub struct SetOnControlSkipOutHandler;

impl TagHandler for SetOnControlSkipOutHandler {
    fn execute(&self, ctx: &ExecutionContext<'_>) -> (r: Result<TagResult, Error>)
        ensures
            set_on_control_skip_out_outcome(ctx.instruction@, ctx.variables@, r),
    {
        let event_name = to_owned_string("controlskipout");
        let file = ctx.instruction.get_opt("file");
        let label = ctx.instruction.get_opt("label");
        let call = ctx.instruction.get_flag("call", 0);
        let handler = ctx.instruction.get_opt("handler");
        let known_keys: Vec<&str> = vec!["file", "label", "call", "handler"];
        assert(known_keys@.map_values(|k: &str| k@) =~= seq!["file"@, "label"@, "call"@, "handler"@]);
        let extra_params = ctx.instruction.params_except(known_keys.as_slice());
        Ok(TagResult::Emit(Event::SetEventHandler { event_name, file, label, call, handler, extra_params }))
    }
}

/// What `[setondirchg]` gives: registers the handler of the `dirchg` event; the other parameters go with it.
pub open spec fn set_on_dirchg_outcome(ins: InstructionView, vars: StoreView, r: Result<TagResult, Error>) -> bool {
    {
        &&& r matches Ok(TagResult::Emit(Event::SetEventHandler { event_name, file, label, call, handler, extra_params }))
        &&& event_name@ == "dirchg"@
        &&& opt_view(file) == param(ins, "file"@)
        &&& opt_view(label) == param(ins, "label"@)
        &&& call == param_flag(ins, "call"@, 0)
        &&& opt_view(handler) == param(ins, "handler"@)
        &&& extra_params@ == params_except(ins.params, seq!["file"@, "label"@, "call"@, "handler"@])
    }
}

/// `[setondirchg]`: registers the handler of the `dirchg` event; the other parameters go with it.
pub struct SetOnDirchgHandler;

impl TagHandler for SetOnDirchgHandler {
    fn execute(&self, ctx: &ExecutionContext<'_>) -> (r: Result<TagResult, Error>)
        ensures
            set_on_dirchg_outcome(ctx.instruction@, ctx.variables@, r),
    {
        let event_name = to_owned_string("dirchg");
        let file = ctx.instruction.get_opt("file");
        let label = ctx.instruction.get_opt("label");
        let call = ctx.instruction.get_flag("call", 0);
        let handler = ctx.instruction.get_opt("handler");
        let known_keys: Vec<&str> = vec!["file", "label", "call", "handler"];
        assert(known_keys@.map_values(|k: &str| k@) =~= seq!["file"@, "label"@, "call"@, "handler"@]);
        let extra_params = ctx.instruction.params_except(known_keys.as_slice());
        Ok(TagResult::Emit(Event::SetEventHandler { event_name, file, label, call, handler, extra_params }))
    }
}

/// What `[setonhidein]` gives: registers the handler of the `hidein` event; the other parameters go with it.
pub open spec fn set_on_hide_in_outcome(ins: InstructionView, vars: StoreView, r: Result<TagResult, Error>) -> bool {
    {
        &&& r matches Ok(TagResult::Emit(Event::SetEventHandler { event_name, file, label, call, handler, extra_params }))
        &&& event_name@ == "hidein"@
        &&& opt_view(file) == param(ins, "file"@)
        &&& opt_view(label) == param(ins, "label"@)
        &&& call == param_flag(ins, "call"@, 0)
        &&& opt_view(handler) == param(ins, "handler"@)
        &&& extra_params@ == params_except(ins.params, seq!["file"@, "label"@, "call"@, "handler"@])
    }
}

/// `[setonhidein]`: registers the handler of the `hidein` event; the other parameters go with it.
pub struct SetOnHideInHandler;

impl TagHandler for SetOnHideInHandler {
    fn execute(&self, ctx: &ExecutionContext<'_>) -> (r: Result<TagResult, Error>)
        ensures
            set_on_hide_in_outcome(ctx.instruction@, ctx.variables@, r),
    {
        let event_name = to_owned_string("hidein");
        let file = ctx.instruction.get_opt("file");
        let label = ctx.instruction.get_opt("label");
        let call = ctx.instruction.get_flag("call", 0);
        let handler = ctx.instruction.get_opt("handler");
        let known_keys: Vec<&str> = vec!["file", "label", "call", "handler"];
        assert(known_keys@.map_values(|k: &str| k@) =~= seq!["file"@, "label"@, "call"@, "handler"@]);
        let extra_params = ctx.instruction.params_except(known_keys.as_slice());
        Ok(TagResult::Emit(Event::SetEventHandler { event_name, file, label, call, handler, extra_params }))
    }
}

/// What `[setonhideout]` gives: registers the handler of the `hideout` event; the other parameters go with it.
pub open spec fn set_on_hide_out_outcome(ins: InstructionView, vars: StoreView, r: Result<TagResult, Error>) -> bool {
    {
        &&& r matches Ok(TagResult::Emit(Event::SetEventHandler { event_name, file, label, call, handler, extra_params }))
        &&& event_name@ == "hideout"@
        &&& opt_view(file) == param(ins, "file"@)
        &&& opt_view(label) == param(ins, "label"@)
        &&& call == param_flag(ins, "call"@, 0)
        &&& opt_view(handler) == param(ins, "handler"@)
        &&& extra_params@ == params_except(ins.params, seq!["file"@, "label"@, "call"@, "handler"@])
    }
}

/// `[setonhideout]`: registers the handler of the `hideout` event; the other parameters go with it.
pub struct SetOnHideOutHandler;

impl TagHandler for SetOnHideOutHandler {
    fn execute(&self, ctx: &ExecutionContext<'_>) -> (r: Result<TagResult, Error>)
        ensures
            set_on_hide_out_outcome(ctx.instruction@, ctx.variables@, r),
    {
        let event_name = to_owned_string("hideout");
        let file = ctx.instruction.get_opt("file");
        let label = ctx.instruction.get_opt("label");
        let call = ctx.instruction.get_flag("call", 0);
        let handler = ctx.instruction.get_opt("handler");
        let known_keys: Vec<&str> = vec!["file", "label", "call", "handler"];
        assert(known_keys@.map_values(|k: &str| k@) =~= seq!["file"@, "label"@, "call"@, "handler"@]);
        let extra_params = ctx.instruction.params_except(known_keys.as_slice());
        Ok(TagResult::Emit(Event::SetEventHandler { event_name, file, label, call, handler, extra_params }))
    }
}

/// What `[setonwindowbutton]` gives: registers the handler of the `windowbutton` event; the other parameters go with it.
pub open spec fn set_on_window_button_outcome(ins: InstructionView, vars: StoreView, r: Result<TagResult, Error>) -> bool {
    {
        &&& r matches Ok(TagResult::Emit(Event::SetEventHandler { event_name, file, label, call, handler, extra_params }))
        &&& event_name@ == "windowbutton"@
        &&& opt_view(file) == param(ins, "file"@)
        &&& opt_view(label) == param(ins, "label"@)
        &&& call == param_flag(ins, "call"@, 0)
        &&& opt_view(handler) == param(ins, "handler"@)
        &&& extra_params@ == params_except(ins.params, seq!["file"@, "label"@, "call"@, "handler"@])
    }
}

/// `[setonwindowbutton]`: registers the handler of the `windowbutton` event; the other parameters go with it.
pub struct SetOnWindowButtonHandler;

impl TagHandler for SetOnWindowButtonHandler {
    fn execute(&self, ctx: &ExecutionContext<'_>) -> (r: Result<TagResult, Error>)
        ensures
            set_on_window_button_outcome(ctx.instruction@, ctx.variables@, r),
    {
        let event_name = to_owned_string("windowbutton");
        let file = ctx.instruction.get_opt("file");
        let label = ctx.instruction.get_opt("label");
        let call = ctx.instruction.get_flag("call", 0);
        let handler = ctx.instruction.get_opt("handler");
        let known_keys: Vec<&str> = vec!["file", "label", "call", "handler"];
        assert(known_keys@.map_values(|k: &str| k@) =~= seq!["file"@, "label"@, "call"@, "handler"@]);
        let extra_params = ctx.instruction.params_except(known_keys.as_slice());
        Ok(TagResult::Emit(Event::SetEventHandler { event_name, file, label, call, handler, extra_params }))
    }
}

/// What `[delonpush]` gives: removes the handlers of the `push` event (only that of `key` when given).
pub open spec fn del_on_push_outcome(ins: InstructionView, vars: StoreView, r: Result<TagResult, Error>) -> bool {
    {
        &&& r matches Ok(TagResult::Emit(Event::DelEventHandler { event_name, key }))
        &&& event_name@ == "push"@
        &&& opt_view(key) == param(ins, "key"@)
    }
}

/// `[delonpush]`: removes the handlers of the `push` event (only that of `key` when given).
pub struct DelOnPushHandler;

impl TagHandler for DelOnPushHandler {
    fn execute(&self, ctx: &ExecutionContext<'_>) -> (r: Result<TagResult, Error>)
        ensures
            del_on_push_outcome(ctx.instruction@, ctx.variables@, r),
    {
        let event_name = to_owned_string("push");
        let key = ctx.instruction.get_opt("key");
        Ok(TagResult::Emit(Event::DelEventHandler { event_name, key }))
    }
}

/// What `[delonautomodein]` gives: removes the handlers of the `automodein` event (only that of `key` when given).
pub open spec fn del_on_automode_in_outcome(ins: InstructionView, vars: StoreView, r: Result<TagResult, Error>) -> bool {
    {
        &&& r matches Ok(TagResult::Emit(Event::DelEventHandler { event_name, key }))
        &&& event_name@ == "automodein"@
        &&& opt_view(key) == param(ins, "key"@)
    }
}

/// `[delonautomodein]`: removes the handlers of the `automodein` event (only that of `key` when given).
pub struct DelOnAutomodeInHandler;

impl TagHandler for DelOnAutomodeInHandler {
    fn execute(&self, ctx: &ExecutionContext<'_>) -> (r: Result<TagResult, Error>)
        ensures
            del_on_automode_in_outcome(ctx.instruction@, ctx.variables@, r),
    {
        let event_name = to_owned_string("automodein");
        let key = ctx.instruction.get_opt("key");
        Ok(TagResult::Emit(Event::DelEventHandler { event_name, key }))
    }
}

/// What `[delonautomodeout]` gives: removes the handlers of the `automodeout` event (only that of `key` when given).
pub open spec fn del_on_automode_out_outcome(ins: InstructionView, vars: StoreView, r: Result<TagResult, Error>) -> bool {
    {
        &&& r matches Ok(TagResult::Emit(Event::DelEventHandler { event_name, key }))
        &&& event_name@ == "automodeout"@
        &&& opt_view(key) == param(ins, "key"@)
    }
}

/// `[delonautomodeout]`: removes the handlers of the `automodeout` event (only that of `key` when given).
pub struct DelOnAutomodeOutHandler;

impl TagHandler for DelOnAutomodeOutHandler {
    fn execute(&self, ctx: &ExecutionContext<'_>) -> (r: Result<TagResult, Error>)
        ensures
            del_on_automode_out_outcome(ctx.instruction@, ctx.variables@, r),
    {
        let event_name = to_owned_string("automodeout");
        let key = ctx.instruction.get_opt("key");
        Ok(TagResult::Emit(Event::DelEventHandler { event_name, key }))
    }
}

/// What `[delonbacklogin]` gives: removes the handlers of the `backlogin` event (only that of `key` when given).
pub open spec fn del_on_backlog_in_outcome(ins: InstructionView, vars: StoreView, r: Result<TagResult, Error>) -> bool {
    {
        &&& r matches Ok(TagResult::Emit(Event::DelEventHandler { event_name, key }))
        &&& event_name@ == "backlogin"@
        &&& opt_view(key) == param(ins, "key"@)
    }
}

/// `[delonbacklogin]`: removes the handlers of the `backlogin` event (only that of `key` when given).
pub struct DelOnBacklogInHandler;

impl TagHandler for DelOnBacklogInHandler {
    fn execute(&self, ctx: &ExecutionContext<'_>) -> (r: Result<TagResult, Error>)
        ensures
            del_on_backlog_in_outcome(ctx.instruction@, ctx.variables@, r),
    {
        let event_name = to_owned_string("backlogin");
        let key = ctx.instruction.get_opt("key");
        Ok(TagResult::Emit(Event::DelEventHandler { event_name, key }))
    }
}

/// What `[delonbacklogout]` gives: removes the handlers of the `backlogout` event (only that of `key` when given).
pub open spec fn del_on_backlog_out_outcome(ins: InstructionView, vars: StoreView, r: Result<TagResult, Error>) -> bool {
    {
        &&& r matches Ok(TagResult::Emit(Event::DelEventHandler { event_name, key }))
        &&& event_name@ == "backlogout"@
        &&& opt_view(key) == param(ins, "key"@)
    }
}

/// `[delonbacklogout]`: removes the handlers of the `backlogout` event (only that of `key` when given).
pub struct DelOnBacklogOutHandler;

impl TagHandler for DelOnBacklogOutHandler {
    fn execute(&self, ctx: &ExecutionContext<'_>) -> (r: Result<TagResult, Error>)
        ensures
            del_on_backlog_out_outcome(ctx.instruction@, ctx.variables@, r),
    {
        let event_name = to_owned_string("backlogout");
        let key = ctx.instruction.get_opt("key");
        Ok(TagResult::Emit(Event::DelEventHandler { event_name, key }))
    }
}

/// What `[deloncommandskipin]` gives: removes the handlers of the `commandskipin` event (only that of `key` when given).
pub open spec fn del_on_command_skip_in_outcome(ins: InstructionView, vars: StoreView, r: Result<TagResult, Error>) -> bool {
    {
        &&& r matches Ok(TagResult::Emit(Event::DelEventHandler { event_name, key }))
        &&& event_name@ == "commandskipin"@
        &&& opt_view(key) == param(ins, "key"@)
    }
}

/// `[deloncommandskipin]`: removes the handlers of the `commandskipin` event (only that of `key` when given).
pub struct DelOnCommandSkipInHandler;

impl TagHandler for DelOnCommandSkipInHandler {
    fn execute(&self, ctx: &ExecutionContext<'_>) -> (r: Result<TagResult, Error>)
        ensures
            del_on_command_skip_in_outcome(ctx.instruction@, ctx.variables@, r),
    {
        let event_name = to_owned_string("commandskipin");
        let key = ctx.instruction.get_opt("key");
        Ok(TagResult::Emit(Event::DelEventHandler { event_name, key }))
    }
}

/// What `[deloncommandskipout]` gives: removes the handlers of the `commandskipout` event (only that of `key` when given).
pub open spec fn del_on_command_skip_out_outcome(ins: InstructionView, vars: StoreView, r: Result<TagResult, Error>) -> bool {
    {
        &&& r matches Ok(TagResult::Emit(Event::DelEventHandler { event_name, key }))
        &&& event_name@ == "commandskipout"@
        &&& opt_view(key) == param(ins, "key"@)
    }
}

/// `[deloncommandskipout]`: removes the handlers of the `commandskipout` event (only that of `key` when given).
pub struct DelOnCommandSkipOutHandler;

impl TagHandler for DelOnCommandSkipOutHandler {
    fn execute(&self, ctx: &ExecutionContext<'_>) -> (r: Result<TagResult, Error>)
        ensures
            del_on_command_skip_out_outcome(ctx.instruction@, ctx.variables@, r),
    {
        let event_name = to_owned_string("commandskipout");
        let key = ctx.instruction.get_opt("key");
        Ok(TagResult::Emit(Event::DelEventHandler { event_name, key }))
    }
}

/// What `[deloncontrolskipin]` gives: removes the handlers of the `controlskipin` event (only that of `key` when given).
pub open spec fn del_on_control_skip_in_outcome(ins: InstructionView, vars: StoreView, r: Result<TagResult, Error>) -> bool {
    {
        &&& r matches Ok(TagResult::Emit(Event::DelEventHandler { event_name, key }))
        &&& event_name@ == "controlskipin"@
        &&& opt_view(key) == param(ins, "key"@)
    }
}

/// `[deloncontrolskipin]`: removes the handlers of the `controlskipin` event (only that of `key` when given).
pub struct DelOnControlSkipInHandler;

impl TagHandler for DelOnControlSkipInHandler {
    fn execute(&self, ctx: &ExecutionContext<'_>) -> (r: Result<TagResult, Error>)
        ensures
            del_on_control_skip_in_outcome(ctx.instruction@, ctx.variables@, r),
    {
        let event_name = to_owned_string("controlskipin");
        let key = ctx.instruction.get_opt("key");
        Ok(TagResult::Emit(Event::DelEventHandler { event_name, key }))
    }
}

/// What `[deloncontrolskipout]` gives: removes the handlers of the `controlskipout` event (only that of `key` when given).
pub open spec fn del_on_control_skip_out_outcome(ins: InstructionView, vars: StoreView, r: Result<TagResult, Error>) -> bool {
    {
        &&& r matches Ok(TagResult::Emit(Event::DelEventHandler { event_name, key }))
        &&& event_name@ == "controlskipout"@
        &&& opt_view(key) == param(ins, "key"@)
    }
}

/// `[deloncontrolskipout]`: removes the handlers of the `controlskipout` event (only that of `key` when given).
pub struct DelOnControlSkipOutHandler;

impl TagHandler for DelOnControlSkipOutHandler {
    fn execute(&self, ctx: &ExecutionContext<'_>) -> (r: Result<TagResult, Error>)
        ensures
            del_on_control_skip_out_outcome(ctx.instruction@, ctx.variables@, r),
    {
        let event_name = to_owned_string("controlskipout");
        let key = ctx.instruction.get_opt("key");
        Ok(TagResult::Emit(Event::DelEventHandler { event_name, key }))
    }
}

/// What `[delondirchg]` gives: removes the handlers of the `dirchg` event (only that of `key` when given).
pub open spec fn del_on_dirchg_outcome(ins: InstructionView, vars: StoreView, r: Result<TagResult, Error>) -> bool {
    {
        &&& r matches Ok(TagResult::Emit(Event::DelEventHandler { event_name, key }))
        &&& event_name@ == "dirchg"@
        &&& opt_view(key) == param(ins, "key"@)
    }
}

/// `[delondirchg]`: removes the handlers of the `dirchg` event (only that of `key` when given).
pub struct DelOnDirchgHandler;

impl TagHandler for DelOnDirchgHandler {
    fn execute(&self, ctx: &ExecutionContext<'_>) -> (r: Result<TagResult, Error>)
        ensures
            del_on_dirchg_outcome(ctx.instruction@, ctx.variables@, r),
    {
        let event_name = to_owned_string("dirchg");
        let key = ctx.instruction.get_opt("key");
        Ok(TagResult::Emit(Event::DelEventHandler { event_name, key }))
    }
}

/// What `[delonhidein]` gives: removes the handlers of the `hidein` event (only that of `key` when given).
pub open spec fn del_on_hide_in_outcome(ins: InstructionView, vars: StoreView, r: Result<TagResult, Error>) -> bool {
    {
        &&& r matches Ok(TagResult::Emit(Event::DelEventHandler { event_name, key }))
        &&& event_name@ == "hidein"@
        &&& opt_view(key) == param(ins, "key"@)
    }
}

/// `[delonhidein]`: removes the handlers of the `hidein` event (only that of `key` when given).
pub struct DelOnHideInHandler;

impl TagHandler for DelOnHideInHandler {
    fn execute(&self, ctx: &ExecutionContext<'_>) -> (r: Result<TagResult, Error>)
        ensures
            del_on_hide_in_outcome(ctx.instruction@, ctx.variables@, r),
    {
        let event_name = to_owned_string("hidein");
        let key = ctx.instruction.get_opt("key");
        Ok(TagResult::Emit(Event::DelEventHandler { event_name, key }))
    }
}

/// What `[delonhideout]` gives: removes the handlers of the `hideout` event (only that of `key` when given).
pub open spec fn del_on_hide_out_outcome(ins: InstructionView, vars: StoreView, r: Result<TagResult, Error>) -> bool {
    {
        &&& r matches Ok(TagResult::Emit(Event::DelEventHandler { event_name, key }))
        &&& event_name@ == "hideout"@
        &&& opt_view(key) == param(ins, "key"@)
    }
}

/// `[delonhideout]`: removes the handlers of the `hideout` event (only that of `key` when given).
pub struct DelOnHideOutHandler;

impl TagHandler for DelOnHideOutHandler {
    fn execute(&self, ctx: &ExecutionContext<'_>) -> (r: Result<TagResult, Error>)
        ensures
            del_on_hide_out_outcome(ctx.instruction@, ctx.variables@, r),
    {
        let event_name = to_owned_string("hideout");
        let key = ctx.instruction.get_opt("key");
        Ok(TagResult::Emit(Event::DelEventHandler { event_name, key }))
    }
}

/// What `[delonwindowbutton]` gives: removes the handlers of the `windowbutton` event (only that of `key` when given).
pub open spec fn del_on_window_button_outcome(ins: InstructionView, vars: StoreView, r: Result<TagResult, Error>) -> bool {
    {
        &&& r matches Ok(TagResult::Emit(Event::DelEventHandler { event_name, key }))
        &&& event_name@ == "windowbutton"@
        &&& opt_view(key) == param(ins, "key"@)
    }
}

/// `[delonwindowbutton]`: removes the handlers of the `windowbutton` event (only that of `key` when given).
pub struct DelOnWindowButtonHandler;

impl TagHandler for DelOnWindowButtonHandler {
    fn execute(&self, ctx: &ExecutionContext<'_>) -> (r: Result<TagResult, Error>)
        ensures
            del_on_window_button_outcome(ctx.instruction@, ctx.variables@, r),
    {
        let event_name = to_owned_string("windowbutton");
        let key = ctx.instruction.get_opt("key");
        Ok(TagResult::Emit(Event::DelEventHandler { event_name, key }))
    }
}

/// Whether `tag` names a handler of this module.
pub open spec fn is_event_handler_tag(tag: Seq<char>) -> bool {
    tag == "setonpush"@
    || tag == "setonautomodein"@
    || tag == "setonautomodeout"@
    || tag == "setonbacklogin"@
    || tag == "setonbacklogout"@
    || tag == "setoncommandskipin"@
    || tag == "setoncommandskipout"@
    || tag == "setoncontrolskipin"@
    || tag == "setoncontrolskipout"@
    || tag == "setondirchg"@
    || tag == "setonhidein"@
    || tag == "setonhideout"@
    || tag == "setonwindowbutton"@
    || tag == "delonpush"@
    || tag == "delonautomodein"@
    || tag == "delonautomodeout"@
    || tag == "delonbacklogin"@
    || tag == "delonbacklogout"@
    || tag == "deloncommandskipin"@
    || tag == "deloncommandskipout"@
    || tag == "deloncontrolskipin"@
    || tag == "deloncontrolskipout"@
    || tag == "delondirchg"@
    || tag == "delonhidein"@
    || tag == "delonhideout"@
    || tag == "delonwindowbutton"@
}

/// What the handler of this module named `tag` gives.
pub open spec fn event_handler_outcome(tag: Seq<char>, ins: InstructionView, vars: StoreView, r: Result<TagResult, Error>) -> bool {
    if tag == "setonpush"@ {
        set_on_push_outcome(ins, vars, r)
    } else if tag == "setonautomodein"@ {
        set_on_automode_in_outcome(ins, vars, r)
    } else if tag == "setonautomodeout"@ {
        set_on_automode_out_outcome(ins, vars, r)
    } else if tag == "setonbacklogin"@ {
        set_on_backlog_in_outcome(ins, vars, r)
    } else if tag == "setonbacklogout"@ {
        set_on_backlog_out_outcome(ins, vars, r)
    } else if tag == "setoncommandskipin"@ {
        set_on_command_skip_in_outcome(ins, vars, r)
    } else if tag == "setoncommandskipout"@ {
        set_on_command_skip_out_outcome(ins, vars, r)
    } else if tag == "setoncontrolskipin"@ {
        set_on_control_skip_in_outcome(ins, vars, r)
    } else if tag == "setoncontrolskipout"@ {
        set_on_control_skip_out_outcome(ins, vars, r)
    } else if tag == "setondirchg"@ {
        set_on_dirchg_outcome(ins, vars, r)
    } else if tag == "setonhidein"@ {
        set_on_hide_in_outcome(ins, vars, r)
    } else if tag == "setonhideout"@ {
        set_on_hide_out_outcome(ins, vars, r)
    } else if tag == "setonwindowbutton"@ {
        set_on_window_button_outcome(ins, vars, r)
    } else if tag == "delonpush"@ {
        del_on_push_outcome(ins, vars, r)
    } else if tag == "delonautomodein"@ {
        del_on_automode_in_outcome(ins, vars, r)
    } else if tag == "delonautomodeout"@ {
        del_on_automode_out_outcome(ins, vars, r)
    } else if tag == "delonbacklogin"@ {
        del_on_backlog_in_outcome(ins, vars, r)
    } else if tag == "delonbacklogout"@ {
        del_on_backlog_out_outcome(ins, vars, r)
    } else if tag == "deloncommandskipin"@ {
        del_on_command_skip_in_outcome(ins, vars, r)
    } else if tag == "deloncommandskipout"@ {
        del_on_command_skip_out_outcome(ins, vars, r)
    } else if tag == "deloncontrolskipin"@ {
        del_on_control_skip_in_outcome(ins, vars, r)
    } else if tag == "deloncontrolskipout"@ {
        del_on_control_skip_out_outcome(ins, vars, r)
    } else if tag == "delondirchg"@ {
        del_on_dirchg_outcome(ins, vars, r)
    } else if tag == "delonhidein"@ {
        del_on_hide_in_outcome(ins, vars, r)
    } else if tag == "delonhideout"@ {
        del_on_hide_out_outcome(ins, vars, r)
    } else if tag == "delonwindowbutton"@ {
        del_on_window_button_outcome(ins, vars, r)
    } else {
        false
    }
}

/// Runs the handler of this module named `tag`; `None` when the module
/// has none by that name.
pub fn dispatch(tag: &str, ctx: &ExecutionContext<'_>) -> (r: Option<Result<TagResult, Error>>)
    ensures
        match r {
            Some(x) => event_handler_outcome(tag@, ctx.instruction@, ctx.variables@, x),
            None => !is_event_handler_tag(tag@),
        },
{
    if str_eq(tag, "setonpush") {
        Some(SetOnPushHandler.execute(ctx))
    } else if str_eq(tag, "setonautomodein") {
        Some(SetOnAutomodeInHandler.execute(ctx))
    } else if str_eq(tag, "setonautomodeout") {
        Some(SetOnAutomodeOutHandler.execute(ctx))
    } else if str_eq(tag, "setonbacklogin") {
        Some(SetOnBacklogInHandler.execute(ctx))
    } else if str_eq(tag, "setonbacklogout") {
        Some(SetOnBacklogOutHandler.execute(ctx))
    } else if str_eq(tag, "setoncommandskipin") {
        Some(SetOnCommandSkipInHandler.execute(ctx))
    } else if str_eq(tag, "setoncommandskipout") {
        Some(SetOnCommandSkipOutHandler.execute(ctx))
    } else if str_eq(tag, "setoncontrolskipin") {
        Some(SetOnControlSkipInHandler.execute(ctx))
    } else if str_eq(tag, "setoncontrolskipout") {
        Some(SetOnControlSkipOutHandler.execute(ctx))
    } else if str_eq(tag, "setondirchg") {
        Some(SetOnDirchgHandler.execute(ctx))
    } else if str_eq(tag, "setonhidein") {
        Some(SetOnHideInHandler.execute(ctx))
    } else if str_eq(tag, "setonhideout") {
        Some(SetOnHideOutHandler.execute(ctx))
    } else if str_eq(tag, "setonwindowbutton") {
        Some(SetOnWindowButtonHandler.execute(ctx))
    } else if str_eq(tag, "delonpush") {
        Some(DelOnPushHandler.execute(ctx))
    } else if str_eq(tag, "delonautomodein") {
        Some(DelOnAutomodeInHandler.execute(ctx))
    } else if str_eq(tag, "delonautomodeout") {
        Some(DelOnAutomodeOutHandler.execute(ctx))
    } else if str_eq(tag, "delonbacklogin") {
        Some(DelOnBacklogInHandler.execute(ctx))
    } else if str_eq(tag, "delonbacklogout") {
        Some(DelOnBacklogOutHandler.execute(ctx))
    } else if str_eq(tag, "deloncommandskipin") {
        Some(DelOnCommandSkipInHandler.execute(ctx))
    } else if str_eq(tag, "deloncommandskipout") {
        Some(DelOnCommandSkipOutHandler.execute(ctx))
    } else if str_eq(tag, "deloncontrolskipin") {
        Some(DelOnControlSkipInHandler.execute(ctx))
    } else if str_eq(tag, "deloncontrolskipout") {
        Some(DelOnControlSkipOutHandler.execute(ctx))
    } else if str_eq(tag, "delondirchg") {
        Some(DelOnDirchgHandler.execute(ctx))
    } else if str_eq(tag, "delonhidein") {
        Some(DelOnHideInHandler.execute(ctx))
    } else if str_eq(tag, "delonhideout") {
        Some(DelOnHideOutHandler.execute(ctx))
    } else if str_eq(tag, "delonwindowbutton") {
        Some(DelOnWindowButtonHandler.execute(ctx))
    } else {
        None
    }
}

} // verus!
