//! Flow tags that need no search: returning, waiting, stopping and exiting.
use crate::error::Error;
use crate::event::{Event, WaitReason, SaveAction};
use crate::strings::string_views;
use crate::tags::{ExecutionContext, TagHandler, TagResult, param, param_text, opt_view, param_i32, param_u64, param_usize, param_values, or_i32, or_u64};
use crate::text::str_eq;
use crate::variable::StoreView;
use crate::script::InstructionView;
use vstd::prelude::*;

verus! {

/// What `[return]` gives: returns from the innermost call.
pub open spec fn return_outcome(ins: InstructionView, vars: StoreView, r: Result<TagResult, Error>) -> bool {
    r matches Ok(TagResult::Return)
}

/// `[return]`: returns from the innermost call.
pub struct ReturnHandler;

impl TagHandler for ReturnHandler {
    fn execute(&self, ctx: &ExecutionContext<'_>) -> (r: Result<TagResult, Error>)
        ensures
            return_outcome(ctx.instruction@, ctx.variables@, r),
    {
        Ok(TagResult::Return)
    }
}

/// What `[stop]` gives: stops and waits for the host.
pub open spec fn stop_outcome(ins: InstructionView, vars: StoreView, r: Result<TagResult, Error>) -> bool {
    {
        &&& r matches Ok(TagResult::Wait(Event::Wait { reason: WaitReason::Stop { reason } }))
        &&& opt_view(reason) == param(ins, "reason"@)
    }
}

/// `[stop]`: stops and waits for the host.
pub struct StopHandler;

impl TagHandler for StopHandler {
    fn execute(&self, ctx: &ExecutionContext<'_>) -> (r: Result<TagResult, Error>)
        ensures
            stop_outcome(ctx.instruction@, ctx.variables@, r),
    {
        let reason = ctx.instruction.get_opt("reason");
        Ok(TagResult::Wait(Event::Wait { reason: WaitReason::Stop { reason } }))
    }
}

/// What `[wt]` gives: waits for a click.
pub open spec fn wt_outcome(ins: InstructionView, vars: StoreView, r: Result<TagResult, Error>) -> bool {
    r matches Ok(TagResult::Wait(Event::Wait { reason: WaitReason::Generic }))
}

/// `[wt]`: waits for a click.
pub struct WtHandler;

impl TagHandler for WtHandler {
    fn execute(&self, ctx: &ExecutionContext<'_>) -> (r: Result<TagResult, Error>)
        ensures
            wt_outcome(ctx.instruction@, ctx.variables@, r),
    {
        Ok(TagResult::Wait(Event::Wait { reason: WaitReason::Generic }))
    }
}

/// What `[wt0]` gives: waits for a click, without the click-wait glyph.
pub open spec fn wt0_outcome(ins: InstructionView, vars: StoreView, r: Result<TagResult, Error>) -> bool {
    r matches Ok(TagResult::Wait(Event::Wait { reason: WaitReason::Generic0 }))
}

/// `[wt0]`: waits for a click, without the click-wait glyph.
pub struct Wt0Handler;

impl TagHandler for Wt0Handler {
    fn execute(&self, ctx: &ExecutionContext<'_>) -> (r: Result<TagResult, Error>)
        ensures
            wt0_outcome(ctx.instruction@, ctx.variables@, r),
    {
        Ok(TagResult::Wait(Event::Wait { reason: WaitReason::Generic0 }))
    }
}

/// What `[wait]` gives: waits `time` ms; `input` says how input is treated (0 ignored, 1 ends the wait, 2 keeps skipping; 1 when absent).
pub open spec fn wait_outcome(ins: InstructionView, vars: StoreView, r: Result<TagResult, Error>) -> bool {
    {
        &&& r matches Ok(TagResult::Wait(Event::Wait { reason: WaitReason::Timed { milliseconds, input } }))
        &&& milliseconds == or_u64(param_u64(ins, "time"@), 0)
        &&& input == or_i32(param_i32(ins, "input"@), 1)
    }
}

/// `[wait]`: waits `time` ms; `input` says how input is treated (0 ignored, 1 ends the wait, 2 keeps skipping; 1 when absent).
pub struct WaitHandler;

impl TagHandler for WaitHandler {
    fn execute(&self, ctx: &ExecutionContext<'_>) -> (r: Result<TagResult, Error>)
        ensures
            wait_outcome(ctx.instruction@, ctx.variables@, r),
    {
        let milliseconds = ctx.instruction.get_u64_or("time", 0);
        let input = ctx.instruction.get_i32_or("input", 1);
        Ok(TagResult::Wait(Event::Wait { reason: WaitReason::Timed { milliseconds, input } }))
    }
}

/// What `[exit]` gives: asks the host to exit.
pub open spec fn exit_outcome(ins: InstructionView, vars: StoreView, r: Result<TagResult, Error>) -> bool {
    r matches Ok(TagResult::Emit(Event::Exit))
}

/// `[exit]`: asks the host to exit.
pub struct ExitHandler;

impl TagHandler for ExitHandler {
    fn execute(&self, ctx: &ExecutionContext<'_>) -> (r: Result<TagResult, Error>)
        ensures
            exit_outcome(ctx.instruction@, ctx.variables@, r),
    {
        Ok(TagResult::Emit(Event::Exit))
    }
}

/// What `[exkey]` gives: waits for one of the keys given as the parameter values, in order.
pub open spec fn exkey_outcome(ins: InstructionView, vars: StoreView, r: Result<TagResult, Error>) -> bool {
    {
        &&& r matches Ok(TagResult::Wait(Event::Wait { reason: WaitReason::KeyWait { buttons } }))
        &&& string_views(buttons@) == param_values(ins.params)
    }
}

/// `[exkey]`: waits for one of the keys given as the parameter values, in order.
pub struct ExkeyHandler;

impl TagHandler for ExkeyHandler {
    fn execute(&self, ctx: &ExecutionContext<'_>) -> (r: Result<TagResult, Error>)
        ensures
            exkey_outcome(ctx.instruction@, ctx.variables@, r),
    {
        let buttons = ctx.instruction.values();
        Ok(TagResult::Wait(Event::Wait { reason: WaitReason::KeyWait { buttons } }))
    }
}

/// What `[dialog]` gives: shows a dialog and waits; `varname` receives the answer.
pub open spec fn dialog_outcome(ins: InstructionView, vars: StoreView, r: Result<TagResult, Error>) -> bool {
    {
        &&& r matches Ok(TagResult::Wait(Event::ShowDialog { title, message, varname, textfield, textfield_size }))
        &&& title@ == param_text(ins, "title"@)
        &&& message@ == param_text(ins, "message"@)
        &&& opt_view(varname) == param(ins, "varname"@)
        &&& opt_view(textfield) == param(ins, "textfield"@)
        &&& textfield_size == param_usize(ins, "textfield_size"@)
    }
}

/// `[dialog]`: shows a dialog and waits; `varname` receives the answer.
pub struct DialogHandler;

impl TagHandler for DialogHandler {
    fn execute(&self, ctx: &ExecutionContext<'_>) -> (r: Result<TagResult, Error>)
        ensures
            dialog_outcome(ctx.instruction@, ctx.variables@, r),
    {
        let title = ctx.instruction.get_string("title");
        let message = ctx.instruction.get_string("message");
        let varname = ctx.instruction.get_opt("varname");
        let textfield = ctx.instruction.get_opt("textfield");
        let textfield_size = ctx.instruction.get_usize("textfield_size");
        Ok(TagResult::Wait(Event::ShowDialog { title, message, varname, textfield, textfield_size }))
    }
}

/// What `[yesno]` gives: asks a yes/no question with the dialog of `file`, and waits.
pub open spec fn yesno_outcome(ins: InstructionView, vars: StoreView, r: Result<TagResult, Error>) -> bool {
    {
        &&& r matches Ok(TagResult::Wait(Event::YesNo { file, se }))
        &&& file@ == param_text(ins, "file"@)
        &&& opt_view(se) == param(ins, "se"@)
    }
}

/// `[yesno]`: asks a yes/no question with the dialog of `file`, and waits.
pub struct YesnoHandler;

impl TagHandler for YesnoHandler {
    fn execute(&self, ctx: &ExecutionContext<'_>) -> (r: Result<TagResult, Error>)
        ensures
            yesno_outcome(ctx.instruction@, ctx.variables@, r),
    {
        let file = ctx.instruction.get_string("file");
        let se = ctx.instruction.get_opt("se");
        Ok(TagResult::Wait(Event::YesNo { file, se }))
    }
}

/// What `[syssave]` gives: saves the system data.
pub open spec fn syssave_outcome(ins: InstructionView, vars: StoreView, r: Result<TagResult, Error>) -> bool {
    r matches Ok(TagResult::Emit(Event::SaveOperation { action: SaveAction::SystemSave }))
}

/// `[syssave]`: saves the system data.
pub struct SyssaveHandler;

impl TagHandler for SyssaveHandler {
    fn execute(&self, ctx: &ExecutionContext<'_>) -> (r: Result<TagResult, Error>)
        ensures
            syssave_outcome(ctx.instruction@, ctx.variables@, r),
    {
        Ok(TagResult::Emit(Event::SaveOperation { action: SaveAction::SystemSave }))
    }
}

/// What `[sysload]` gives: loads the system data.
pub open spec fn sysload_outcome(ins: InstructionView, vars: StoreView, r: Result<TagResult, Error>) -> bool {
    r matches Ok(TagResult::Emit(Event::SaveOperation { action: SaveAction::SystemLoad }))
}

/// `[sysload]`: loads the system data.
pub struct SysloadHandler;

impl TagHandler for SysloadHandler {
    fn execute(&self, ctx: &ExecutionContext<'_>) -> (r: Result<TagResult, Error>)
        ensures
            sysload_outcome(ctx.instruction@, ctx.variables@, r),
    {
        Ok(TagResult::Emit(Event::SaveOperation { action: SaveAction::SystemLoad }))
    }
}

/// Whether `tag` names a handler of this module.
pub open spec fn is_control_tag(tag: Seq<char>) -> bool {
    tag == "return"@
    || tag == "stop"@
    || tag == "wt"@
    || tag == "wt0"@
    || tag == "wait"@
    || tag == "exit"@
    || tag == "exkey"@
    || tag == "dialog"@
    || tag == "yesno"@
    || tag == "syssave"@
    || tag == "sysload"@
}

/// What the handler of this module named `tag` gives.
pub open spec fn control_outcome(tag: Seq<char>, ins: InstructionView, vars: StoreView, r: Result<TagResult, Error>) -> bool {
    if tag == "return"@ {
        return_outcome(ins, vars, r)
    } else if tag == "stop"@ {
        stop_outcome(ins, vars, r)
    } else if tag == "wt"@ {
        wt_outcome(ins, vars, r)
    } else if tag == "wt0"@ {
        wt0_outcome(ins, vars, r)
    } else if tag == "wait"@ {
        wait_outcome(ins, vars, r)
    } else if tag == "exit"@ {
        exit_outcome(ins, vars, r)
    } else if tag == "exkey"@ {
        exkey_outcome(ins, vars, r)
    } else if tag == "dialog"@ {
        dialog_outcome(ins, vars, r)
    } else if tag == "yesno"@ {
        yesno_outcome(ins, vars, r)
    } else if tag == "syssave"@ {
        syssave_outcome(ins, vars, r)
    } else if tag == "sysload"@ {
        sysload_outcome(ins, vars, r)
    } else {
        false
    }
}

/// Runs the handler of this module named `tag`; `None` when the module
/// has none by that name.
pub fn dispatch(tag: &str, ctx: &ExecutionContext<'_>) -> (r: Option<Result<TagResult, Error>>)
    ensures
        match r {
            Some(x) => control_outcome(tag@, ctx.instruction@, ctx.variables@, x),
            None => !is_control_tag(tag@),
        },
{
    if str_eq(tag, "return") {
        Some(ReturnHandler.execute(ctx))
    } else if str_eq(tag, "stop") {
        Some(StopHandler.execute(ctx))
    } else if str_eq(tag, "wt") {
        Some(WtHandler.execute(ctx))
    } else if str_eq(tag, "wt0") {
        Some(Wt0Handler.execute(ctx))
    } else if str_eq(tag, "wait") {
        Some(WaitHandler.execute(ctx))
    } else if str_eq(tag, "exit") {
        Some(ExitHandler.execute(ctx))
    } else if str_eq(tag, "exkey") {
        Some(ExkeyHandler.execute(ctx))
    } else if str_eq(tag, "dialog") {
        Some(DialogHandler.execute(ctx))
    } else if str_eq(tag, "yesno") {
        Some(YesnoHandler.execute(ctx))
    } else if str_eq(tag, "syssave") {
        Some(SyssaveHandler.execute(ctx))
    } else if str_eq(tag, "sysload") {
        Some(SysloadHandler.execute(ctx))
    } else {
        None
    }
}

// ---------------------------------------------------------------------
// Laws
// ---------------------------------------------------------------------

/// A `[wait]` without `time` waits 0 ms, and without `input` lets input
/// end the wait (mode 1).
pub proof fn law_wait_defaults(ins: InstructionView, vars: StoreView, r: Result<TagResult, Error>)
    requires
        wait_outcome(ins, vars, r),
    ensures
        crate::strmap::lookup(ins.params, "time"@) is None ==> (r matches Ok(TagResult::Wait(Event::Wait { reason: WaitReason::Timed { milliseconds, .. } })) && milliseconds == 0),
        crate::strmap::lookup(ins.params, "input"@) is None ==> (r matches Ok(TagResult::Wait(Event::Wait { reason: WaitReason::Timed { input, .. } })) && input == 1),
{
}

} // verus!
