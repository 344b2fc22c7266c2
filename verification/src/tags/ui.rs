//! UI tags: transitions, indicators, system UI and layer creation.
use crate::error::Error;
use crate::event::{Event, LayerEvent, LoadMaskAction, SystemUiAction, TransitionEvent};
use crate::tags::{ExecutionContext, TagHandler, TagResult, param, param_text, opt_view, param_u64, param_u8, or_u64, resolve_params};
use crate::text::str_eq;
use crate::variable::{StoreView, value_text};
use crate::expression::resolve_spec;
use crate::script::InstructionView;
use vstd::prelude::*;

verus! {

/// What `[uitrans]` gives: a UI transition over `time` ms (or the unnamed parameter; 500 when neither reads as a number), then a wait.
pub open spec fn ui_trans_outcome(ins: InstructionView, vars: StoreView, r: Result<TagResult, Error>) -> bool {
    {
        &&& r matches Ok(TagResult::Wait(Event::UiTransition(TransitionEvent { time, fade })))
        &&& opt_view(fade) == param(ins, "fade"@)
        &&& time == or_u64(if param(ins, "time"@) is Some { param_u64(ins, "time"@) } else { param_u64(ins, "0"@) }, 500)
    }
}

/// `[uitrans]`: a UI transition over `time` ms (or the unnamed parameter; 500 when neither reads as a number), then a wait.
pub struct UiTransHandler;

impl TagHandler for UiTransHandler {
    fn execute(&self, ctx: &ExecutionContext<'_>) -> (r: Result<TagResult, Error>)
        ensures
            ui_trans_outcome(ctx.instruction@, ctx.variables@, r),
    {
        let fade = ctx.instruction.get_opt("fade");
        let time = match ctx.instruction.get("time") {
            Some(_) => ctx.instruction.get_u64_or("time", 500),
            None => ctx.instruction.get_u64_or("0", 500),
        };
        Ok(TagResult::Wait(Event::UiTransition(TransitionEvent { time, fade })))
    }
}

/// What `[loading]` gives: the loading indicator, on when the unnamed parameter is `on`.
pub open spec fn loading_outcome(ins: InstructionView, vars: StoreView, r: Result<TagResult, Error>) -> bool {
    {
        &&& r matches Ok(TagResult::Emit(Event::LoadingState { active }))
        &&& active == (param(ins, "0"@) == Some("on"@))
    }
}

/// `[loading]`: the loading indicator, on when the unnamed parameter is `on`.
pub struct LoadingHandler;

impl TagHandler for LoadingHandler {
    fn execute(&self, ctx: &ExecutionContext<'_>) -> (r: Result<TagResult, Error>)
        ensures
            loading_outcome(ctx.instruction@, ctx.variables@, r),
    {
        let active = match ctx.instruction.get("0") {
            Some(v) => str_eq(v, "on"),
            None => false,
        };
        Ok(TagResult::Emit(Event::LoadingState { active }))
    }
}

/// What `[saving]` gives: the saving indicator, on when the unnamed parameter is `on`.
pub open spec fn saving_outcome(ins: InstructionView, vars: StoreView, r: Result<TagResult, Error>) -> bool {
    {
        &&& r matches Ok(TagResult::Emit(Event::SavingState { active }))
        &&& active == (param(ins, "0"@) == Some("on"@))
    }
}

/// `[saving]`: the saving indicator, on when the unnamed parameter is `on`.
pub struct SavingHandler;

impl TagHandler for SavingHandler {
    fn execute(&self, ctx: &ExecutionContext<'_>) -> (r: Result<TagResult, Error>)
        ensures
            saving_outcome(ctx.instruction@, ctx.variables@, r),
    {
        let active = match ctx.instruction.get("0") {
            Some(v) => str_eq(v, "on"),
            None => false,
        };
        Ok(TagResult::Emit(Event::SavingState { active }))
    }
}

/// What `[sysshow]` gives: shows the system UI.
pub open spec fn sys_show_outcome(ins: InstructionView, vars: StoreView, r: Result<TagResult, Error>) -> bool {
    r matches Ok(TagResult::Emit(Event::SystemUi { action: SystemUiAction::Show }))
}

/// `[sysshow]`: shows the system UI.
pub struct SysShowHandler;

impl TagHandler for SysShowHandler {
    fn execute(&self, ctx: &ExecutionContext<'_>) -> (r: Result<TagResult, Error>)
        ensures
            sys_show_outcome(ctx.instruction@, ctx.variables@, r),
    {
        Ok(TagResult::Emit(Event::SystemUi { action: SystemUiAction::Show }))
    }
}

/// What `[syshide]` gives: hides the system UI.
pub open spec fn sys_hide_outcome(ins: InstructionView, vars: StoreView, r: Result<TagResult, Error>) -> bool {
    {
        &&& r matches Ok(TagResult::Emit(Event::SystemUi { action: SystemUiAction::Hide { skip } }))
        &&& opt_view(skip) == param(ins, "skip"@)
    }
}

/// `[syshide]`: hides the system UI.
pub struct SysHideHandler;

impl TagHandler for SysHideHandler {
    fn execute(&self, ctx: &ExecutionContext<'_>) -> (r: Result<TagResult, Error>)
        ensures
            sys_hide_outcome(ctx.instruction@, ctx.variables@, r),
    {
        let skip = ctx.instruction.get_opt("skip");
        Ok(TagResult::Emit(Event::SystemUi { action: SystemUiAction::Hide { skip } }))
    }
}

/// What `[lyc]` gives: creates layer `id` from `file`, both resolved.
pub open spec fn lyc_outcome(ins: InstructionView, vars: StoreView, r: Result<TagResult, Error>) -> bool {
    match resolve_spec(vars, param_text(ins, "id"@)) {
        Err(msg) => r matches Err(Error::ExpressionError(e)) && e@ == msg,
        Ok(v0) => match resolve_spec(vars, param_text(ins, "file"@)) {
            Err(msg) => r matches Err(Error::ExpressionError(e)) && e@ == msg,
            Ok(v1) => {
                &&& r matches Ok(TagResult::Emit(Event::Layer(LayerEvent::Create { id, file })))
                &&& id@ == value_text(v0)
                &&& file@ == value_text(v1)
            },
        },
    }
}

/// `[lyc]`: creates layer `id` from `file`, both resolved.
pub struct LycHandler;

impl TagHandler for LycHandler {
    fn execute(&self, ctx: &ExecutionContext<'_>) -> (r: Result<TagResult, Error>)
        ensures
            lyc_outcome(ctx.instruction@, ctx.variables@, r),
    {
        let id = match ctx.resolve_param_str("id") {
            Ok(s) => s,
            Err(e) => return Err(e),
        };
        let file = match ctx.resolve_param_str("file") {
            Ok(s) => s,
            Err(e) => return Err(e),
        };
        Ok(TagResult::Emit(Event::Layer(LayerEvent::Create { id, file })))
    }
}

/// What `[lyc2]` gives: creates layer `id` from `file`, with an optional alpha.
pub open spec fn lyc2_outcome(ins: InstructionView, vars: StoreView, r: Result<TagResult, Error>) -> bool {
    match resolve_spec(vars, param_text(ins, "id"@)) {
        Err(msg) => r matches Err(Error::ExpressionError(e)) && e@ == msg,
        Ok(v0) => match resolve_spec(vars, param_text(ins, "file"@)) {
            Err(msg) => r matches Err(Error::ExpressionError(e)) && e@ == msg,
            Ok(v1) => {
                &&& r matches Ok(TagResult::Emit(Event::Layer(LayerEvent::Create2 { id, file, alpha })))
                &&& id@ == value_text(v0)
                &&& file@ == value_text(v1)
                &&& alpha == param_u8(ins, "alpha"@)
            },
        },
    }
}

/// `[lyc2]`: creates layer `id` from `file`, with an optional alpha.
pub struct Lyc2Handler;

impl TagHandler for Lyc2Handler {
    fn execute(&self, ctx: &ExecutionContext<'_>) -> (r: Result<TagResult, Error>)
        ensures
            lyc2_outcome(ctx.instruction@, ctx.variables@, r),
    {
        let id = match ctx.resolve_param_str("id") {
            Ok(s) => s,
            Err(e) => return Err(e),
        };
        let file = match ctx.resolve_param_str("file") {
            Ok(s) => s,
            Err(e) => return Err(e),
        };
        let alpha = ctx.instruction.get_u8("alpha");
        Ok(TagResult::Emit(Event::Layer(LayerEvent::Create2 { id, file, alpha })))
    }
}

/// What `[lydel]` gives: deletes layer `id`.
pub open spec fn lydel_outcome(ins: InstructionView, vars: StoreView, r: Result<TagResult, Error>) -> bool {
    match resolve_spec(vars, param_text(ins, "id"@)) {
        Err(msg) => r matches Err(Error::ExpressionError(e)) && e@ == msg,
        Ok(v0) => {
            &&& r matches Ok(TagResult::Emit(Event::Layer(LayerEvent::Delete { id })))
            &&& id@ == value_text(v0)
        },
    }
}

/// `[lydel]`: deletes layer `id`.
pub struct LydelHandler;

impl TagHandler for LydelHandler {
    fn execute(&self, ctx: &ExecutionContext<'_>) -> (r: Result<TagResult, Error>)
        ensures
            lydel_outcome(ctx.instruction@, ctx.variables@, r),
    {
        let id = match ctx.resolve_param_str("id") {
            Ok(s) => s,
            Err(e) => return Err(e),
        };
        Ok(TagResult::Emit(Event::Layer(LayerEvent::Delete { id })))
    }
}

/// What `[lyprop]` gives: sets the properties of layer `id`: every other parameter, resolved.
pub open spec fn lyprop_outcome(ins: InstructionView, vars: StoreView, r: Result<TagResult, Error>) -> bool {
    match resolve_spec(vars, param_text(ins, "id"@)) {
        Err(msg) => r matches Err(Error::ExpressionError(e)) && e@ == msg,
        Ok(v0) => match resolve_params(vars, ins.params, seq!["id"@]) {
            Err(msg) => r matches Err(Error::ExpressionError(e)) && e@ == msg,
            Ok(p1) => {
                &&& r matches Ok(TagResult::Emit(Event::Layer(LayerEvent::SetProperties { id, properties })))
                &&& id@ == value_text(v0)
                &&& properties@ == p1
            },
        },
    }
}

/// `[lyprop]`: sets the properties of layer `id`: every other parameter, resolved.
pub struct LypropHandler;

impl TagHandler for LypropHandler {
    fn execute(&self, ctx: &ExecutionContext<'_>) -> (r: Result<TagResult, Error>)
        ensures
            lyprop_outcome(ctx.instruction@, ctx.variables@, r),
    {
        let id = match ctx.resolve_param_str("id") {
            Ok(s) => s,
            Err(e) => return Err(e),
        };
        let resolve_keys: Vec<&str> = vec!["id"];
        assert(resolve_keys@.map_values(|k: &str| k@) =~= seq!["id"@]);
        let properties = match ctx.resolve_params_except(resolve_keys.as_slice()) {
            Ok(m) => m,
            Err(e) => return Err(e),
        };
        Ok(TagResult::Emit(Event::Layer(LayerEvent::SetProperties { id, properties })))
    }
}

/// What `[loadmask]` gives: shows the loading mask, or deletes it when the unnamed parameter is `del`.
pub open spec fn load_mask_outcome(ins: InstructionView, vars: StoreView, r: Result<TagResult, Error>) -> bool {
    {
        &&& r matches Ok(TagResult::Emit(Event::LoadMask { action, time }))
        &&& time == or_u64(param_u64(ins, "time"@), 0)
        &&& action == (if param(ins, "0"@) == Some("del"@) { LoadMaskAction::Delete } else { LoadMaskAction::Show })
    }
}

/// `[loadmask]`: shows the loading mask, or deletes it when the unnamed parameter is `del`.
pub struct LoadMaskHandler;

impl TagHandler for LoadMaskHandler {
    fn execute(&self, ctx: &ExecutionContext<'_>) -> (r: Result<TagResult, Error>)
        ensures
            load_mask_outcome(ctx.instruction@, ctx.variables@, r),
    {
        let time = ctx.instruction.get_u64_or("time", 0);
        let action = match ctx.instruction.get("0") {
            Some(v) => if str_eq(v, "del") {
                LoadMaskAction::Delete
            } else {
                LoadMaskAction::Show
            },
            None => LoadMaskAction::Show,
        };
        Ok(TagResult::Emit(Event::LoadMask { action, time }))
    }
}

/// What `[alldelete]` gives: deletes everything over `time` ms.
pub open spec fn all_delete_outcome(ins: InstructionView, vars: StoreView, r: Result<TagResult, Error>) -> bool {
    {
        &&& r matches Ok(TagResult::Emit(Event::AllDelete { time }))
        &&& time == or_u64(param_u64(ins, "time"@), 0)
    }
}

/// `[alldelete]`: deletes everything over `time` ms.
pub struct AllDeleteHandler;

impl TagHandler for AllDeleteHandler {
    fn execute(&self, ctx: &ExecutionContext<'_>) -> (r: Result<TagResult, Error>)
        ensures
            all_delete_outcome(ctx.instruction@, ctx.variables@, r),
    {
        let time = ctx.instruction.get_u64_or("time", 0);
        Ok(TagResult::Emit(Event::AllDelete { time }))
    }
}

/// Whether `tag` names a handler of this module.
pub open spec fn is_ui_tag(tag: Seq<char>) -> bool {
    tag == "uitrans"@
    || tag == "loading"@
    || tag == "saving"@
    || tag == "sysshow"@
    || tag == "syshide"@
    || tag == "lyc"@
    || tag == "lyc2"@
    || tag == "lydel"@
    || tag == "lyprop"@
    || tag == "loadmask"@
    || tag == "alldelete"@
}

/// What the handler of this module named `tag` gives.
pub open spec fn ui_outcome(tag: Seq<char>, ins: InstructionView, vars: StoreView, r: Result<TagResult, Error>) -> bool {
    if tag == "uitrans"@ {
        ui_trans_outcome(ins, vars, r)
    } else if tag == "loading"@ {
        loading_outcome(ins, vars, r)
    } else if tag == "saving"@ {
        saving_outcome(ins, vars, r)
    } else if tag == "sysshow"@ {
        sys_show_outcome(ins, vars, r)
    } else if tag == "syshide"@ {
        sys_hide_outcome(ins, vars, r)
    } else if tag == "lyc"@ {
        lyc_outcome(ins, vars, r)
    } else if tag == "lyc2"@ {
        lyc2_outcome(ins, vars, r)
    } else if tag == "lydel"@ {
        lydel_outcome(ins, vars, r)
    } else if tag == "lyprop"@ {
        lyprop_outcome(ins, vars, r)
    } else if tag == "loadmask"@ {
        load_mask_outcome(ins, vars, r)
    } else if tag == "alldelete"@ {
        all_delete_outcome(ins, vars, r)
    } else {
        false
    }
}

/// Runs the handler of this module named `tag`; `None` when the module
/// has none by that name.
pub fn dispatch(tag: &str, ctx: &ExecutionContext<'_>) -> (r: Option<Result<TagResult, Error>>)
    ensures
        match r {
            Some(x) => ui_outcome(tag@, ctx.instruction@, ctx.variables@, x),
            None => !is_ui_tag(tag@),
        },
{
    if str_eq(tag, "uitrans") {
        Some(UiTransHandler.execute(ctx))
    } else if str_eq(tag, "loading") {
        Some(LoadingHandler.execute(ctx))
    } else if str_eq(tag, "saving") {
        Some(SavingHandler.execute(ctx))
    } else if str_eq(tag, "sysshow") {
        Some(SysShowHandler.execute(ctx))
    } else if str_eq(tag, "syshide") {
        Some(SysHideHandler.execute(ctx))
    } else if str_eq(tag, "lyc") {
        Some(LycHandler.execute(ctx))
    } else if str_eq(tag, "lyc2") {
        Some(Lyc2Handler.execute(ctx))
    } else if str_eq(tag, "lydel") {
        Some(LydelHandler.execute(ctx))
    } else if str_eq(tag, "lyprop") {
        Some(LypropHandler.execute(ctx))
    } else if str_eq(tag, "loadmask") {
        Some(LoadMaskHandler.execute(ctx))
    } else if str_eq(tag, "alldelete") {
        Some(AllDeleteHandler.execute(ctx))
    } else {
        None
    }
}

// ---------------------------------------------------------------------
// Laws
// ---------------------------------------------------------------------

/// A `[uitrans]` with neither a `time` nor an unnamed first parameter
/// lasts 500 ms.
pub proof fn law_uitrans_default_time(ins: InstructionView, vars: StoreView, r: Result<TagResult, Error>)
    requires
        ui_trans_outcome(ins, vars, r),
        crate::strmap::lookup(ins.params, "time"@) is None,
        crate::strmap::lookup(ins.params, "0"@) is None,
    ensures
        r matches Ok(TagResult::Wait(Event::UiTransition(TransitionEvent { time, .. }))) && time == 500,
{
}

} // verus!
