//! System tags: save and load, debugging, window, input and platform services.
use crate::error::Error;
use crate::event::Event;
use crate::tags::{ExecutionContext, TagHandler, TagResult, param, param_text, opt_view, param_i32, param_u64, or_i32, or_u64, param_flag, params_except};
use crate::text::str_eq;
use crate::variable::{StoreView, value_text};
use crate::expression::resolve_spec;
use crate::script::InstructionView;
use vstd::prelude::*;

verus! {

/// What `[exec]` gives: runs a user operation.
pub open spec fn exec_outcome(ins: InstructionView, vars: StoreView, r: Result<TagResult, Error>) -> bool {
    {
        &&& r matches Ok(TagResult::Emit(Event::Exec { command, mode }))
        &&& command@ == param_text(ins, "command"@)
        &&& mode == param_i32(ins, "mode"@)
    }
}

/// `[exec]`: runs a user operation.
pub struct ExecHandler;

impl TagHandler for ExecHandler {
    fn execute(&self, ctx: &ExecutionContext<'_>) -> (r: Result<TagResult, Error>)
        ensures
            exec_outcome(ctx.instruction@, ctx.variables@, r),
    {
        let command = ctx.instruction.get_string("command");
        let mode = ctx.instruction.get_i32("mode");
        Ok(TagResult::Emit(Event::Exec { command, mode }))
    }
}

/// What `[save]` gives: saves the game to `file`.
pub open spec fn save_outcome(ins: InstructionView, vars: StoreView, r: Result<TagResult, Error>) -> bool {
    match resolve_spec(vars, param_text(ins, "file"@)) {
        Err(msg) => r matches Err(Error::ExpressionError(e)) && e@ == msg,
        Ok(v0) => {
            &&& r matches Ok(TagResult::Emit(Event::SaveGame { file }))
            &&& file@ == value_text(v0)
        },
    }
}

/// `[save]`: saves the game to `file`.
pub struct SaveHandler;

impl TagHandler for SaveHandler {
    fn execute(&self, ctx: &ExecutionContext<'_>) -> (r: Result<TagResult, Error>)
        ensures
            save_outcome(ctx.instruction@, ctx.variables@, r),
    {
        let file = match ctx.resolve_param_str("file") {
            Ok(s) => s,
            Err(e) => return Err(e),
        };
        Ok(TagResult::Emit(Event::SaveGame { file }))
    }
}

/// What `[load]` gives: loads the game from `file`.
pub open spec fn load_outcome(ins: InstructionView, vars: StoreView, r: Result<TagResult, Error>) -> bool {
    match resolve_spec(vars, param_text(ins, "file"@)) {
        Err(msg) => r matches Err(Error::ExpressionError(e)) && e@ == msg,
        Ok(v0) => {
            &&& r matches Ok(TagResult::Emit(Event::LoadGame { file, trans_type }))
            &&& file@ == value_text(v0)
            &&& trans_type == param_i32(ins, "type"@)
        },
    }
}

/// `[load]`: loads the game from `file`.
pub struct LoadHandler;

impl TagHandler for LoadHandler {
    fn execute(&self, ctx: &ExecutionContext<'_>) -> (r: Result<TagResult, Error>)
        ensures
            load_outcome(ctx.instruction@, ctx.variables@, r),
    {
        let file = match ctx.resolve_param_str("file") {
            Ok(s) => s,
            Err(e) => return Err(e),
        };
        let trans_type = ctx.instruction.get_i32("type");
        Ok(TagResult::Emit(Event::LoadGame { file, trans_type }))
    }
}

/// What `[debug]` gives: debug settings.
pub open spec fn debug_outcome(ins: InstructionView, vars: StoreView, r: Result<TagResult, Error>) -> bool {
    {
        &&& r matches Ok(TagResult::Emit(Event::DebugConfig { mode, level }))
        &&& mode == param_i32(ins, "mode"@)
        &&& level == param_i32(ins, "level"@)
    }
}

/// `[debug]`: debug settings.
pub struct DebugHandler;

impl TagHandler for DebugHandler {
    fn execute(&self, ctx: &ExecutionContext<'_>) -> (r: Result<TagResult, Error>)
        ensures
            debug_outcome(ctx.instruction@, ctx.variables@, r),
    {
        let mode = ctx.instruction.get_i32("mode");
        let level = ctx.instruction.get_i32("level");
        Ok(TagResult::Emit(Event::DebugConfig { mode, level }))
    }
}

/// What `[debugprint]` gives: prints the resolved `data` for debugging.
pub open spec fn debugprint_outcome(ins: InstructionView, vars: StoreView, r: Result<TagResult, Error>) -> bool {
    match resolve_spec(vars, param_text(ins, "data"@)) {
        Err(msg) => r matches Err(Error::ExpressionError(e)) && e@ == msg,
        Ok(v0) => {
            &&& r matches Ok(TagResult::Emit(Event::DebugPrint { level, data }))
            &&& level == or_i32(param_i32(ins, "level"@), 0)
            &&& data@ == value_text(v0)
        },
    }
}

/// `[debugprint]`: prints the resolved `data` for debugging.
pub struct DebugprintHandler;

impl TagHandler for DebugprintHandler {
    fn execute(&self, ctx: &ExecutionContext<'_>) -> (r: Result<TagResult, Error>)
        ensures
            debugprint_outcome(ctx.instruction@, ctx.variables@, r),
    {
        let level = ctx.instruction.get_i32_or("level", 0);
        let data = match ctx.resolve_param_str("data") {
            Ok(s) => s,
            Err(e) => return Err(e),
        };
        Ok(TagResult::Emit(Event::DebugPrint { level, data }))
    }
}

/// What `[debugreload]` gives: reloads for debugging.
pub open spec fn debugreload_outcome(ins: InstructionView, vars: StoreView, r: Result<TagResult, Error>) -> bool {
    r matches Ok(TagResult::Emit(Event::DebugReload))
}

/// `[debugreload]`: reloads for debugging.
pub struct DebugreloadHandler;

impl TagHandler for DebugreloadHandler {
    fn execute(&self, ctx: &ExecutionContext<'_>) -> (r: Result<TagResult, Error>)
        ensures
            debugreload_outcome(ctx.instruction@, ctx.variables@, r),
    {
        Ok(TagResult::Emit(Event::DebugReload))
    }
}

/// What `[caption]` gives: sets the window title to the resolved `data`.
pub open spec fn caption_outcome(ins: InstructionView, vars: StoreView, r: Result<TagResult, Error>) -> bool {
    match resolve_spec(vars, param_text(ins, "data"@)) {
        Err(msg) => r matches Err(Error::ExpressionError(e)) && e@ == msg,
        Ok(v0) => {
            &&& r matches Ok(TagResult::Emit(Event::Caption { data }))
            &&& data@ == value_text(v0)
        },
    }
}

/// `[caption]`: sets the window title to the resolved `data`.
pub struct CaptionHandler;

impl TagHandler for CaptionHandler {
    fn execute(&self, ctx: &ExecutionContext<'_>) -> (r: Result<TagResult, Error>)
        ensures
            caption_outcome(ctx.instruction@, ctx.variables@, r),
    {
        let data = match ctx.resolve_param_str("data") {
            Ok(s) => s,
            Err(e) => return Err(e),
        };
        Ok(TagResult::Emit(Event::Caption { data }))
    }
}

/// What `[mouse]` gives: mouse settings.
pub open spec fn mouse_outcome(ins: InstructionView, vars: StoreView, r: Result<TagResult, Error>) -> bool {
    {
        &&& r matches Ok(TagResult::Emit(Event::MouseConfig { left, top, hide, autohide }))
        &&& left == param_i32(ins, "left"@)
        &&& top == param_i32(ins, "top"@)
        &&& hide == param_i32(ins, "hide"@)
        &&& autohide == param_u64(ins, "autohide"@)
    }
}

/// `[mouse]`: mouse settings.
pub struct MouseHandler;

impl TagHandler for MouseHandler {
    fn execute(&self, ctx: &ExecutionContext<'_>) -> (r: Result<TagResult, Error>)
        ensures
            mouse_outcome(ctx.instruction@, ctx.variables@, r),
    {
        let left = ctx.instruction.get_i32("left");
        let top = ctx.instruction.get_i32("top");
        let hide = ctx.instruction.get_i32("hide");
        let autohide = ctx.instruction.get_u64("autohide");
        Ok(TagResult::Emit(Event::MouseConfig { left, top, hide, autohide }))
    }
}

/// What `[keyconfig]` gives: key settings: every parameter as written.
pub open spec fn keyconfig_outcome(ins: InstructionView, vars: StoreView, r: Result<TagResult, Error>) -> bool {
    {
        &&& r matches Ok(TagResult::Emit(Event::KeyConfig(config)))
        &&& config@ == ins.params
    }
}

/// `[keyconfig]`: key settings: every parameter as written.
pub struct KeyconfigHandler;

impl TagHandler for KeyconfigHandler {
    fn execute(&self, ctx: &ExecutionContext<'_>) -> (r: Result<TagResult, Error>)
        ensures
            keyconfig_outcome(ctx.instruction@, ctx.variables@, r),
    {
        let config = ctx.instruction.params.duplicate();
        Ok(TagResult::Emit(Event::KeyConfig(config)))
    }
}

/// What `[file]` gives: a file operation.
pub open spec fn file_outcome(ins: InstructionView, vars: StoreView, r: Result<TagResult, Error>) -> bool {
    {
        &&& r matches Ok(TagResult::Emit(Event::FileOperation { command, src, dst, target }))
        &&& command@ == param_text(ins, "command"@)
        &&& opt_view(src) == param(ins, "src"@)
        &&& opt_view(dst) == param(ins, "dst"@)
        &&& opt_view(target) == param(ins, "target"@)
    }
}

/// `[file]`: a file operation.
pub struct FileHandler;

impl TagHandler for FileHandler {
    fn execute(&self, ctx: &ExecutionContext<'_>) -> (r: Result<TagResult, Error>)
        ensures
            file_outcome(ctx.instruction@, ctx.variables@, r),
    {
        let command = ctx.instruction.get_string("command");
        let src = ctx.instruction.get_opt("src");
        let dst = ctx.instruction.get_opt("dst");
        let target = ctx.instruction.get_opt("target");
        Ok(TagResult::Emit(Event::FileOperation { command, src, dst, target }))
    }
}

/// What `[httpget]` gives: an HTTP GET of the resolved `url`.
pub open spec fn httpget_outcome(ins: InstructionView, vars: StoreView, r: Result<TagResult, Error>) -> bool {
    match resolve_spec(vars, param_text(ins, "url"@)) {
        Err(msg) => r matches Err(Error::ExpressionError(e)) && e@ == msg,
        Ok(v0) => {
            &&& r matches Ok(TagResult::Emit(Event::HttpGet { url }))
            &&& url@ == value_text(v0)
        },
    }
}

/// `[httpget]`: an HTTP GET of the resolved `url`.
pub struct HttpgetHandler;

impl TagHandler for HttpgetHandler {
    fn execute(&self, ctx: &ExecutionContext<'_>) -> (r: Result<TagResult, Error>)
        ensures
            httpget_outcome(ctx.instruction@, ctx.variables@, r),
    {
        let url = match ctx.resolve_param_str("url") {
            Ok(s) => s,
            Err(e) => return Err(e),
        };
        Ok(TagResult::Emit(Event::HttpGet { url }))
    }
}

/// What `[httppost]` gives: an HTTP POST to the resolved `url` with the other parameters.
pub open spec fn httppost_outcome(ins: InstructionView, vars: StoreView, r: Result<TagResult, Error>) -> bool {
    match resolve_spec(vars, param_text(ins, "url"@)) {
        Err(msg) => r matches Err(Error::ExpressionError(e)) && e@ == msg,
        Ok(v0) => {
            &&& r matches Ok(TagResult::Emit(Event::HttpPost { url, params }))
            &&& url@ == value_text(v0)
            &&& params@ == params_except(ins.params, seq!["url"@])
        },
    }
}

/// `[httppost]`: an HTTP POST to the resolved `url` with the other parameters.
pub struct HttppostHandler;

impl TagHandler for HttppostHandler {
    fn execute(&self, ctx: &ExecutionContext<'_>) -> (r: Result<TagResult, Error>)
        ensures
            httppost_outcome(ctx.instruction@, ctx.variables@, r),
    {
        let url = match ctx.resolve_param_str("url") {
            Ok(s) => s,
            Err(e) => return Err(e),
        };
        let known_keys: Vec<&str> = vec!["url"];
        assert(known_keys@.map_values(|k: &str| k@) =~= seq!["url"@]);
        let params = ctx.instruction.params_except(known_keys.as_slice());
        Ok(TagResult::Emit(Event::HttpPost { url, params }))
    }
}

/// What `[openbrowser]` gives: opens the resolved `url` in a browser.
pub open spec fn openbrowser_outcome(ins: InstructionView, vars: StoreView, r: Result<TagResult, Error>) -> bool {
    match resolve_spec(vars, param_text(ins, "url"@)) {
        Err(msg) => r matches Err(Error::ExpressionError(e)) && e@ == msg,
        Ok(v0) => {
            &&& r matches Ok(TagResult::Emit(Event::OpenBrowser { url }))
            &&& url@ == value_text(v0)
        },
    }
}

/// `[openbrowser]`: opens the resolved `url` in a browser.
pub struct OpenbrowserHandler;

impl TagHandler for OpenbrowserHandler {
    fn execute(&self, ctx: &ExecutionContext<'_>) -> (r: Result<TagResult, Error>)
        ensures
            openbrowser_outcome(ctx.instruction@, ctx.variables@, r),
    {
        let url = match ctx.resolve_param_str("url") {
            Ok(s) => s,
            Err(e) => return Err(e),
        };
        Ok(TagResult::Emit(Event::OpenBrowser { url }))
    }
}

/// What `[autosave]` gives: whether autosave is allowed.
pub open spec fn autosave_outcome(ins: InstructionView, vars: StoreView, r: Result<TagResult, Error>) -> bool {
    {
        &&& r matches Ok(TagResult::Emit(Event::AutoSaveConfig { allow }))
        &&& allow == param_flag(ins, "allow"@, 1)
    }
}

/// `[autosave]`: whether autosave is allowed.
pub struct AutosaveHandler;

impl TagHandler for AutosaveHandler {
    fn execute(&self, ctx: &ExecutionContext<'_>) -> (r: Result<TagResult, Error>)
        ensures
            autosave_outcome(ctx.instruction@, ctx.variables@, r),
    {
        let allow = ctx.instruction.get_flag("allow", 1);
        Ok(TagResult::Emit(Event::AutoSaveConfig { allow }))
    }
}

/// What `[avoid]` gives: whether the emergency screen is allowed.
pub open spec fn avoid_outcome(ins: InstructionView, vars: StoreView, r: Result<TagResult, Error>) -> bool {
    {
        &&& r matches Ok(TagResult::Emit(Event::AvoidConfig { allow }))
        &&& allow == param_flag(ins, "allow"@, 1)
    }
}

/// `[avoid]`: whether the emergency screen is allowed.
pub struct AvoidHandler;

impl TagHandler for AvoidHandler {
    fn execute(&self, ctx: &ExecutionContext<'_>) -> (r: Result<TagResult, Error>)
        ensures
            avoid_outcome(ctx.instruction@, ctx.variables@, r),
    {
        let allow = ctx.instruction.get_flag("allow", 1);
        Ok(TagResult::Emit(Event::AvoidConfig { allow }))
    }
}

/// What `[vibrate]` gives: vibrates for `time` ms.
pub open spec fn vibrate_outcome(ins: InstructionView, vars: StoreView, r: Result<TagResult, Error>) -> bool {
    {
        &&& r matches Ok(TagResult::Emit(Event::Vibrate { time }))
        &&& time == or_u64(param_u64(ins, "time"@), 0)
    }
}

/// `[vibrate]`: vibrates for `time` ms.
pub struct VibrateHandler;

impl TagHandler for VibrateHandler {
    fn execute(&self, ctx: &ExecutionContext<'_>) -> (r: Result<TagResult, Error>)
        ensures
            vibrate_outcome(ctx.instruction@, ctx.variables@, r),
    {
        let time = ctx.instruction.get_u64_or("time", 0);
        Ok(TagResult::Emit(Event::Vibrate { time }))
    }
}

/// What `[statusbar]` gives: shows or hides the status bar.
pub open spec fn statusbar_outcome(ins: InstructionView, vars: StoreView, r: Result<TagResult, Error>) -> bool {
    {
        &&& r matches Ok(TagResult::Emit(Event::StatusBar { visible }))
        &&& visible == param_flag(ins, "visible"@, 1)
    }
}

/// `[statusbar]`: shows or hides the status bar.
pub struct StatusbarHandler;

impl TagHandler for StatusbarHandler {
    fn execute(&self, ctx: &ExecutionContext<'_>) -> (r: Result<TagResult, Error>)
        ensures
            statusbar_outcome(ctx.instruction@, ctx.variables@, r),
    {
        let visible = ctx.instruction.get_flag("visible", 1);
        Ok(TagResult::Emit(Event::StatusBar { visible }))
    }
}

/// What `[purchase]` gives: buys the resolved `item`.
pub open spec fn purchase_outcome(ins: InstructionView, vars: StoreView, r: Result<TagResult, Error>) -> bool {
    match resolve_spec(vars, param_text(ins, "item"@)) {
        Err(msg) => r matches Err(Error::ExpressionError(e)) && e@ == msg,
        Ok(v0) => {
            &&& r matches Ok(TagResult::Emit(Event::Purchase { item }))
            &&& item@ == value_text(v0)
        },
    }
}

/// `[purchase]`: buys the resolved `item`.
pub struct PurchaseHandler;

impl TagHandler for PurchaseHandler {
    fn execute(&self, ctx: &ExecutionContext<'_>) -> (r: Result<TagResult, Error>)
        ensures
            purchase_outcome(ctx.instruction@, ctx.variables@, r),
    {
        let item = match ctx.resolve_param_str("item") {
            Ok(s) => s,
            Err(e) => return Err(e),
        };
        Ok(TagResult::Emit(Event::Purchase { item }))
    }
}

/// What `[callnative]` gives: calls native function `function` with the other parameters.
pub open spec fn callnative_outcome(ins: InstructionView, vars: StoreView, r: Result<TagResult, Error>) -> bool {
    {
        &&& r matches Ok(TagResult::Emit(Event::CallNative { function, params }))
        &&& function@ == param_text(ins, "function"@)
        &&& params@ == params_except(ins.params, seq!["function"@])
    }
}

/// `[callnative]`: calls native function `function` with the other parameters.
pub struct CallnativeHandler;

impl TagHandler for CallnativeHandler {
    fn execute(&self, ctx: &ExecutionContext<'_>) -> (r: Result<TagResult, Error>)
        ensures
            callnative_outcome(ctx.instruction@, ctx.variables@, r),
    {
        let function = ctx.instruction.get_string("function");
        let known_keys: Vec<&str> = vec!["function"];
        assert(known_keys@.map_values(|k: &str| k@) =~= seq!["function"@]);
        let params = ctx.instruction.params_except(known_keys.as_slice());
        Ok(TagResult::Emit(Event::CallNative { function, params }))
    }
}

/// Whether `tag` names a handler of this module.
pub open spec fn is_system_tag(tag: Seq<char>) -> bool {
    tag == "exec"@
    || tag == "save"@
    || tag == "load"@
    || tag == "debug"@
    || tag == "debugprint"@
    || tag == "debugreload"@
    || tag == "caption"@
    || tag == "mouse"@
    || tag == "keyconfig"@
    || tag == "file"@
    || tag == "httpget"@
    || tag == "httppost"@
    || tag == "openbrowser"@
    || tag == "autosave"@
    || tag == "avoid"@
    || tag == "vibrate"@
    || tag == "statusbar"@
    || tag == "purchase"@
    || tag == "callnative"@
}

/// What the handler of this module named `tag` gives.
pub open spec fn system_outcome(tag: Seq<char>, ins: InstructionView, vars: StoreView, r: Result<TagResult, Error>) -> bool {
    if tag == "exec"@ {
        exec_outcome(ins, vars, r)
    } else if tag == "save"@ {
        save_outcome(ins, vars, r)
    } else if tag == "load"@ {
        load_outcome(ins, vars, r)
    } else if tag == "debug"@ {
        debug_outcome(ins, vars, r)
    } else if tag == "debugprint"@ {
        debugprint_outcome(ins, vars, r)
    } else if tag == "debugreload"@ {
        debugreload_outcome(ins, vars, r)
    } else if tag == "caption"@ {
        caption_outcome(ins, vars, r)
    } else if tag == "mouse"@ {
        mouse_outcome(ins, vars, r)
    } else if tag == "keyconfig"@ {
        keyconfig_outcome(ins, vars, r)
    } else if tag == "file"@ {
        file_outcome(ins, vars, r)
    } else if tag == "httpget"@ {
        httpget_outcome(ins, vars, r)
    } else if tag == "httppost"@ {
        httppost_outcome(ins, vars, r)
    } else if tag == "openbrowser"@ {
        openbrowser_outcome(ins, vars, r)
    } else if tag == "autosave"@ {
        autosave_outcome(ins, vars, r)
    } else if tag == "avoid"@ {
        avoid_outcome(ins, vars, r)
    } else if tag == "vibrate"@ {
        vibrate_outcome(ins, vars, r)
    } else if tag == "statusbar"@ {
        statusbar_outcome(ins, vars, r)
    } else if tag == "purchase"@ {
        purchase_outcome(ins, vars, r)
    } else if tag == "callnative"@ {
        callnative_outcome(ins, vars, r)
    } else {
        false
    }
}

/// Runs the handler of this module named `tag`; `None` when the module
/// has none by that name.
pub fn dispatch(tag: &str, ctx: &ExecutionContext<'_>) -> (r: Option<Result<TagResult, Error>>)
    ensures
        match r {
            Some(x) => system_outcome(tag@, ctx.instruction@, ctx.variables@, x),
            None => !is_system_tag(tag@),
        },
{
    if str_eq(tag, "exec") {
        Some(ExecHandler.execute(ctx))
    } else if str_eq(tag, "save") {
        Some(SaveHandler.execute(ctx))
    } else if str_eq(tag, "load") {
        Some(LoadHandler.execute(ctx))
    } else if str_eq(tag, "debug") {
        Some(DebugHandler.execute(ctx))
    } else if str_eq(tag, "debugprint") {
        Some(DebugprintHandler.execute(ctx))
    } else if str_eq(tag, "debugreload") {
        Some(DebugreloadHandler.execute(ctx))
    } else if str_eq(tag, "caption") {
        Some(CaptionHandler.execute(ctx))
    } else if str_eq(tag, "mouse") {
        Some(MouseHandler.execute(ctx))
    } else if str_eq(tag, "keyconfig") {
        Some(KeyconfigHandler.execute(ctx))
    } else if str_eq(tag, "file") {
        Some(FileHandler.execute(ctx))
    } else if str_eq(tag, "httpget") {
        Some(HttpgetHandler.execute(ctx))
    } else if str_eq(tag, "httppost") {
        Some(HttppostHandler.execute(ctx))
    } else if str_eq(tag, "openbrowser") {
        Some(OpenbrowserHandler.execute(ctx))
    } else if str_eq(tag, "autosave") {
        Some(AutosaveHandler.execute(ctx))
    } else if str_eq(tag, "avoid") {
        Some(AvoidHandler.execute(ctx))
    } else if str_eq(tag, "vibrate") {
        Some(VibrateHandler.execute(ctx))
    } else if str_eq(tag, "statusbar") {
        Some(StatusbarHandler.execute(ctx))
    } else if str_eq(tag, "purchase") {
        Some(PurchaseHandler.execute(ctx))
    } else if str_eq(tag, "callnative") {
        Some(CallnativeHandler.execute(ctx))
    } else {
        None
    }
}

} // verus!
