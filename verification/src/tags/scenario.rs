//! Story text tags: text, line and page breaks, fonts, ruby, links and text settings.
use crate::error::Error;
use crate::event::Event;
use crate::tags::{ExecutionContext, TagHandler, TagResult, param, param_text, opt_view, param_i32, or_i32, param_flag, resolve_params};
use crate::text::str_eq;
use crate::variable::{StoreView, value_text};
use crate::expression::resolve_spec;
use crate::script::InstructionView;
use vstd::prelude::*;

verus! {

/// What `[print]` gives: shows the `data` parameter, resolved, as story text.
pub open spec fn print_outcome(ins: InstructionView, vars: StoreView, r: Result<TagResult, Error>) -> bool {
    match resolve_spec(vars, param_text(ins, "data"@)) {
        Err(msg) => r matches Err(Error::ExpressionError(e)) && e@ == msg,
        Ok(v0) => {
            &&& r matches Ok(TagResult::Emit(Event::ScenarioText { content, inline }))
            &&& content@ == value_text(v0)
            &&& inline == false
        },
    }
}

/// `[print]`: shows the `data` parameter, resolved, as story text.
pub struct PrintHandler;

impl TagHandler for PrintHandler {
    fn execute(&self, ctx: &ExecutionContext<'_>) -> (r: Result<TagResult, Error>)
        ensures
            print_outcome(ctx.instruction@, ctx.variables@, r),
    {
        let content = match ctx.resolve_param_str("data") {
            Ok(s) => s,
            Err(e) => return Err(e),
        };
        let inline: bool = false;
        Ok(TagResult::Emit(Event::ScenarioText { content, inline }))
    }
}

/// What `[rt]` gives: a line break in the story text.
pub open spec fn rt_outcome(ins: InstructionView, vars: StoreView, r: Result<TagResult, Error>) -> bool {
    r matches Ok(TagResult::Emit(Event::LineBreak))
}

/// `[rt]`: a line break in the story text.
pub struct RtHandler;

impl TagHandler for RtHandler {
    fn execute(&self, ctx: &ExecutionContext<'_>) -> (r: Result<TagResult, Error>)
        ensures
            rt_outcome(ctx.instruction@, ctx.variables@, r),
    {
        Ok(TagResult::Emit(Event::LineBreak))
    }
}

/// What `[rp]` gives: a page break, with the optional `backlog` flag.
pub open spec fn rp_outcome(ins: InstructionView, vars: StoreView, r: Result<TagResult, Error>) -> bool {
    {
        &&& r matches Ok(TagResult::Emit(Event::PageBreak { backlog }))
        &&& backlog == param_i32(ins, "backlog"@)
    }
}

/// `[rp]`: a page break, with the optional `backlog` flag.
pub struct RpHandler;

impl TagHandler for RpHandler {
    fn execute(&self, ctx: &ExecutionContext<'_>) -> (r: Result<TagResult, Error>)
        ensures
            rp_outcome(ctx.instruction@, ctx.variables@, r),
    {
        let backlog = ctx.instruction.get_i32("backlog");
        Ok(TagResult::Emit(Event::PageBreak { backlog }))
    }
}

/// What `[font]` gives: font settings: every parameter, resolved.
pub open spec fn font_outcome(ins: InstructionView, vars: StoreView, r: Result<TagResult, Error>) -> bool {
    match resolve_params(vars, ins.params, seq![]) {
        Err(msg) => r matches Err(Error::ExpressionError(e)) && e@ == msg,
        Ok(p0) => {
            &&& r matches Ok(TagResult::Emit(Event::FontSettings(settings)))
            &&& settings@ == p0
        },
    }
}

/// `[font]`: font settings: every parameter, resolved.
pub struct FontHandler;

impl TagHandler for FontHandler {
    fn execute(&self, ctx: &ExecutionContext<'_>) -> (r: Result<TagResult, Error>)
        ensures
            font_outcome(ctx.instruction@, ctx.variables@, r),
    {
        let resolve_keys: Vec<&str> = vec![];
        assert(resolve_keys@.map_values(|k: &str| k@) =~= seq![]);
        let settings = match ctx.resolve_params_except(resolve_keys.as_slice()) {
            Ok(m) => m,
            Err(e) => return Err(e),
        };
        Ok(TagResult::Emit(Event::FontSettings(settings)))
    }
}

/// What `[font_close]` gives: goes back to the previous font settings.
pub open spec fn font_close_outcome(ins: InstructionView, vars: StoreView, r: Result<TagResult, Error>) -> bool {
    r matches Ok(TagResult::Emit(Event::FontClose))
}

/// `[font_close]`: goes back to the previous font settings.
pub struct FontCloseHandler;

impl TagHandler for FontCloseHandler {
    fn execute(&self, ctx: &ExecutionContext<'_>) -> (r: Result<TagResult, Error>)
        ensures
            font_close_outcome(ctx.instruction@, ctx.variables@, r),
    {
        Ok(TagResult::Emit(Event::FontClose))
    }
}

/// What `[fontdefault]` gives: default font settings: every parameter, resolved.
pub open spec fn font_default_outcome(ins: InstructionView, vars: StoreView, r: Result<TagResult, Error>) -> bool {
    match resolve_params(vars, ins.params, seq![]) {
        Err(msg) => r matches Err(Error::ExpressionError(e)) && e@ == msg,
        Ok(p0) => {
            &&& r matches Ok(TagResult::Emit(Event::FontDefault(settings)))
            &&& settings@ == p0
        },
    }
}

/// `[fontdefault]`: default font settings: every parameter, resolved.
pub struct FontDefaultHandler;

impl TagHandler for FontDefaultHandler {
    fn execute(&self, ctx: &ExecutionContext<'_>) -> (r: Result<TagResult, Error>)
        ensures
            font_default_outcome(ctx.instruction@, ctx.variables@, r),
    {
        let resolve_keys: Vec<&str> = vec![];
        assert(resolve_keys@.map_values(|k: &str| k@) =~= seq![]);
        let settings = match ctx.resolve_params_except(resolve_keys.as_slice()) {
            Ok(m) => m,
            Err(e) => return Err(e),
        };
        Ok(TagResult::Emit(Event::FontDefault(settings)))
    }
}

/// What `[fontinit]` gives: resets the font to the default.
pub open spec fn font_init_outcome(ins: InstructionView, vars: StoreView, r: Result<TagResult, Error>) -> bool {
    r matches Ok(TagResult::Emit(Event::FontInit))
}

/// `[fontinit]`: resets the font to the default.
pub struct FontInitHandler;

impl TagHandler for FontInitHandler {
    fn execute(&self, ctx: &ExecutionContext<'_>) -> (r: Result<TagResult, Error>)
        ensures
            font_init_outcome(ctx.instruction@, ctx.variables@, r),
    {
        Ok(TagResult::Emit(Event::FontInit))
    }
}

/// What `[ruby]` gives: starts a ruby annotation with the `text` parameter.
pub open spec fn ruby_outcome(ins: InstructionView, vars: StoreView, r: Result<TagResult, Error>) -> bool {
    {
        &&& r matches Ok(TagResult::Emit(Event::RubyStart { text }))
        &&& text@ == param_text(ins, "text"@)
    }
}

/// `[ruby]`: starts a ruby annotation with the `text` parameter.
pub struct RubyHandler;

impl TagHandler for RubyHandler {
    fn execute(&self, ctx: &ExecutionContext<'_>) -> (r: Result<TagResult, Error>)
        ensures
            ruby_outcome(ctx.instruction@, ctx.variables@, r),
    {
        let text = ctx.instruction.get_string("text");
        Ok(TagResult::Emit(Event::RubyStart { text }))
    }
}

/// What `[/ruby]` gives: ends a ruby annotation.
pub open spec fn ruby_end_outcome(ins: InstructionView, vars: StoreView, r: Result<TagResult, Error>) -> bool {
    r matches Ok(TagResult::Emit(Event::RubyEnd))
}

/// `[/ruby]`: ends a ruby annotation.
pub struct RubyEndHandler;

impl TagHandler for RubyEndHandler {
    fn execute(&self, ctx: &ExecutionContext<'_>) -> (r: Result<TagResult, Error>)
        ensures
            ruby_end_outcome(ctx.instruction@, ctx.variables@, r),
    {
        Ok(TagResult::Emit(Event::RubyEnd))
    }
}

/// What `[link]` gives: starts a link to `file` and `label`.
pub open spec fn link_outcome(ins: InstructionView, vars: StoreView, r: Result<TagResult, Error>) -> bool {
    {
        &&& r matches Ok(TagResult::Emit(Event::LinkStart { file, label, link_type, color }))
        &&& opt_view(file) == param(ins, "file"@)
        &&& opt_view(label) == param(ins, "label"@)
        &&& link_type == or_i32(param_i32(ins, "type"@), 0)
        &&& opt_view(color) == param(ins, "color"@)
    }
}

/// `[link]`: starts a link to `file` and `label`.
pub struct LinkHandler;

impl TagHandler for LinkHandler {
    fn execute(&self, ctx: &ExecutionContext<'_>) -> (r: Result<TagResult, Error>)
        ensures
            link_outcome(ctx.instruction@, ctx.variables@, r),
    {
        let file = ctx.instruction.get_opt("file");
        let label = ctx.instruction.get_opt("label");
        let link_type = ctx.instruction.get_i32_or("type", 0);
        let color = ctx.instruction.get_opt("color");
        Ok(TagResult::Emit(Event::LinkStart { file, label, link_type, color }))
    }
}

/// What `[/link]` gives: ends a link.
pub open spec fn link_end_outcome(ins: InstructionView, vars: StoreView, r: Result<TagResult, Error>) -> bool {
    r matches Ok(TagResult::Emit(Event::LinkEnd))
}

/// `[/link]`: ends a link.
pub struct LinkEndHandler;

impl TagHandler for LinkEndHandler {
    fn execute(&self, ctx: &ExecutionContext<'_>) -> (r: Result<TagResult, Error>)
        ensures
            link_end_outcome(ctx.instruction@, ctx.variables@, r),
    {
        Ok(TagResult::Emit(Event::LinkEnd))
    }
}

/// What `[linkdisable]` gives: disables links.
pub open spec fn link_disable_outcome(ins: InstructionView, vars: StoreView, r: Result<TagResult, Error>) -> bool {
    r matches Ok(TagResult::Emit(Event::LinkDisable))
}

/// `[linkdisable]`: disables links.
pub struct LinkDisableHandler;

impl TagHandler for LinkDisableHandler {
    fn execute(&self, ctx: &ExecutionContext<'_>) -> (r: Result<TagResult, Error>)
        ensures
            link_disable_outcome(ctx.instruction@, ctx.variables@, r),
    {
        Ok(TagResult::Emit(Event::LinkDisable))
    }
}

/// What `[linkenable]` gives: enables links.
pub open spec fn link_enable_outcome(ins: InstructionView, vars: StoreView, r: Result<TagResult, Error>) -> bool {
    r matches Ok(TagResult::Emit(Event::LinkEnable))
}

/// `[linkenable]`: enables links.
pub struct LinkEnableHandler;

impl TagHandler for LinkEnableHandler {
    fn execute(&self, ctx: &ExecutionContext<'_>) -> (r: Result<TagResult, Error>)
        ensures
            link_enable_outcome(ctx.instruction@, ctx.variables@, r),
    {
        Ok(TagResult::Emit(Event::LinkEnable))
    }
}

/// What `[glyph]` gives: click-wait glyph settings: every parameter as written.
pub open spec fn glyph_outcome(ins: InstructionView, vars: StoreView, r: Result<TagResult, Error>) -> bool {
    {
        &&& r matches Ok(TagResult::Emit(Event::GlyphConfig(settings)))
        &&& settings@ == ins.params
    }
}

/// `[glyph]`: click-wait glyph settings: every parameter as written.
pub struct GlyphHandler;

impl TagHandler for GlyphHandler {
    fn execute(&self, ctx: &ExecutionContext<'_>) -> (r: Result<TagResult, Error>)
        ensures
            glyph_outcome(ctx.instruction@, ctx.variables@, r),
    {
        let settings = ctx.instruction.params.duplicate();
        Ok(TagResult::Emit(Event::GlyphConfig(settings)))
    }
}

/// What `[chgmsg]` gives: switches to message layer `id`.
pub open spec fn chgmsg_outcome(ins: InstructionView, vars: StoreView, r: Result<TagResult, Error>) -> bool {
    {
        &&& r matches Ok(TagResult::Emit(Event::MessageLayerSwitch { id, layered }))
        &&& opt_view(id) == param(ins, "id"@)
        &&& layered == or_i32(param_i32(ins, "layered"@), 0)
    }
}

/// `[chgmsg]`: switches to message layer `id`.
pub struct ChgmsgHandler;

impl TagHandler for ChgmsgHandler {
    fn execute(&self, ctx: &ExecutionContext<'_>) -> (r: Result<TagResult, Error>)
        ensures
            chgmsg_outcome(ctx.instruction@, ctx.variables@, r),
    {
        let id = ctx.instruction.get_opt("id");
        let layered = ctx.instruction.get_i32_or("layered", 0);
        Ok(TagResult::Emit(Event::MessageLayerSwitch { id, layered }))
    }
}

/// What `[chgmsg_close]` gives: goes back to the previous message layer.
pub open spec fn chgmsg_close_outcome(ins: InstructionView, vars: StoreView, r: Result<TagResult, Error>) -> bool {
    r matches Ok(TagResult::Emit(Event::MessageLayerPop))
}

/// `[chgmsg_close]`: goes back to the previous message layer.
pub struct ChgmsgCloseHandler;

impl TagHandler for ChgmsgCloseHandler {
    fn execute(&self, ctx: &ExecutionContext<'_>) -> (r: Result<TagResult, Error>)
        ensures
            chgmsg_close_outcome(ctx.instruction@, ctx.variables@, r),
    {
        Ok(TagResult::Emit(Event::MessageLayerPop))
    }
}

/// What `[scetween]` gives: a text animation: every parameter, resolved.
pub open spec fn scetween_outcome(ins: InstructionView, vars: StoreView, r: Result<TagResult, Error>) -> bool {
    match resolve_params(vars, ins.params, seq![]) {
        Err(msg) => r matches Err(Error::ExpressionError(e)) && e@ == msg,
        Ok(p0) => {
            &&& r matches Ok(TagResult::Emit(Event::TextAnimation(params)))
            &&& params@ == p0
        },
    }
}

/// `[scetween]`: a text animation: every parameter, resolved.
pub struct ScetweenHandler;

impl TagHandler for ScetweenHandler {
    fn execute(&self, ctx: &ExecutionContext<'_>) -> (r: Result<TagResult, Error>)
        ensures
            scetween_outcome(ctx.instruction@, ctx.variables@, r),
    {
        let resolve_keys: Vec<&str> = vec![];
        assert(resolve_keys@.map_values(|k: &str| k@) =~= seq![]);
        let params = match ctx.resolve_params_except(resolve_keys.as_slice()) {
            Ok(m) => m,
            Err(e) => return Err(e),
        };
        Ok(TagResult::Emit(Event::TextAnimation(params)))
    }
}

/// What `[scein]` gives: the scene comes in.
pub open spec fn scein_outcome(ins: InstructionView, vars: StoreView, r: Result<TagResult, Error>) -> bool {
    r matches Ok(TagResult::Emit(Event::SceneIn))
}

/// `[scein]`: the scene comes in.
pub struct SceinHandler;

impl TagHandler for SceinHandler {
    fn execute(&self, ctx: &ExecutionContext<'_>) -> (r: Result<TagResult, Error>)
        ensures
            scein_outcome(ctx.instruction@, ctx.variables@, r),
    {
        Ok(TagResult::Emit(Event::SceneIn))
    }
}

/// What `[sceout]` gives: the scene goes out.
pub open spec fn sceout_outcome(ins: InstructionView, vars: StoreView, r: Result<TagResult, Error>) -> bool {
    r matches Ok(TagResult::Emit(Event::SceneOut))
}

/// `[sceout]`: the scene goes out.
pub struct SceoutHandler;

impl TagHandler for SceoutHandler {
    fn execute(&self, ctx: &ExecutionContext<'_>) -> (r: Result<TagResult, Error>)
        ensures
            sceout_outcome(ctx.instruction@, ctx.variables@, r),
    {
        Ok(TagResult::Emit(Event::SceneOut))
    }
}

/// What `[automode]` gives: auto mode settings.
pub open spec fn automode_outcome(ins: InstructionView, vars: StoreView, r: Result<TagResult, Error>) -> bool {
    {
        &&& r matches Ok(TagResult::Emit(Event::AutoModeConfig { allow, layer }))
        &&& allow == param_flag(ins, "allow"@, 1)
        &&& opt_view(layer) == param(ins, "layer"@)
    }
}

/// `[automode]`: auto mode settings.
pub struct AutomodeHandler;

impl TagHandler for AutomodeHandler {
    fn execute(&self, ctx: &ExecutionContext<'_>) -> (r: Result<TagResult, Error>)
        ensures
            automode_outcome(ctx.instruction@, ctx.variables@, r),
    {
        let allow = ctx.instruction.get_flag("allow", 1);
        let layer = ctx.instruction.get_opt("layer");
        Ok(TagResult::Emit(Event::AutoModeConfig { allow, layer }))
    }
}

/// What `[skip]` gives: skip settings.
pub open spec fn skip_outcome(ins: InstructionView, vars: StoreView, r: Result<TagResult, Error>) -> bool {
    {
        &&& r matches Ok(TagResult::Emit(Event::SkipConfig { allow, skip_unread }))
        &&& allow == param_flag(ins, "allow"@, 1)
        &&& skip_unread == param_flag(ins, "unread"@, 0)
    }
}

/// `[skip]`: skip settings.
pub struct SkipHandler;

impl TagHandler for SkipHandler {
    fn execute(&self, ctx: &ExecutionContext<'_>) -> (r: Result<TagResult, Error>)
        ensures
            skip_outcome(ctx.instruction@, ctx.variables@, r),
    {
        let allow = ctx.instruction.get_flag("allow", 1);
        let skip_unread = ctx.instruction.get_flag("unread", 0);
        Ok(TagResult::Emit(Event::SkipConfig { allow, skip_unread }))
    }
}

/// What `[backlog]` gives: backlog settings.
pub open spec fn backlog_outcome(ins: InstructionView, vars: StoreView, r: Result<TagResult, Error>) -> bool {
    {
        &&& r matches Ok(TagResult::Emit(Event::BacklogConfig { allow }))
        &&& allow == param_flag(ins, "allow"@, 1)
    }
}

/// `[backlog]`: backlog settings.
pub struct BacklogHandler;

impl TagHandler for BacklogHandler {
    fn execute(&self, ctx: &ExecutionContext<'_>) -> (r: Result<TagResult, Error>)
        ensures
            backlog_outcome(ctx.instruction@, ctx.variables@, r),
    {
        let allow = ctx.instruction.get_flag("allow", 1);
        Ok(TagResult::Emit(Event::BacklogConfig { allow }))
    }
}

/// What `[hide]` gives: hide-mode settings.
pub open spec fn hide_outcome(ins: InstructionView, vars: StoreView, r: Result<TagResult, Error>) -> bool {
    {
        &&& r matches Ok(TagResult::Emit(Event::HideConfig { allow }))
        &&& allow == param_flag(ins, "allow"@, 1)
    }
}

/// `[hide]`: hide-mode settings.
pub struct HideHandler;

impl TagHandler for HideHandler {
    fn execute(&self, ctx: &ExecutionContext<'_>) -> (r: Result<TagResult, Error>)
        ensures
            hide_outcome(ctx.instruction@, ctx.variables@, r),
    {
        let allow = ctx.instruction.get_flag("allow", 1);
        Ok(TagResult::Emit(Event::HideConfig { allow }))
    }
}

/// What `[alreadyread]` gives: how already-read text is judged.
pub open spec fn alreadyread_outcome(ins: InstructionView, vars: StoreView, r: Result<TagResult, Error>) -> bool {
    {
        &&& r matches Ok(TagResult::Emit(Event::AlreadyReadConfig { mode }))
        &&& mode == or_i32(param_i32(ins, "mode"@), 0)
    }
}

/// `[alreadyread]`: how already-read text is judged.
pub struct AlreadyreadHandler;

impl TagHandler for AlreadyreadHandler {
    fn execute(&self, ctx: &ExecutionContext<'_>) -> (r: Result<TagResult, Error>)
        ensures
            alreadyread_outcome(ctx.instruction@, ctx.variables@, r),
    {
        let mode = ctx.instruction.get_i32_or("mode", 0);
        Ok(TagResult::Emit(Event::AlreadyReadConfig { mode }))
    }
}

/// What `[writebacklog]` gives: whether text goes to the backlog.
pub open spec fn writebacklog_outcome(ins: InstructionView, vars: StoreView, r: Result<TagResult, Error>) -> bool {
    {
        &&& r matches Ok(TagResult::Emit(Event::WriteBacklogConfig { enable }))
        &&& enable == param_flag(ins, "enable"@, 1)
    }
}

/// `[writebacklog]`: whether text goes to the backlog.
pub struct WritebacklogHandler;

impl TagHandler for WritebacklogHandler {
    fn execute(&self, ctx: &ExecutionContext<'_>) -> (r: Result<TagResult, Error>)
        ensures
            writebacklog_outcome(ctx.instruction@, ctx.variables@, r),
    {
        let enable = ctx.instruction.get_flag("enable", 1);
        Ok(TagResult::Emit(Event::WriteBacklogConfig { enable }))
    }
}

/// What `[indent]` gives: indentation settings.
pub open spec fn indent_outcome(ins: InstructionView, vars: StoreView, r: Result<TagResult, Error>) -> bool {
    {
        &&& r matches Ok(TagResult::Emit(Event::IndentConfig { value }))
        &&& value@ == param_text(ins, "value"@)
    }
}

/// `[indent]`: indentation settings.
pub struct IndentHandler;

impl TagHandler for IndentHandler {
    fn execute(&self, ctx: &ExecutionContext<'_>) -> (r: Result<TagResult, Error>)
        ensures
            indent_outcome(ctx.instruction@, ctx.variables@, r),
    {
        let value = ctx.instruction.get_string("value");
        Ok(TagResult::Emit(Event::IndentConfig { value }))
    }
}

/// What `[prohibit]` gives: line-breaking rules.
pub open spec fn prohibit_outcome(ins: InstructionView, vars: StoreView, r: Result<TagResult, Error>) -> bool {
    {
        &&& r matches Ok(TagResult::Emit(Event::ProhibitConfig { value }))
        &&& value@ == param_text(ins, "value"@)
    }
}

/// `[prohibit]`: line-breaking rules.
pub struct ProhibitHandler;

impl TagHandler for ProhibitHandler {
    fn execute(&self, ctx: &ExecutionContext<'_>) -> (r: Result<TagResult, Error>)
        ensures
            prohibit_outcome(ctx.instruction@, ctx.variables@, r),
    {
        let value = ctx.instruction.get_string("value");
        Ok(TagResult::Emit(Event::ProhibitConfig { value }))
    }
}

/// What `[wordparts]` gives: characters that belong to words.
pub open spec fn wordparts_outcome(ins: InstructionView, vars: StoreView, r: Result<TagResult, Error>) -> bool {
    {
        &&& r matches Ok(TagResult::Emit(Event::WordpartsConfig { value }))
        &&& value@ == param_text(ins, "value"@)
    }
}

/// `[wordparts]`: characters that belong to words.
pub struct WordpartsHandler;

impl TagHandler for WordpartsHandler {
    fn execute(&self, ctx: &ExecutionContext<'_>) -> (r: Result<TagResult, Error>)
        ensures
            wordparts_outcome(ctx.instruction@, ctx.variables@, r),
    {
        let value = ctx.instruction.get_string("value");
        Ok(TagResult::Emit(Event::WordpartsConfig { value }))
    }
}

/// Whether `tag` names a handler of this module.
pub open spec fn is_scenario_tag(tag: Seq<char>) -> bool {
    tag == "print"@
    || tag == "rt"@
    || tag == "rp"@
    || tag == "font"@
    || tag == "font_close"@
    || tag == "fontdefault"@
    || tag == "fontinit"@
    || tag == "ruby"@
    || tag == "/ruby"@
    || tag == "link"@
    || tag == "/link"@
    || tag == "linkdisable"@
    || tag == "linkenable"@
    || tag == "glyph"@
    || tag == "chgmsg"@
    || tag == "chgmsg_close"@
    || tag == "scetween"@
    || tag == "scein"@
    || tag == "sceout"@
    || tag == "automode"@
    || tag == "skip"@
    || tag == "backlog"@
    || tag == "hide"@
    || tag == "alreadyread"@
    || tag == "writebacklog"@
    || tag == "indent"@
    || tag == "prohibit"@
    || tag == "wordparts"@
}

/// What the handler of this module named `tag` gives.
pub open spec fn scenario_outcome(tag: Seq<char>, ins: InstructionView, vars: StoreView, r: Result<TagResult, Error>) -> bool {
    if tag == "print"@ {
        print_outcome(ins, vars, r)
    } else if tag == "rt"@ {
        rt_outcome(ins, vars, r)
    } else if tag == "rp"@ {
        rp_outcome(ins, vars, r)
    } else if tag == "font"@ {
        font_outcome(ins, vars, r)
    } else if tag == "font_close"@ {
        font_close_outcome(ins, vars, r)
    } else if tag == "fontdefault"@ {
        font_default_outcome(ins, vars, r)
    } else if tag == "fontinit"@ {
        font_init_outcome(ins, vars, r)
    } else if tag == "ruby"@ {
        ruby_outcome(ins, vars, r)
    } else if tag == "/ruby"@ {
        ruby_end_outcome(ins, vars, r)
    } else if tag == "link"@ {
        link_outcome(ins, vars, r)
    } else if tag == "/link"@ {
        link_end_outcome(ins, vars, r)
    } else if tag == "linkdisable"@ {
        link_disable_outcome(ins, vars, r)
    } else if tag == "linkenable"@ {
        link_enable_outcome(ins, vars, r)
    } else if tag == "glyph"@ {
        glyph_outcome(ins, vars, r)
    } else if tag == "chgmsg"@ {
        chgmsg_outcome(ins, vars, r)
    } else if tag == "chgmsg_close"@ {
        chgmsg_close_outcome(ins, vars, r)
    } else if tag == "scetween"@ {
        scetween_outcome(ins, vars, r)
    } else if tag == "scein"@ {
        scein_outcome(ins, vars, r)
    } else if tag == "sceout"@ {
        sceout_outcome(ins, vars, r)
    } else if tag == "automode"@ {
        automode_outcome(ins, vars, r)
    } else if tag == "skip"@ {
        skip_outcome(ins, vars, r)
    } else if tag == "backlog"@ {
        backlog_outcome(ins, vars, r)
    } else if tag == "hide"@ {
        hide_outcome(ins, vars, r)
    } else if tag == "alreadyread"@ {
        alreadyread_outcome(ins, vars, r)
    } else if tag == "writebacklog"@ {
        writebacklog_outcome(ins, vars, r)
    } else if tag == "indent"@ {
        indent_outcome(ins, vars, r)
    } else if tag == "prohibit"@ {
        prohibit_outcome(ins, vars, r)
    } else if tag == "wordparts"@ {
        wordparts_outcome(ins, vars, r)
    } else {
        false
    }
}

/// Runs the handler of this module named `tag`; `None` when the module
/// has none by that name.
pub fn dispatch(tag: &str, ctx: &ExecutionContext<'_>) -> (r: Option<Result<TagResult, Error>>)
    ensures
        match r {
            Some(x) => scenario_outcome(tag@, ctx.instruction@, ctx.variables@, x),
            None => !is_scenario_tag(tag@),
        },
{
    if str_eq(tag, "print") {
        Some(PrintHandler.execute(ctx))
    } else if str_eq(tag, "rt") {
        Some(RtHandler.execute(ctx))
    } else if str_eq(tag, "rp") {
        Some(RpHandler.execute(ctx))
    } else if str_eq(tag, "font") {
        Some(FontHandler.execute(ctx))
    } else if str_eq(tag, "font_close") {
        Some(FontCloseHandler.execute(ctx))
    } else if str_eq(tag, "fontdefault") {
        Some(FontDefaultHandler.execute(ctx))
    } else if str_eq(tag, "fontinit") {
        Some(FontInitHandler.execute(ctx))
    } else if str_eq(tag, "ruby") {
        Some(RubyHandler.execute(ctx))
    } else if str_eq(tag, "/ruby") {
        Some(RubyEndHandler.execute(ctx))
    } else if str_eq(tag, "link") {
        Some(LinkHandler.execute(ctx))
    } else if str_eq(tag, "/link") {
        Some(LinkEndHandler.execute(ctx))
    } else if str_eq(tag, "linkdisable") {
        Some(LinkDisableHandler.execute(ctx))
    } else if str_eq(tag, "linkenable") {
        Some(LinkEnableHandler.execute(ctx))
    } else if str_eq(tag, "glyph") {
        Some(GlyphHandler.execute(ctx))
    } else if str_eq(tag, "chgmsg") {
        Some(ChgmsgHandler.execute(ctx))
    } else if str_eq(tag, "chgmsg_close") {
        Some(ChgmsgCloseHandler.execute(ctx))
    } else if str_eq(tag, "scetween") {
        Some(ScetweenHandler.execute(ctx))
    } else if str_eq(tag, "scein") {
        Some(SceinHandler.execute(ctx))
    } else if str_eq(tag, "sceout") {
        Some(SceoutHandler.execute(ctx))
    } else if str_eq(tag, "automode") {
        Some(AutomodeHandler.execute(ctx))
    } else if str_eq(tag, "skip") {
        Some(SkipHandler.execute(ctx))
    } else if str_eq(tag, "backlog") {
        Some(BacklogHandler.execute(ctx))
    } else if str_eq(tag, "hide") {
        Some(HideHandler.execute(ctx))
    } else if str_eq(tag, "alreadyread") {
        Some(AlreadyreadHandler.execute(ctx))
    } else if str_eq(tag, "writebacklog") {
        Some(WritebacklogHandler.execute(ctx))
    } else if str_eq(tag, "indent") {
        Some(IndentHandler.execute(ctx))
    } else if str_eq(tag, "prohibit") {
        Some(ProhibitHandler.execute(ctx))
    } else if str_eq(tag, "wordparts") {
        Some(WordpartsHandler.execute(ctx))
    } else {
        None
    }
}

} // verus!
