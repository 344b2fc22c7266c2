//! Layer tags: tweens, layer events and edits, animations, video and transitions.
use crate::error::Error;
use crate::event::Event;
use crate::tags::{ExecutionContext, TagHandler, TagResult, param, param_text, opt_view, param_i32, param_u64, param_u32, or_i32, param_flag, params_except, pick_params};
use crate::text::str_eq;
use crate::variable::StoreView;
use crate::script::InstructionView;
use vstd::prelude::*;

verus! {

/// What `[lytween]` gives: tweens a property of layer `id`.
pub open spec fn lytween_outcome(ins: InstructionView, vars: StoreView, r: Result<TagResult, Error>) -> bool {
    {
        &&& r matches Ok(TagResult::Emit(Event::LayerTween { id, param: param_value, from, to, ease, time, delay, loop_count, yoyo, loop_delay, sync, delete, handler_file, handler_label, handler_handler }))
        &&& id@ == param_text(ins, "id"@)
        &&& param_value@ == param_text(ins, "param"@)
        &&& opt_view(from) == param(ins, "from"@)
        &&& opt_view(to) == param(ins, "to"@)
        &&& opt_view(ease) == param(ins, "ease"@)
        &&& time == param_u64(ins, "time"@)
        &&& delay == param_u64(ins, "delay"@)
        &&& loop_count == param_i32(ins, "loop"@)
        &&& yoyo == param_i32(ins, "yoyo"@)
        &&& loop_delay == param_u64(ins, "loopdelay"@)
        &&& sync == param_flag(ins, "sync"@, 0)
        &&& delete == param_flag(ins, "delete"@, 0)
        &&& opt_view(handler_file) == param(ins, "file"@)
        &&& opt_view(handler_label) == param(ins, "label"@)
        &&& opt_view(handler_handler) == param(ins, "handler"@)
    }
}

/// `[lytween]`: tweens a property of layer `id`.
pub struct LytweenHandler;

impl TagHandler for LytweenHandler {
    fn execute(&self, ctx: &ExecutionContext<'_>) -> (r: Result<TagResult, Error>)
        ensures
            lytween_outcome(ctx.instruction@, ctx.variables@, r),
    {
        let id = ctx.instruction.get_string("id");
        let param = ctx.instruction.get_string("param");
        let from = ctx.instruction.get_opt("from");
        let to = ctx.instruction.get_opt("to");
        let ease = ctx.instruction.get_opt("ease");
        let time = ctx.instruction.get_u64("time");
        let delay = ctx.instruction.get_u64("delay");
        let loop_count = ctx.instruction.get_i32("loop");
        let yoyo = ctx.instruction.get_i32("yoyo");
        let loop_delay = ctx.instruction.get_u64("loopdelay");
        let sync = ctx.instruction.get_flag("sync", 0);
        let delete = ctx.instruction.get_flag("delete", 0);
        let handler_file = ctx.instruction.get_opt("file");
        let handler_label = ctx.instruction.get_opt("label");
        let handler_handler = ctx.instruction.get_opt("handler");
        Ok(TagResult::Emit(Event::LayerTween { id, param, from, to, ease, time, delay, loop_count, yoyo, loop_delay, sync, delete, handler_file, handler_label, handler_handler }))
    }
}

/// What `[lytweendel]` gives: deletes the tweens of layer `id`.
pub open spec fn lytweendel_outcome(ins: InstructionView, vars: StoreView, r: Result<TagResult, Error>) -> bool {
    {
        &&& r matches Ok(TagResult::Emit(Event::LayerTweenDelete { id }))
        &&& id@ == param_text(ins, "id"@)
    }
}

/// `[lytweendel]`: deletes the tweens of layer `id`.
pub struct LytweendelHandler;

impl TagHandler for LytweendelHandler {
    fn execute(&self, ctx: &ExecutionContext<'_>) -> (r: Result<TagResult, Error>)
        ensures
            lytweendel_outcome(ctx.instruction@, ctx.variables@, r),
    {
        let id = ctx.instruction.get_string("id");
        Ok(TagResult::Emit(Event::LayerTweenDelete { id }))
    }
}

/// What `[tweenset]` gives: starts a tween sequence.
pub open spec fn tweenset_outcome(ins: InstructionView, vars: StoreView, r: Result<TagResult, Error>) -> bool {
    r matches Ok(TagResult::Emit(Event::TweenSetStart))
}

/// `[tweenset]`: starts a tween sequence.
pub struct TweensetHandler;

impl TagHandler for TweensetHandler {
    fn execute(&self, ctx: &ExecutionContext<'_>) -> (r: Result<TagResult, Error>)
        ensures
            tweenset_outcome(ctx.instruction@, ctx.variables@, r),
    {
        Ok(TagResult::Emit(Event::TweenSetStart))
    }
}

/// What `[/tweenset]` gives: ends a tween sequence.
pub open spec fn tweenset_end_outcome(ins: InstructionView, vars: StoreView, r: Result<TagResult, Error>) -> bool {
    r matches Ok(TagResult::Emit(Event::TweenSetEnd))
}

/// `[/tweenset]`: ends a tween sequence.
pub struct TweensetEndHandler;

impl TagHandler for TweensetEndHandler {
    fn execute(&self, ctx: &ExecutionContext<'_>) -> (r: Result<TagResult, Error>)
        ensures
            tweenset_end_outcome(ctx.instruction@, ctx.variables@, r),
    {
        Ok(TagResult::Emit(Event::TweenSetEnd))
    }
}

/// What `[lyevent]` gives: registers an event handler on layer `id`; the parameters it does not know are forwarded as they are.
pub open spec fn lyevent_outcome(ins: InstructionView, vars: StoreView, r: Result<TagResult, Error>) -> bool {
    {
        &&& r matches Ok(TagResult::Emit(Event::LayerEventHandler { id, event_type, mode, file, label, call, handler, penetration, extra_params }))
        &&& id@ == param_text(ins, "id"@)
        &&& event_type@ == param_text(ins, "type"@)
        &&& mode@ == param_text(ins, "mode"@)
        &&& opt_view(file) == param(ins, "file"@)
        &&& opt_view(label) == param(ins, "label"@)
        &&& call == param_flag(ins, "call"@, 0)
        &&& opt_view(handler) == param(ins, "handler"@)
        &&& penetration == param_flag(ins, "penetration"@, 0)
        &&& extra_params@ == params_except(ins.params, seq!["id"@, "type"@, "mode"@, "file"@, "label"@, "call"@, "handler"@, "penetration"@])
    }
}

/// `[lyevent]`: registers an event handler on layer `id`; the parameters it does not know are forwarded as they are.
pub struct LyeventHandler;

impl TagHandler for LyeventHandler {
    fn execute(&self, ctx: &ExecutionContext<'_>) -> (r: Result<TagResult, Error>)
        ensures
            lyevent_outcome(ctx.instruction@, ctx.variables@, r),
    {
        let id = ctx.instruction.get_string("id");
        let event_type = ctx.instruction.get_string("type");
        let mode = ctx.instruction.get_string("mode");
        let file = ctx.instruction.get_opt("file");
        let label = ctx.instruction.get_opt("label");
        let call = ctx.instruction.get_flag("call", 0);
        let handler = ctx.instruction.get_opt("handler");
        let penetration = ctx.instruction.get_flag("penetration", 0);
        let known_keys: Vec<&str> = vec!["id", "type", "mode", "file", "label", "call", "handler", "penetration"];
        assert(known_keys@.map_values(|k: &str| k@) =~= seq!["id"@, "type"@, "mode"@, "file"@, "label"@, "call"@, "handler"@, "penetration"@]);
        let extra_params = ctx.instruction.params_except(known_keys.as_slice());
        Ok(TagResult::Emit(Event::LayerEventHandler { id, event_type, mode, file, label, call, handler, penetration, extra_params }))
    }
}

/// What `[lyrename]` gives: renames layer `id` to `to`.
pub open spec fn lyrename_outcome(ins: InstructionView, vars: StoreView, r: Result<TagResult, Error>) -> bool {
    {
        &&& r matches Ok(TagResult::Emit(Event::LayerRename { id, to }))
        &&& id@ == param_text(ins, "id"@)
        &&& to@ == param_text(ins, "to"@)
    }
}

/// `[lyrename]`: renames layer `id` to `to`.
pub struct LyrenameHandler;

impl TagHandler for LyrenameHandler {
    fn execute(&self, ctx: &ExecutionContext<'_>) -> (r: Result<TagResult, Error>)
        ensures
            lyrename_outcome(ctx.instruction@, ctx.variables@, r),
    {
        let id = ctx.instruction.get_string("id");
        let to = ctx.instruction.get_string("to");
        Ok(TagResult::Emit(Event::LayerRename { id, to }))
    }
}

/// What `[lyedit]` gives: edits layer `id`.
pub open spec fn lyedit_outcome(ins: InstructionView, vars: StoreView, r: Result<TagResult, Error>) -> bool {
    {
        &&& r matches Ok(TagResult::Emit(Event::LayerEdit { id, mode, color, file, left, top }))
        &&& id@ == param_text(ins, "id"@)
        &&& mode@ == param_text(ins, "mode"@)
        &&& opt_view(color) == param(ins, "color"@)
        &&& opt_view(file) == param(ins, "file"@)
        &&& left == param_i32(ins, "left"@)
        &&& top == param_i32(ins, "top"@)
    }
}

/// `[lyedit]`: edits layer `id`.
pub struct LyeditHandler;

impl TagHandler for LyeditHandler {
    fn execute(&self, ctx: &ExecutionContext<'_>) -> (r: Result<TagResult, Error>)
        ensures
            lyedit_outcome(ctx.instruction@, ctx.variables@, r),
    {
        let id = ctx.instruction.get_string("id");
        let mode = ctx.instruction.get_string("mode");
        let color = ctx.instruction.get_opt("color");
        let file = ctx.instruction.get_opt("file");
        let left = ctx.instruction.get_i32("left");
        let top = ctx.instruction.get_i32("top");
        Ok(TagResult::Emit(Event::LayerEdit { id, mode, color, file, left, top }))
    }
}

/// What `[lydrag]` gives: makes layer `id` draggable.
pub open spec fn lydrag_outcome(ins: InstructionView, vars: StoreView, r: Result<TagResult, Error>) -> bool {
    {
        &&& r matches Ok(TagResult::Emit(Event::LayerDrag { id }))
        &&& id@ == param_text(ins, "id"@)
    }
}

/// `[lydrag]`: makes layer `id` draggable.
pub struct LydragHandler;

impl TagHandler for LydragHandler {
    fn execute(&self, ctx: &ExecutionContext<'_>) -> (r: Result<TagResult, Error>)
        ensures
            lydrag_outcome(ctx.instruction@, ctx.variables@, r),
    {
        let id = ctx.instruction.get_string("id");
        Ok(TagResult::Emit(Event::LayerDrag { id }))
    }
}

/// What `[anime]` gives: animates layer `id`; the layer properties present are passed on.
pub open spec fn anime_outcome(ins: InstructionView, vars: StoreView, r: Result<TagResult, Error>) -> bool {
    {
        &&& r matches Ok(TagResult::Emit(Event::Anime { id, mode, file, mask, time, loop_count, props }))
        &&& id@ == param_text(ins, "id"@)
        &&& mode@ == param_text(ins, "mode"@)
        &&& opt_view(file) == param(ins, "file"@)
        &&& opt_view(mask) == param(ins, "mask"@)
        &&& time == param_u64(ins, "time"@)
        &&& loop_count == param_i32(ins, "loop"@)
        &&& props@ == pick_params(ins, seq!["left"@, "top"@, "alpha"@, "anchorx"@, "anchory"@, "xscale"@, "yscale"@, "rotate"@, "reversex"@, "reversey"@, "clip"@, "layermode"@, "negative"@, "grayscale"@, "colormultiply"@, "visible"@])
    }
}

/// `[anime]`: animates layer `id`; the layer properties present are passed on.
pub struct AnimeHandler;

impl TagHandler for AnimeHandler {
    fn execute(&self, ctx: &ExecutionContext<'_>) -> (r: Result<TagResult, Error>)
        ensures
            anime_outcome(ctx.instruction@, ctx.variables@, r),
    {
        let id = ctx.instruction.get_string("id");
        let mode = ctx.instruction.get_string("mode");
        let file = ctx.instruction.get_opt("file");
        let mask = ctx.instruction.get_opt("mask");
        let time = ctx.instruction.get_u64("time");
        let loop_count = ctx.instruction.get_i32("loop");
        let picked_keys: Vec<&str> = vec!["left", "top", "alpha", "anchorx", "anchory", "xscale", "yscale", "rotate", "reversex", "reversey", "clip", "layermode", "negative", "grayscale", "colormultiply", "visible"];
        assert(picked_keys@.map_values(|k: &str| k@) =~= seq!["left"@, "top"@, "alpha"@, "anchorx"@, "anchory"@, "xscale"@, "yscale"@, "rotate"@, "reversex"@, "reversey"@, "clip"@, "layermode"@, "negative"@, "grayscale"@, "colormultiply"@, "visible"@]);
        let props = ctx.instruction.pick(picked_keys.as_slice());
        Ok(TagResult::Emit(Event::Anime { id, mode, file, mask, time, loop_count, props }))
    }
}

/// What `[video]` gives: plays a video.
pub open spec fn video_outcome(ins: InstructionView, vars: StoreView, r: Result<TagResult, Error>) -> bool {
    {
        &&& r matches Ok(TagResult::Emit(Event::VideoPlay { id, file, skip, loop_play }))
        &&& opt_view(id) == param(ins, "id"@)
        &&& file@ == param_text(ins, "file"@)
        &&& skip == param_flag(ins, "skip"@, 1)
        &&& loop_play == param_flag(ins, "loop"@, 0)
    }
}

/// `[video]`: plays a video.
pub struct VideoHandler;

impl TagHandler for VideoHandler {
    fn execute(&self, ctx: &ExecutionContext<'_>) -> (r: Result<TagResult, Error>)
        ensures
            video_outcome(ctx.instruction@, ctx.variables@, r),
    {
        let id = ctx.instruction.get_opt("id");
        let file = ctx.instruction.get_string("file");
        let skip = ctx.instruction.get_flag("skip", 1);
        let loop_play = ctx.instruction.get_flag("loop", 0);
        Ok(TagResult::Emit(Event::VideoPlay { id, file, skip, loop_play }))
    }
}

/// What `[setonvideofinish]` gives: registers what runs when the video finishes.
pub open spec fn set_on_videofinish_outcome(ins: InstructionView, vars: StoreView, r: Result<TagResult, Error>) -> bool {
    {
        &&& r matches Ok(TagResult::Emit(Event::VideoFinishHandler { file, label, call, handler }))
        &&& opt_view(file) == param(ins, "file"@)
        &&& opt_view(label) == param(ins, "label"@)
        &&& call == param_flag(ins, "call"@, 0)
        &&& opt_view(handler) == param(ins, "handler"@)
    }
}

/// `[setonvideofinish]`: registers what runs when the video finishes.
pub struct SetOnVideofinishHandler;

impl TagHandler for SetOnVideofinishHandler {
    fn execute(&self, ctx: &ExecutionContext<'_>) -> (r: Result<TagResult, Error>)
        ensures
            set_on_videofinish_outcome(ctx.instruction@, ctx.variables@, r),
    {
        let file = ctx.instruction.get_opt("file");
        let label = ctx.instruction.get_opt("label");
        let call = ctx.instruction.get_flag("call", 0);
        let handler = ctx.instruction.get_opt("handler");
        Ok(TagResult::Emit(Event::VideoFinishHandler { file, label, call, handler }))
    }
}

/// What `[delonvideofinish]` gives: removes what runs when the video finishes.
pub open spec fn del_on_videofinish_outcome(ins: InstructionView, vars: StoreView, r: Result<TagResult, Error>) -> bool {
    r matches Ok(TagResult::Emit(Event::VideoFinishHandlerDel))
}

/// `[delonvideofinish]`: removes what runs when the video finishes.
pub struct DelOnVideofinishHandler;

impl TagHandler for DelOnVideofinishHandler {
    fn execute(&self, ctx: &ExecutionContext<'_>) -> (r: Result<TagResult, Error>)
        ensures
            del_on_videofinish_outcome(ctx.instruction@, ctx.variables@, r),
    {
        Ok(TagResult::Emit(Event::VideoFinishHandlerDel))
    }
}

/// What `[trans]` gives: a screen transition.
pub open spec fn trans_outcome(ins: InstructionView, vars: StoreView, r: Result<TagResult, Error>) -> bool {
    {
        &&& r matches Ok(TagResult::Emit(Event::Trans { trans_type, time, rule, vague, input }))
        &&& trans_type == or_i32(param_i32(ins, "type"@), 1)
        &&& time == param_u64(ins, "time"@)
        &&& opt_view(rule) == param(ins, "rule"@)
        &&& vague == param_i32(ins, "vague"@)
        &&& input == or_i32(param_i32(ins, "input"@), 1)
    }
}

/// `[trans]`: a screen transition.
pub struct TransHandler;

impl TagHandler for TransHandler {
    fn execute(&self, ctx: &ExecutionContext<'_>) -> (r: Result<TagResult, Error>)
        ensures
            trans_outcome(ctx.instruction@, ctx.variables@, r),
    {
        let trans_type = ctx.instruction.get_i32_or("type", 1);
        let time = ctx.instruction.get_u64("time");
        let rule = ctx.instruction.get_opt("rule");
        let vague = ctx.instruction.get_i32("vague");
        let input = ctx.instruction.get_i32_or("input", 1);
        Ok(TagResult::Emit(Event::Trans { trans_type, time, rule, vague, input }))
    }
}

/// What `[flip]` gives: shows the changes at once.
pub open spec fn flip_outcome(ins: InstructionView, vars: StoreView, r: Result<TagResult, Error>) -> bool {
    r matches Ok(TagResult::Emit(Event::Flip))
}

/// `[flip]`: shows the changes at once.
pub struct FlipHandler;

impl TagHandler for FlipHandler {
    fn execute(&self, ctx: &ExecutionContext<'_>) -> (r: Result<TagResult, Error>)
        ensures
            flip_outcome(ctx.instruction@, ctx.variables@, r),
    {
        Ok(TagResult::Emit(Event::Flip))
    }
}

/// What `[takess]` gives: takes a screenshot.
pub open spec fn takess_outcome(ins: InstructionView, vars: StoreView, r: Result<TagResult, Error>) -> bool {
    r matches Ok(TagResult::Emit(Event::TakeScreenshot))
}

/// `[takess]`: takes a screenshot.
pub struct TakessHandler;

impl TagHandler for TakessHandler {
    fn execute(&self, ctx: &ExecutionContext<'_>) -> (r: Result<TagResult, Error>)
        ensures
            takess_outcome(ctx.instruction@, ctx.variables@, r),
    {
        Ok(TagResult::Emit(Event::TakeScreenshot))
    }
}

/// What `[savess]` gives: saves the screenshot to `file`.
pub open spec fn savess_outcome(ins: InstructionView, vars: StoreView, r: Result<TagResult, Error>) -> bool {
    {
        &&& r matches Ok(TagResult::Emit(Event::SaveScreenshot { file, width, height }))
        &&& file@ == param_text(ins, "file"@)
        &&& width == param_u32(ins, "width"@)
        &&& height == param_u32(ins, "height"@)
    }
}

/// `[savess]`: saves the screenshot to `file`.
pub struct SavessHandler;

impl TagHandler for SavessHandler {
    fn execute(&self, ctx: &ExecutionContext<'_>) -> (r: Result<TagResult, Error>)
        ensures
            savess_outcome(ctx.instruction@, ctx.variables@, r),
    {
        let file = ctx.instruction.get_string("file");
        let width = ctx.instruction.get_u32("width");
        let height = ctx.instruction.get_u32("height");
        Ok(TagResult::Emit(Event::SaveScreenshot { file, width, height }))
    }
}

/// What `[rclick]` gives: right-click settings.
pub open spec fn rclick_outcome(ins: InstructionView, vars: StoreView, r: Result<TagResult, Error>) -> bool {
    {
        &&& r matches Ok(TagResult::Emit(Event::RightClickConfig { allow, file }))
        &&& allow == param_flag(ins, "allow"@, 1)
        &&& opt_view(file) == param(ins, "file"@)
    }
}

/// `[rclick]`: right-click settings.
pub struct RclickHandler;

impl TagHandler for RclickHandler {
    fn execute(&self, ctx: &ExecutionContext<'_>) -> (r: Result<TagResult, Error>)
        ensures
            rclick_outcome(ctx.instruction@, ctx.variables@, r),
    {
        let allow = ctx.instruction.get_flag("allow", 1);
        let file = ctx.instruction.get_opt("file");
        Ok(TagResult::Emit(Event::RightClickConfig { allow, file }))
    }
}

/// What `[macrodel]` gives: deletes the macros of `file`.
pub open spec fn macrodel_outcome(ins: InstructionView, vars: StoreView, r: Result<TagResult, Error>) -> bool {
    {
        &&& r matches Ok(TagResult::Emit(Event::MacroDel { file }))
        &&& file@ == param_text(ins, "file"@)
    }
}

/// `[macrodel]`: deletes the macros of `file`.
pub struct MacrodelHandler;

impl TagHandler for MacrodelHandler {
    fn execute(&self, ctx: &ExecutionContext<'_>) -> (r: Result<TagResult, Error>)
        ensures
            macrodel_outcome(ctx.instruction@, ctx.variables@, r),
    {
        let file = ctx.instruction.get_string("file");
        Ok(TagResult::Emit(Event::MacroDel { file }))
    }
}

/// Whether `tag` names a handler of this module.
pub open spec fn is_layer_tag(tag: Seq<char>) -> bool {
    tag == "lytween"@
    || tag == "lytweendel"@
    || tag == "tweenset"@
    || tag == "/tweenset"@
    || tag == "lyevent"@
    || tag == "lyrename"@
    || tag == "lyedit"@
    || tag == "lydrag"@
    || tag == "anime"@
    || tag == "video"@
    || tag == "setonvideofinish"@
    || tag == "delonvideofinish"@
    || tag == "trans"@
    || tag == "flip"@
    || tag == "takess"@
    || tag == "savess"@
    || tag == "rclick"@
    || tag == "macrodel"@
}

/// What the handler of this module named `tag` gives.
pub open spec fn layer_outcome(tag: Seq<char>, ins: InstructionView, vars: StoreView, r: Result<TagResult, Error>) -> bool {
    if tag == "lytween"@ {
        lytween_outcome(ins, vars, r)
    } else if tag == "lytweendel"@ {
        lytweendel_outcome(ins, vars, r)
    } else if tag == "tweenset"@ {
        tweenset_outcome(ins, vars, r)
    } else if tag == "/tweenset"@ {
        tweenset_end_outcome(ins, vars, r)
    } else if tag == "lyevent"@ {
        lyevent_outcome(ins, vars, r)
    } else if tag == "lyrename"@ {
        lyrename_outcome(ins, vars, r)
    } else if tag == "lyedit"@ {
        lyedit_outcome(ins, vars, r)
    } else if tag == "lydrag"@ {
        lydrag_outcome(ins, vars, r)
    } else if tag == "anime"@ {
        anime_outcome(ins, vars, r)
    } else if tag == "video"@ {
        video_outcome(ins, vars, r)
    } else if tag == "setonvideofinish"@ {
        set_on_videofinish_outcome(ins, vars, r)
    } else if tag == "delonvideofinish"@ {
        del_on_videofinish_outcome(ins, vars, r)
    } else if tag == "trans"@ {
        trans_outcome(ins, vars, r)
    } else if tag == "flip"@ {
        flip_outcome(ins, vars, r)
    } else if tag == "takess"@ {
        takess_outcome(ins, vars, r)
    } else if tag == "savess"@ {
        savess_outcome(ins, vars, r)
    } else if tag == "rclick"@ {
        rclick_outcome(ins, vars, r)
    } else if tag == "macrodel"@ {
        macrodel_outcome(ins, vars, r)
    } else {
        false
    }
}

/// Runs the handler of this module named `tag`; `None` when the module
/// has none by that name.
pub fn dispatch(tag: &str, ctx: &ExecutionContext<'_>) -> (r: Option<Result<TagResult, Error>>)
    ensures
        match r {
            Some(x) => layer_outcome(tag@, ctx.instruction@, ctx.variables@, x),
            None => !is_layer_tag(tag@),
        },
{
    if str_eq(tag, "lytween") {
        Some(LytweenHandler.execute(ctx))
    } else if str_eq(tag, "lytweendel") {
        Some(LytweendelHandler.execute(ctx))
    } else if str_eq(tag, "tweenset") {
        Some(TweensetHandler.execute(ctx))
    } else if str_eq(tag, "/tweenset") {
        Some(TweensetEndHandler.execute(ctx))
    } else if str_eq(tag, "lyevent") {
        Some(LyeventHandler.execute(ctx))
    } else if str_eq(tag, "lyrename") {
        Some(LyrenameHandler.execute(ctx))
    } else if str_eq(tag, "lyedit") {
        Some(LyeditHandler.execute(ctx))
    } else if str_eq(tag, "lydrag") {
        Some(LydragHandler.execute(ctx))
    } else if str_eq(tag, "anime") {
        Some(AnimeHandler.execute(ctx))
    } else if str_eq(tag, "video") {
        Some(VideoHandler.execute(ctx))
    } else if str_eq(tag, "setonvideofinish") {
        Some(SetOnVideofinishHandler.execute(ctx))
    } else if str_eq(tag, "delonvideofinish") {
        Some(DelOnVideofinishHandler.execute(ctx))
    } else if str_eq(tag, "trans") {
        Some(TransHandler.execute(ctx))
    } else if str_eq(tag, "flip") {
        Some(FlipHandler.execute(ctx))
    } else if str_eq(tag, "takess") {
        Some(TakessHandler.execute(ctx))
    } else if str_eq(tag, "savess") {
        Some(SavessHandler.execute(ctx))
    } else if str_eq(tag, "rclick") {
        Some(RclickHandler.execute(ctx))
    } else if str_eq(tag, "macrodel") {
        Some(MacrodelHandler.execute(ctx))
    } else {
        None
    }
}

// ---------------------------------------------------------------------
// Laws
// ---------------------------------------------------------------------

/// A `[lytween]` tweens property `param` of layer `id`, starting at the
/// `from` parameter and ending at the `to` parameter, over the `time`
/// parameter in milliseconds when it is a number.
pub proof fn law_lytween_goes_from_to(ins: InstructionView, vars: StoreView, r: Result<TagResult, Error>)
    requires
        lytween_outcome(ins, vars, r),
    ensures
        r matches Ok(TagResult::Emit(Event::LayerTween { id, param: p, from, to, time, .. })) && {
            &&& Some(id@) == crate::strmap::lookup(ins.params, "id"@) || (id@.len() == 0 && crate::strmap::lookup(ins.params, "id"@) is None)
            &&& Some(p@) == crate::strmap::lookup(ins.params, "param"@) || (p@.len() == 0 && crate::strmap::lookup(ins.params, "param"@) is None)
            &&& opt_view(from) == crate::strmap::lookup(ins.params, "from"@)
            &&& opt_view(to) == crate::strmap::lookup(ins.params, "to"@)
            &&& (crate::strmap::lookup(ins.params, "time"@) is None ==> time is None)
        },
{
}

/// A `[trans]` without `type` or `input` uses transition type 1 and input
/// mode 1; a `[video]` without `skip` can be skipped and without `loop`
/// plays once.
pub proof fn law_trans_and_video_defaults(ins: InstructionView, vars: StoreView, r1: Result<TagResult, Error>, r2: Result<TagResult, Error>)
    requires
        trans_outcome(ins, vars, r1),
        video_outcome(ins, vars, r2),
    ensures
        crate::strmap::lookup(ins.params, "type"@) is None ==> (r1 matches Ok(TagResult::Emit(Event::Trans { trans_type, .. })) && trans_type == 1),
        crate::strmap::lookup(ins.params, "input"@) is None ==> (r1 matches Ok(TagResult::Emit(Event::Trans { input, .. })) && input == 1),
        crate::strmap::lookup(ins.params, "skip"@) is None ==> (r2 matches Ok(TagResult::Emit(Event::VideoPlay { skip, .. })) && skip),
        crate::strmap::lookup(ins.params, "loop"@) is None ==> (r2 matches Ok(TagResult::Emit(Event::VideoPlay { loop_play, .. })) && !loop_play),
{
}

} // verus!
