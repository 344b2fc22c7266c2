//! Sound tags: background music, sound effects and voices.
use crate::error::Error;
use crate::event::Event;
use crate::tags::{ExecutionContext, TagHandler, TagResult, param, param_text, opt_view, param_i32, param_u64, or_u64, param_flag, resolved_i32};
use crate::text::str_eq;
use crate::variable::{StoreView, value_text};
use crate::expression::resolve_spec;
use crate::script::InstructionView;
use vstd::prelude::*;

verus! {

/// What `[splay]` gives: plays background music.
pub open spec fn splay_outcome(ins: InstructionView, vars: StoreView, r: Result<TagResult, Error>) -> bool {
    match resolve_spec(vars, param_text(ins, "file"@)) {
        Err(msg) => r matches Err(Error::ExpressionError(e)) && e@ == msg,
        Ok(v0) => {
            &&& r matches Ok(TagResult::Emit(Event::BgmPlay { file, loop_play, gain, pan, fade_time }))
            &&& file@ == value_text(v0)
            &&& loop_play == param_flag(ins, "loop"@, 1)
            &&& gain == param_i32(ins, "gain"@)
            &&& pan == param_i32(ins, "pan"@)
            &&& fade_time == param_u64(ins, "time"@)
        },
    }
}

/// `[splay]`: plays background music.
pub struct SplayHandler;

impl TagHandler for SplayHandler {
    fn execute(&self, ctx: &ExecutionContext<'_>) -> (r: Result<TagResult, Error>)
        ensures
            splay_outcome(ctx.instruction@, ctx.variables@, r),
    {
        let file = match ctx.resolve_param_str("file") {
            Ok(s) => s,
            Err(e) => return Err(e),
        };
        let loop_play = ctx.instruction.get_flag("loop", 1);
        let gain = ctx.instruction.get_i32("gain");
        let pan = ctx.instruction.get_i32("pan");
        let fade_time = ctx.instruction.get_u64("time");
        Ok(TagResult::Emit(Event::BgmPlay { file, loop_play, gain, pan, fade_time }))
    }
}

/// What `[sstop]` gives: stops the background music.
pub open spec fn sstop_outcome(ins: InstructionView, vars: StoreView, r: Result<TagResult, Error>) -> bool {
    {
        &&& r matches Ok(TagResult::Emit(Event::BgmStop { fade_time }))
        &&& fade_time == param_u64(ins, "time"@)
    }
}

/// `[sstop]`: stops the background music.
pub struct SstopHandler;

impl TagHandler for SstopHandler {
    fn execute(&self, ctx: &ExecutionContext<'_>) -> (r: Result<TagResult, Error>)
        ensures
            sstop_outcome(ctx.instruction@, ctx.variables@, r),
    {
        let fade_time = ctx.instruction.get_u64("time");
        Ok(TagResult::Emit(Event::BgmStop { fade_time }))
    }
}

/// What `[sfade]` gives: fades the background music to `gain`.
pub open spec fn sfade_outcome(ins: InstructionView, vars: StoreView, r: Result<TagResult, Error>) -> bool {
    match resolve_spec(vars, param_text(ins, "gain"@)) {
        Err(msg) => r matches Err(Error::ExpressionError(e)) && e@ == msg,
        Ok(v0) => {
            &&& r matches Ok(TagResult::Emit(Event::BgmFade { gain, time }))
            &&& gain == resolved_i32(v0)
            &&& time == or_u64(param_u64(ins, "time"@), 0)
        },
    }
}

/// `[sfade]`: fades the background music to `gain`.
pub struct SfadeHandler;

impl TagHandler for SfadeHandler {
    fn execute(&self, ctx: &ExecutionContext<'_>) -> (r: Result<TagResult, Error>)
        ensures
            sfade_outcome(ctx.instruction@, ctx.variables@, r),
    {
        let gain = match ctx.resolve_param_i32("gain") {
            Ok(n) => n,
            Err(e) => return Err(e),
        };
        let time = ctx.instruction.get_u64_or("time", 0);
        Ok(TagResult::Emit(Event::BgmFade { gain, time }))
    }
}

/// What `[span]` gives: pans the background music.
pub open spec fn span_outcome(ins: InstructionView, vars: StoreView, r: Result<TagResult, Error>) -> bool {
    match resolve_spec(vars, param_text(ins, "pan"@)) {
        Err(msg) => r matches Err(Error::ExpressionError(e)) && e@ == msg,
        Ok(v0) => {
            &&& r matches Ok(TagResult::Emit(Event::BgmPan { pan }))
            &&& pan == resolved_i32(v0)
        },
    }
}

/// `[span]`: pans the background music.
pub struct SpanHandler;

impl TagHandler for SpanHandler {
    fn execute(&self, ctx: &ExecutionContext<'_>) -> (r: Result<TagResult, Error>)
        ensures
            span_outcome(ctx.instruction@, ctx.variables@, r),
    {
        let pan = match ctx.resolve_param_i32("pan") {
            Ok(n) => n,
            Err(e) => return Err(e),
        };
        Ok(TagResult::Emit(Event::BgmPan { pan }))
    }
}

/// What `[sxfade]` gives: cross-fades to another music file.
pub open spec fn sxfade_outcome(ins: InstructionView, vars: StoreView, r: Result<TagResult, Error>) -> bool {
    match resolve_spec(vars, param_text(ins, "file"@)) {
        Err(msg) => r matches Err(Error::ExpressionError(e)) && e@ == msg,
        Ok(v0) => {
            &&& r matches Ok(TagResult::Emit(Event::BgmCrossFade { file, loop_play, gain, pan, time }))
            &&& file@ == value_text(v0)
            &&& loop_play == param_flag(ins, "loop"@, 1)
            &&& gain == param_i32(ins, "gain"@)
            &&& pan == param_i32(ins, "pan"@)
            &&& time == or_u64(param_u64(ins, "time"@), 0)
        },
    }
}

/// `[sxfade]`: cross-fades to another music file.
pub struct SxfadeHandler;

impl TagHandler for SxfadeHandler {
    fn execute(&self, ctx: &ExecutionContext<'_>) -> (r: Result<TagResult, Error>)
        ensures
            sxfade_outcome(ctx.instruction@, ctx.variables@, r),
    {
        let file = match ctx.resolve_param_str("file") {
            Ok(s) => s,
            Err(e) => return Err(e),
        };
        let loop_play = ctx.instruction.get_flag("loop", 1);
        let gain = ctx.instruction.get_i32("gain");
        let pan = ctx.instruction.get_i32("pan");
        let time = ctx.instruction.get_u64_or("time", 0);
        Ok(TagResult::Emit(Event::BgmCrossFade { file, loop_play, gain, pan, time }))
    }
}

/// What `[seplay]` gives: plays a sound effect.
pub open spec fn seplay_outcome(ins: InstructionView, vars: StoreView, r: Result<TagResult, Error>) -> bool {
    match resolve_spec(vars, param_text(ins, "id"@)) {
        Err(msg) => r matches Err(Error::ExpressionError(e)) && e@ == msg,
        Ok(v0) => match resolve_spec(vars, param_text(ins, "file"@)) {
            Err(msg) => r matches Err(Error::ExpressionError(e)) && e@ == msg,
            Ok(v1) => {
                &&& r matches Ok(TagResult::Emit(Event::SePlay { id, file, loop_play, gain, pan, fade_time, skippable }))
                &&& id@ == value_text(v0)
                &&& file@ == value_text(v1)
                &&& loop_play == param_flag(ins, "loop"@, 0)
                &&& gain == param_i32(ins, "gain"@)
                &&& pan == param_i32(ins, "pan"@)
                &&& fade_time == param_u64(ins, "time"@)
                &&& skippable == param_flag(ins, "skippable"@, 0)
            },
        },
    }
}

/// `[seplay]`: plays a sound effect.
pub struct SeplayHandler;

impl TagHandler for SeplayHandler {
    fn execute(&self, ctx: &ExecutionContext<'_>) -> (r: Result<TagResult, Error>)
        ensures
            seplay_outcome(ctx.instruction@, ctx.variables@, r),
    {
        let id = match ctx.resolve_param_str("id") {
            Ok(s) => s,
            Err(e) => return Err(e),
        };
        let file = match ctx.resolve_param_str("file") {
            Ok(s) => s,
            Err(e) => return Err(e),
        };
        let loop_play = ctx.instruction.get_flag("loop", 0);
        let gain = ctx.instruction.get_i32("gain");
        let pan = ctx.instruction.get_i32("pan");
        let fade_time = ctx.instruction.get_u64("time");
        let skippable = ctx.instruction.get_flag("skippable", 0);
        Ok(TagResult::Emit(Event::SePlay { id, file, loop_play, gain, pan, fade_time, skippable }))
    }
}

/// What `[sestop]` gives: stops a sound effect.
pub open spec fn sestop_outcome(ins: InstructionView, vars: StoreView, r: Result<TagResult, Error>) -> bool {
    match resolve_spec(vars, param_text(ins, "id"@)) {
        Err(msg) => r matches Err(Error::ExpressionError(e)) && e@ == msg,
        Ok(v0) => {
            &&& r matches Ok(TagResult::Emit(Event::SeStop { id, fade_time }))
            &&& id@ == value_text(v0)
            &&& fade_time == param_u64(ins, "time"@)
        },
    }
}

/// `[sestop]`: stops a sound effect.
pub struct SestopHandler;

impl TagHandler for SestopHandler {
    fn execute(&self, ctx: &ExecutionContext<'_>) -> (r: Result<TagResult, Error>)
        ensures
            sestop_outcome(ctx.instruction@, ctx.variables@, r),
    {
        let id = match ctx.resolve_param_str("id") {
            Ok(s) => s,
            Err(e) => return Err(e),
        };
        let fade_time = ctx.instruction.get_u64("time");
        Ok(TagResult::Emit(Event::SeStop { id, fade_time }))
    }
}

/// What `[sefade]` gives: fades a sound effect to `gain`.
pub open spec fn sefade_outcome(ins: InstructionView, vars: StoreView, r: Result<TagResult, Error>) -> bool {
    match resolve_spec(vars, param_text(ins, "id"@)) {
        Err(msg) => r matches Err(Error::ExpressionError(e)) && e@ == msg,
        Ok(v0) => match resolve_spec(vars, param_text(ins, "gain"@)) {
            Err(msg) => r matches Err(Error::ExpressionError(e)) && e@ == msg,
            Ok(v1) => {
                &&& r matches Ok(TagResult::Emit(Event::SeFade { id, gain, time }))
                &&& id@ == value_text(v0)
                &&& gain == resolved_i32(v1)
                &&& time == or_u64(param_u64(ins, "time"@), 0)
            },
        },
    }
}

/// `[sefade]`: fades a sound effect to `gain`.
pub struct SefadeHandler;

impl TagHandler for SefadeHandler {
    fn execute(&self, ctx: &ExecutionContext<'_>) -> (r: Result<TagResult, Error>)
        ensures
            sefade_outcome(ctx.instruction@, ctx.variables@, r),
    {
        let id = match ctx.resolve_param_str("id") {
            Ok(s) => s,
            Err(e) => return Err(e),
        };
        let gain = match ctx.resolve_param_i32("gain") {
            Ok(n) => n,
            Err(e) => return Err(e),
        };
        let time = ctx.instruction.get_u64_or("time", 0);
        Ok(TagResult::Emit(Event::SeFade { id, gain, time }))
    }
}

/// What `[sepan]` gives: pans a sound effect.
pub open spec fn sepan_outcome(ins: InstructionView, vars: StoreView, r: Result<TagResult, Error>) -> bool {
    match resolve_spec(vars, param_text(ins, "id"@)) {
        Err(msg) => r matches Err(Error::ExpressionError(e)) && e@ == msg,
        Ok(v0) => match resolve_spec(vars, param_text(ins, "pan"@)) {
            Err(msg) => r matches Err(Error::ExpressionError(e)) && e@ == msg,
            Ok(v1) => {
                &&& r matches Ok(TagResult::Emit(Event::SePan { id, pan }))
                &&& id@ == value_text(v0)
                &&& pan == resolved_i32(v1)
            },
        },
    }
}

/// `[sepan]`: pans a sound effect.
pub struct SepanHandler;

impl TagHandler for SepanHandler {
    fn execute(&self, ctx: &ExecutionContext<'_>) -> (r: Result<TagResult, Error>)
        ensures
            sepan_outcome(ctx.instruction@, ctx.variables@, r),
    {
        let id = match ctx.resolve_param_str("id") {
            Ok(s) => s,
            Err(e) => return Err(e),
        };
        let pan = match ctx.resolve_param_i32("pan") {
            Ok(n) => n,
            Err(e) => return Err(e),
        };
        Ok(TagResult::Emit(Event::SePan { id, pan }))
    }
}

/// What `[voice]` gives: plays a voice file.
pub open spec fn voice_outcome(ins: InstructionView, vars: StoreView, r: Result<TagResult, Error>) -> bool {
    match resolve_spec(vars, param_text(ins, "file"@)) {
        Err(msg) => r matches Err(Error::ExpressionError(e)) && e@ == msg,
        Ok(v0) => {
            &&& r matches Ok(TagResult::Emit(Event::VoicePlay { file, gain, pan, fade_time }))
            &&& file@ == value_text(v0)
            &&& gain == param_i32(ins, "gain"@)
            &&& pan == param_i32(ins, "pan"@)
            &&& fade_time == param_u64(ins, "time"@)
        },
    }
}

/// `[voice]`: plays a voice file.
pub struct VoiceHandler;

impl TagHandler for VoiceHandler {
    fn execute(&self, ctx: &ExecutionContext<'_>) -> (r: Result<TagResult, Error>)
        ensures
            voice_outcome(ctx.instruction@, ctx.variables@, r),
    {
        let file = match ctx.resolve_param_str("file") {
            Ok(s) => s,
            Err(e) => return Err(e),
        };
        let gain = ctx.instruction.get_i32("gain");
        let pan = ctx.instruction.get_i32("pan");
        let fade_time = ctx.instruction.get_u64("time");
        Ok(TagResult::Emit(Event::VoicePlay { file, gain, pan, fade_time }))
    }
}

/// What `[setonsoundfinish]` gives: registers what runs when sound `id` finishes.
pub open spec fn set_on_sound_finish_outcome(ins: InstructionView, vars: StoreView, r: Result<TagResult, Error>) -> bool {
    match resolve_spec(vars, param_text(ins, "id"@)) {
        Err(msg) => r matches Err(Error::ExpressionError(e)) && e@ == msg,
        Ok(v0) => {
            &&& r matches Ok(TagResult::Emit(Event::SoundFinishHandler { id, file, label, call, handler }))
            &&& id@ == value_text(v0)
            &&& opt_view(file) == param(ins, "file"@)
            &&& opt_view(label) == param(ins, "label"@)
            &&& call == param_flag(ins, "call"@, 0)
            &&& opt_view(handler) == param(ins, "handler"@)
        },
    }
}

/// `[setonsoundfinish]`: registers what runs when sound `id` finishes.
pub struct SetOnSoundFinishHandler;

impl TagHandler for SetOnSoundFinishHandler {
    fn execute(&self, ctx: &ExecutionContext<'_>) -> (r: Result<TagResult, Error>)
        ensures
            set_on_sound_finish_outcome(ctx.instruction@, ctx.variables@, r),
    {
        let id = match ctx.resolve_param_str("id") {
            Ok(s) => s,
            Err(e) => return Err(e),
        };
        let file = ctx.instruction.get_opt("file");
        let label = ctx.instruction.get_opt("label");
        let call = ctx.instruction.get_flag("call", 0);
        let handler = ctx.instruction.get_opt("handler");
        Ok(TagResult::Emit(Event::SoundFinishHandler { id, file, label, call, handler }))
    }
}

/// What `[delonsoundfinish]` gives: removes what runs when sound `id` finishes.
pub open spec fn del_on_sound_finish_outcome(ins: InstructionView, vars: StoreView, r: Result<TagResult, Error>) -> bool {
    match resolve_spec(vars, param_text(ins, "id"@)) {
        Err(msg) => r matches Err(Error::ExpressionError(e)) && e@ == msg,
        Ok(v0) => {
            &&& r matches Ok(TagResult::Emit(Event::SoundFinishHandlerDel { id }))
            &&& id@ == value_text(v0)
        },
    }
}

/// `[delonsoundfinish]`: removes what runs when sound `id` finishes.
pub struct DelOnSoundFinishHandler;

impl TagHandler for DelOnSoundFinishHandler {
    fn execute(&self, ctx: &ExecutionContext<'_>) -> (r: Result<TagResult, Error>)
        ensures
            del_on_sound_finish_outcome(ctx.instruction@, ctx.variables@, r),
    {
        let id = match ctx.resolve_param_str("id") {
            Ok(s) => s,
            Err(e) => return Err(e),
        };
        Ok(TagResult::Emit(Event::SoundFinishHandlerDel { id }))
    }
}

/// What `[sefadein]` gives: fades a sound effect in to full volume.
pub open spec fn sefadein_outcome(ins: InstructionView, vars: StoreView, r: Result<TagResult, Error>) -> bool {
    match resolve_spec(vars, param_text(ins, "id"@)) {
        Err(msg) => r matches Err(Error::ExpressionError(e)) && e@ == msg,
        Ok(v0) => {
            &&& r matches Ok(TagResult::Emit(Event::SeFade { id, gain, time }))
            &&& id@ == value_text(v0)
            &&& gain == 1000
            &&& time == or_u64(param_u64(ins, "time"@), 0)
        },
    }
}

/// `[sefadein]`: fades a sound effect in to full volume.
pub struct SefadeinHandler;

impl TagHandler for SefadeinHandler {
    fn execute(&self, ctx: &ExecutionContext<'_>) -> (r: Result<TagResult, Error>)
        ensures
            sefadein_outcome(ctx.instruction@, ctx.variables@, r),
    {
        let id = match ctx.resolve_param_str("id") {
            Ok(s) => s,
            Err(e) => return Err(e),
        };
        let gain: i32 = 1000;
        let time = ctx.instruction.get_u64_or("time", 0);
        Ok(TagResult::Emit(Event::SeFade { id, gain, time }))
    }
}

/// What `[sefadeout]` gives: fades a sound effect out.
pub open spec fn sefadeout_outcome(ins: InstructionView, vars: StoreView, r: Result<TagResult, Error>) -> bool {
    match resolve_spec(vars, param_text(ins, "id"@)) {
        Err(msg) => r matches Err(Error::ExpressionError(e)) && e@ == msg,
        Ok(v0) => {
            &&& r matches Ok(TagResult::Emit(Event::SeFade { id, gain, time }))
            &&& id@ == value_text(v0)
            &&& gain == 0
            &&& time == or_u64(param_u64(ins, "time"@), 0)
        },
    }
}

/// `[sefadeout]`: fades a sound effect out.
pub struct SefadeoutHandler;

impl TagHandler for SefadeoutHandler {
    fn execute(&self, ctx: &ExecutionContext<'_>) -> (r: Result<TagResult, Error>)
        ensures
            sefadeout_outcome(ctx.instruction@, ctx.variables@, r),
    {
        let id = match ctx.resolve_param_str("id") {
            Ok(s) => s,
            Err(e) => return Err(e),
        };
        let gain: i32 = 0;
        let time = ctx.instruction.get_u64_or("time", 0);
        Ok(TagResult::Emit(Event::SeFade { id, gain, time }))
    }
}

/// What `[sfadein]` gives: fades the background music in to full volume.
pub open spec fn sfadein_outcome(ins: InstructionView, vars: StoreView, r: Result<TagResult, Error>) -> bool {
    {
        &&& r matches Ok(TagResult::Emit(Event::BgmFade { gain, time }))
        &&& gain == 1000
        &&& time == or_u64(param_u64(ins, "time"@), 0)
    }
}

/// `[sfadein]`: fades the background music in to full volume.
pub struct SfadeinHandler;

impl TagHandler for SfadeinHandler {
    fn execute(&self, ctx: &ExecutionContext<'_>) -> (r: Result<TagResult, Error>)
        ensures
            sfadein_outcome(ctx.instruction@, ctx.variables@, r),
    {
        let gain: i32 = 1000;
        let time = ctx.instruction.get_u64_or("time", 0);
        Ok(TagResult::Emit(Event::BgmFade { gain, time }))
    }
}

/// What `[sfadeout]` gives: fades the background music out.
pub open spec fn sfadeout_outcome(ins: InstructionView, vars: StoreView, r: Result<TagResult, Error>) -> bool {
    {
        &&& r matches Ok(TagResult::Emit(Event::BgmFade { gain, time }))
        &&& gain == 0
        &&& time == or_u64(param_u64(ins, "time"@), 0)
    }
}

/// `[sfadeout]`: fades the background music out.
pub struct SfadeoutHandler;

impl TagHandler for SfadeoutHandler {
    fn execute(&self, ctx: &ExecutionContext<'_>) -> (r: Result<TagResult, Error>)
        ensures
            sfadeout_outcome(ctx.instruction@, ctx.variables@, r),
    {
        let gain: i32 = 0;
        let time = ctx.instruction.get_u64_or("time", 0);
        Ok(TagResult::Emit(Event::BgmFade { gain, time }))
    }
}

/// Whether `tag` names a handler of this module.
pub open spec fn is_sound_tag(tag: Seq<char>) -> bool {
    tag == "splay"@
    || tag == "sstop"@
    || tag == "sfade"@
    || tag == "span"@
    || tag == "sxfade"@
    || tag == "seplay"@
    || tag == "sestop"@
    || tag == "sefade"@
    || tag == "sepan"@
    || tag == "voice"@
    || tag == "setonsoundfinish"@
    || tag == "delonsoundfinish"@
    || tag == "sefadein"@
    || tag == "sefadeout"@
    || tag == "sfadein"@
    || tag == "sfadeout"@
}

/// What the handler of this module named `tag` gives.
pub open spec fn sound_outcome(tag: Seq<char>, ins: InstructionView, vars: StoreView, r: Result<TagResult, Error>) -> bool {
    if tag == "splay"@ {
        splay_outcome(ins, vars, r)
    } else if tag == "sstop"@ {
        sstop_outcome(ins, vars, r)
    } else if tag == "sfade"@ {
        sfade_outcome(ins, vars, r)
    } else if tag == "span"@ {
        span_outcome(ins, vars, r)
    } else if tag == "sxfade"@ {
        sxfade_outcome(ins, vars, r)
    } else if tag == "seplay"@ {
        seplay_outcome(ins, vars, r)
    } else if tag == "sestop"@ {
        sestop_outcome(ins, vars, r)
    } else if tag == "sefade"@ {
        sefade_outcome(ins, vars, r)
    } else if tag == "sepan"@ {
        sepan_outcome(ins, vars, r)
    } else if tag == "voice"@ {
        voice_outcome(ins, vars, r)
    } else if tag == "setonsoundfinish"@ {
        set_on_sound_finish_outcome(ins, vars, r)
    } else if tag == "delonsoundfinish"@ {
        del_on_sound_finish_outcome(ins, vars, r)
    } else if tag == "sefadein"@ {
        sefadein_outcome(ins, vars, r)
    } else if tag == "sefadeout"@ {
        sefadeout_outcome(ins, vars, r)
    } else if tag == "sfadein"@ {
        sfadein_outcome(ins, vars, r)
    } else if tag == "sfadeout"@ {
        sfadeout_outcome(ins, vars, r)
    } else {
        false
    }
}

/// Runs the handler of this module named `tag`; `None` when the module
/// has none by that name.
pub fn dispatch(tag: &str, ctx: &ExecutionContext<'_>) -> (r: Option<Result<TagResult, Error>>)
    ensures
        match r {
            Some(x) => sound_outcome(tag@, ctx.instruction@, ctx.variables@, x),
            None => !is_sound_tag(tag@),
        },
{
    if str_eq(tag, "splay") {
        Some(SplayHandler.execute(ctx))
    } else if str_eq(tag, "sstop") {
        Some(SstopHandler.execute(ctx))
    } else if str_eq(tag, "sfade") {
        Some(SfadeHandler.execute(ctx))
    } else if str_eq(tag, "span") {
        Some(SpanHandler.execute(ctx))
    } else if str_eq(tag, "sxfade") {
        Some(SxfadeHandler.execute(ctx))
    } else if str_eq(tag, "seplay") {
        Some(SeplayHandler.execute(ctx))
    } else if str_eq(tag, "sestop") {
        Some(SestopHandler.execute(ctx))
    } else if str_eq(tag, "sefade") {
        Some(SefadeHandler.execute(ctx))
    } else if str_eq(tag, "sepan") {
        Some(SepanHandler.execute(ctx))
    } else if str_eq(tag, "voice") {
        Some(VoiceHandler.execute(ctx))
    } else if str_eq(tag, "setonsoundfinish") {
        Some(SetOnSoundFinishHandler.execute(ctx))
    } else if str_eq(tag, "delonsoundfinish") {
        Some(DelOnSoundFinishHandler.execute(ctx))
    } else if str_eq(tag, "sefadein") {
        Some(SefadeinHandler.execute(ctx))
    } else if str_eq(tag, "sefadeout") {
        Some(SefadeoutHandler.execute(ctx))
    } else if str_eq(tag, "sfadein") {
        Some(SfadeinHandler.execute(ctx))
    } else if str_eq(tag, "sfadeout") {
        Some(SfadeoutHandler.execute(ctx))
    } else {
        None
    }
}

// ---------------------------------------------------------------------
// Laws
// ---------------------------------------------------------------------

/// Whether a sound loops, by its `loop` parameter: an integer loops when
/// it is not 0; with no `loop`, or one that is not an integer, the default
/// `music` (true for music, false for sound effects) holds.
pub open spec fn loops_by_param(ins: InstructionView, music: bool) -> bool {
    match crate::strmap::lookup(ins.params, "loop"@) {
        Some(v) => match crate::text::parse_signed(v, i32::MIN as int, i32::MAX as int) {
            Some(n) => n != 0,
            None => music,
        },
        None => music,
    }
}

/// Background music loops unless `loop` says otherwise: `[splay]` and
/// `[sxfade]` without a `loop` parameter loop; with `loop=0` they play
/// once.
pub proof fn law_music_loops_by_default(ins: InstructionView, vars: StoreView, r1: Result<TagResult, Error>, r2: Result<TagResult, Error>)
    requires
        splay_outcome(ins, vars, r1),
        sxfade_outcome(ins, vars, r2),
    ensures
        r1 is Ok ==> (r1 matches Ok(TagResult::Emit(Event::BgmPlay { loop_play, .. })) && loop_play == loops_by_param(ins, true)),
        r2 is Ok ==> (r2 matches Ok(TagResult::Emit(Event::BgmCrossFade { loop_play, .. })) && loop_play == loops_by_param(ins, true)),
        r1 is Ok && crate::strmap::lookup(ins.params, "loop"@) is None ==> (r1 matches Ok(TagResult::Emit(Event::BgmPlay { loop_play, .. })) && loop_play),
{
}

/// Sound effects play once unless `loop` says otherwise: `[seplay]`
/// without a `loop` parameter does not loop.
pub proof fn law_sound_effects_play_once_by_default(ins: InstructionView, vars: StoreView, r: Result<TagResult, Error>)
    requires
        seplay_outcome(ins, vars, r),
    ensures
        r is Ok ==> (r matches Ok(TagResult::Emit(Event::SePlay { loop_play, .. })) && loop_play == loops_by_param(ins, false)),
{
}

} // verus!
