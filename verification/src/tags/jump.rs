//! Tags that move to a label: `[jump]` and `[call]`; and `[tag]`, which runs
//! another tag named by a parameter.
use crate::error::Error;
use crate::script::{Instruction, InstructionView, Script};
use crate::strmap::lookup;
use crate::tags::{ExecutionContext, TagHandler, TagResult, param, param_text, params_except};
use crate::text::{chars_of, str_eq, string_from, to_owned_string};
use vstd::prelude::*;

verus! {

/// A label as written in a parameter, without its leading `*`.
pub open spec fn label_name(p: Seq<char>) -> Seq<char> {
    if p.len() > 0 && p[0] == '*' {
        p.drop_first()
    } else {
        p
    }
}

/// The `file` parameter when it is given and not empty.
pub open spec fn target_file(ins: InstructionView) -> Option<Seq<char>> {
    match param(ins, "file"@) {
        Some(f) => if f.len() > 0 {
            Some(f)
        } else {
            None
        },
        None => None,
    }
}

/// The line after `line` (the same line at the largest index).
pub open spec fn next_line(line: usize) -> usize {
    if line < usize::MAX {
        (line + 1) as usize
    } else {
        line
    }
}

/// The labels of the running script, when there is one.
pub open spec fn context_labels(script: Option<&Script>) -> Option<Seq<(Seq<char>, usize)>> {
    match script {
        Some(s) => Some(s.labels@),
        None => None,
    }
}

/// The `label` parameter without its leading `*`.
fn label_param(ins: &Instruction) -> (r: String)
    ensures
        r@ == label_name(param_text(ins@, "label"@)),
{
    let raw = chars_of(ins.get_string("label").as_str());
    if raw.len() > 0 && raw[0] == '*' {
        let r = string_from(raw.as_slice(), 1, raw.len());
        assert(raw@.subrange(1, raw@.len() as int) =~= raw@.drop_first());
        r
    } else {
        string_from(raw.as_slice(), 0, raw.len())
    }
}

/// What `[jump]` gives: a label in another file is reached as a call (the
/// host loads that file); a label of the running script is jumped to.
pub open spec fn jump_outcome(
    ins: InstructionView,
    script_name: Seq<char>,
    line: usize,
    labels: Option<Seq<(Seq<char>, usize)>>,
    r: Result<TagResult, Error>,
) -> bool {
    let label = label_name(param_text(ins, "label"@));
    if target_file(ins) is Some && target_file(ins) != Some(script_name) {
        &&& r matches Ok(TagResult::Call { file: Some(f), label: l, return_line, return_script })
        &&& Some(f@) == target_file(ins)
        &&& l@ == label
        &&& return_line == next_line(line)
        &&& return_script@ == script_name
    } else {
        match labels {
            None => r matches Err(Error::ScriptNotFound(n)) && n@ == script_name,
            Some(ls) => match lookup(ls, label) {
                Some(t) => r matches Ok(TagResult::Jump(j)) && j == t,
                None => r matches Err(Error::LabelNotFound(l)) && l@ == label,
            },
        }
    }
}

/// `[jump]`: goes on at `label` (`*` optional), in `file` when another
/// file is named.
pub struct JumpHandler;

impl TagHandler for JumpHandler {
    fn execute(&self, ctx: &ExecutionContext<'_>) -> (r: Result<TagResult, Error>)
        ensures
            jump_outcome(ctx.instruction@, ctx.current_script@, ctx.current_line, context_labels(ctx.script), r),
    {
        let label = label_param(ctx.instruction);
        let file = ctx.instruction.get_string("file");
        if !file.as_str().is_empty() && !str_eq(file.as_str(), ctx.current_script) {
            let return_line = if ctx.current_line < usize::MAX {
                ctx.current_line + 1
            } else {
                ctx.current_line
            };
            return Ok(TagResult::Call {
                file: Some(file),
                label,
                return_line,
                return_script: to_owned_string(ctx.current_script),
            });
        }
        match ctx.script {
            None => Err(Error::ScriptNotFound(to_owned_string(ctx.current_script))),
            Some(s) => match s.get_label_line(label.as_str()) {
                Some(t) => Ok(TagResult::Jump(t)),
                None => Err(Error::LabelNotFound(label)),
            },
        }
    }
}

/// What `[call]` gives: a call of `label`, in `file` when one is named,
/// returning to the next line of the running script.
pub open spec fn call_outcome(ins: InstructionView, script_name: Seq<char>, line: usize, r: Result<TagResult, Error>) -> bool {
    &&& r matches Ok(TagResult::Call { file, label, return_line, return_script })
    &&& crate::tags::opt_view(file) == target_file(ins)
    &&& label@ == label_name(param_text(ins, "label"@))
    &&& return_line == next_line(line)
    &&& return_script@ == script_name
}

/// `[call]`: calls `label` (`*` optional), in `file` when one is named; the
/// matching `[return]` comes back to the next line.
pub struct CallHandler;

impl TagHandler for CallHandler {
    fn execute(&self, ctx: &ExecutionContext<'_>) -> (r: Result<TagResult, Error>)
        ensures
            call_outcome(ctx.instruction@, ctx.current_script@, ctx.current_line, r),
    {
        let label = label_param(ctx.instruction);
        let name = ctx.instruction.get_string("file");
        let file = if name.as_str().is_empty() {
            None
        } else {
            Some(name)
        };
        let return_line = if ctx.current_line < usize::MAX {
            ctx.current_line + 1
        } else {
            ctx.current_line
        };
        Ok(TagResult::Call { file, label, return_line, return_script: to_owned_string(ctx.current_script) })
    }
}

/// What `[tag]` gives: the tag named by `name`, with the other parameters,
/// to run in its place.
pub open spec fn tag_outcome(ins: InstructionView, r: Result<TagResult, Error>) -> bool {
    &&& r matches Ok(TagResult::Dynamic(inner))
    &&& inner@.tag == param_text(ins, "name"@)
    &&& inner@.params == params_except(ins.params, seq!["name"@])
    &&& inner@.line == ins.line
}

/// `[tag]`: runs the tag named by `name`, with the other parameters.
pub struct TagTagHandler;

impl TagHandler for TagTagHandler {
    fn execute(&self, ctx: &ExecutionContext<'_>) -> (r: Result<TagResult, Error>)
        ensures
            tag_outcome(ctx.instruction@, r),
    {
        let known: Vec<&str> = vec!["name"];
        assert(known@.map_values(|k: &str| k@) =~= seq!["name"@]);
        let params = ctx.instruction.params_except(known.as_slice());
        let inner = Instruction { tag: ctx.instruction.get_string("name"), params, line: ctx.instruction.line };
        Ok(TagResult::Dynamic(inner))
    }
}

} // verus!
