//! Conditions and loops: `[if]`, `[elseif]`, `[else]`, `[/if]`, `[loop]` and
//! `[/loop]`.
//!
//! A condition is the `estimate` parameter (`1` when absent), resolved as
//! a literal or expression and read as a truth value. The searches for the
//! matching tags count nesting: an `[if]` between the start and the target
//! must be closed by its own `[/if]` first, and likewise for loops.
use crate::error::Error;
use crate::expression::resolve_spec;
use crate::script::{InstructionView, Script};
use crate::tags::{ExecutionContext, TagHandler, TagResult, param};
use crate::text::str_eq;
use crate::variable::{StoreView, ValueModel, value_bool};
use vstd::prelude::*;

verus! {

// ---------------------------------------------------------------------
// Searching the script
// ---------------------------------------------------------------------

/// The tags of a script's instructions, in order.
pub open spec fn script_tags(s: Script) -> Seq<Seq<char>> {
    Seq::new(s.instructions@.len(), |i: int| s.instructions@[i].tag@)
}

/// The tags of the running script, when there is one.
pub open spec fn context_tags(script: Option<&Script>) -> Option<Seq<Seq<char>>> {
    match script {
        Some(s) => Some(script_tags(*s)),
        None => None,
    }
}

/// Forward search from `i`, `depth` levels inside nested `[if]`s, for the
/// `[/if]` that closes the current level, or (when `stop_at_else`) an
/// `[elseif]` or `[else]` of the current level, whichever comes first.
pub open spec fn scan_branch(tags: Seq<Seq<char>>, i: int, depth: nat, stop_at_else: bool) -> Option<int>
    decreases tags.len() - i,
{
    if i < 0 || i >= tags.len() {
        None
    } else if tags[i] == "if"@ {
        scan_branch(tags, i + 1, depth + 1, stop_at_else)
    } else if tags[i] == "/if"@ {
        if depth == 0 {
            Some(i)
        } else {
            scan_branch(tags, i + 1, (depth - 1) as nat, stop_at_else)
        }
    } else if depth == 0 && stop_at_else && (tags[i] == "elseif"@ || tags[i] == "else"@) {
        Some(i)
    } else {
        scan_branch(tags, i + 1, depth, stop_at_else)
    }
}

/// Forward search from `i`, `depth` levels inside nested loops, for the
/// `[/loop]` that closes the current level.
pub open spec fn scan_loop_end(tags: Seq<Seq<char>>, i: int, depth: nat) -> Option<int>
    decreases tags.len() - i,
{
    if i < 0 || i >= tags.len() {
        None
    } else if tags[i] == "loop"@ {
        scan_loop_end(tags, i + 1, depth + 1)
    } else if tags[i] == "/loop"@ {
        if depth == 0 {
            Some(i)
        } else {
            scan_loop_end(tags, i + 1, (depth - 1) as nat)
        }
    } else {
        scan_loop_end(tags, i + 1, depth)
    }
}

/// Backward search from `i`, `depth` levels inside nested loops, for the
/// `[loop]` that opens the current level.
pub open spec fn scan_loop_start(tags: Seq<Seq<char>>, i: int, depth: nat) -> Option<int>
    decreases i + 1,
{
    if i < 0 || i >= tags.len() {
        None
    } else if tags[i] == "/loop"@ {
        scan_loop_start(tags, i - 1, depth + 1)
    } else if tags[i] == "loop"@ {
        if depth == 0 {
            Some(i)
        } else {
            scan_loop_start(tags, i - 1, (depth - 1) as nat)
        }
    } else {
        scan_loop_start(tags, i - 1, depth)
    }
}

/// A branch search finds an index at or after its start.
pub proof fn lemma_scan_branch_range(tags: Seq<Seq<char>>, i: int, depth: nat, stop_at_else: bool)
    ensures
        scan_branch(tags, i, depth, stop_at_else) matches Some(k) ==> i <= k < tags.len(),
    decreases tags.len() - i,
{
    if 0 <= i < tags.len() {
        lemma_scan_branch_range(tags, i + 1, depth + 1, stop_at_else);
        if depth > 0 {
            lemma_scan_branch_range(tags, i + 1, (depth - 1) as nat, stop_at_else);
        }
        lemma_scan_branch_range(tags, i + 1, depth, stop_at_else);
    }
}

/// A loop-end search finds an index at or after its start.
pub proof fn lemma_scan_loop_end_range(tags: Seq<Seq<char>>, i: int, depth: nat)
    ensures
        scan_loop_end(tags, i, depth) matches Some(k) ==> i <= k < tags.len(),
    decreases tags.len() - i,
{
    if 0 <= i < tags.len() {
        lemma_scan_loop_end_range(tags, i + 1, depth + 1);
        if depth > 0 {
            lemma_scan_loop_end_range(tags, i + 1, (depth - 1) as nat);
        }
        lemma_scan_loop_end_range(tags, i + 1, depth);
    }
}

/// A loop-start search finds an index at or before its start.
pub proof fn lemma_scan_loop_start_range(tags: Seq<Seq<char>>, i: int, depth: nat)
    ensures
        scan_loop_start(tags, i, depth) matches Some(k) ==> 0 <= k <= i && k < tags.len(),
    decreases i + 1,
{
    if 0 <= i < tags.len() {
        lemma_scan_loop_start_range(tags, i - 1, depth + 1);
        if depth > 0 {
            lemma_scan_loop_start_range(tags, i - 1, (depth - 1) as nat);
        }
        lemma_scan_loop_start_range(tags, i - 1, depth);
    }
}

/// Where a false `[if]` or `[elseif]` at `at` goes on: at the next
/// `[elseif]` of its level (to test it), just after its `[else]`, or just
/// after its `[/if]`.
pub open spec fn branch_target(tags: Option<Seq<Seq<char>>>, at: int) -> Option<int> {
    match tags {
        None => None,
        Some(t) => match scan_branch(t, at + 1, 0, true) {
            Some(k) => if t[k] == "elseif"@ {
                Some(k)
            } else {
                Some(k + 1)
            },
            None => None,
        },
    }
}

/// Where an `[else]` at `at` goes on: just after its `[/if]`.
pub open spec fn endif_target(tags: Option<Seq<Seq<char>>>, at: int) -> Option<int> {
    match tags {
        None => None,
        Some(t) => match scan_branch(t, at + 1, 0, false) {
            Some(k) => Some(k + 1),
            None => None,
        },
    }
}

/// Where a false `[loop]` at `at` goes on: just after its `[/loop]`.
pub open spec fn loop_exit_target(tags: Option<Seq<Seq<char>>>, at: int) -> Option<int> {
    match tags {
        None => None,
        Some(t) => match scan_loop_end(t, at + 1, 0) {
            Some(k) => Some(k + 1),
            None => None,
        },
    }
}

/// Where a `[/loop]` at `at` goes back to: its `[loop]`.
pub open spec fn loop_start_target(tags: Option<Seq<Seq<char>>>, at: int) -> Option<int> {
    match tags {
        None => None,
        Some(t) => scan_loop_start(t, at - 1, 0),
    }
}

/// The instruction index of the matching tag, as the search finds it.
fn find_branch(script: &Script, from: usize, stop_at_else: bool) -> (r: Option<usize>)
    ensures
        match scan_branch(script_tags(*script), from as int, 0, stop_at_else) {
            Some(k) => r == Some(k as usize) && 0 <= k < script.instructions@.len() <= usize::MAX,
            None => r is None,
        },
{
    let ghost tags = script_tags(*script);
    proof {
        lemma_scan_branch_range(tags, from as int, 0, stop_at_else);
    }
    let n = script.instructions.len();
    let mut i = from;
    let mut depth: usize = 0;
    while i < n
        invariant
            from <= i,
            n == script.instructions@.len(),
            tags == script_tags(*script),
            depth <= i - from,
            scan_branch(tags, i as int, depth as nat, stop_at_else) == scan_branch(
                tags,
                from as int,
                0,
                stop_at_else,
            ),
        decreases n - i,
    {
        let t = script.instructions[i].tag.as_str();
        assert(t@ == tags[i as int]);
        if str_eq(t, "if") {
            depth = depth + 1;
        } else if str_eq(t, "/if") {
            if depth == 0 {
                return Some(i);
            }
            depth = depth - 1;
        } else if depth == 0 && stop_at_else && (str_eq(t, "elseif") || str_eq(t, "else")) {
            return Some(i);
        }
        i = i + 1;
    }
    None
}

/// The index of the `[/loop]` that closes the loop level at `from`.
fn find_loop_end(script: &Script, from: usize) -> (r: Option<usize>)
    ensures
        match scan_loop_end(script_tags(*script), from as int, 0) {
            Some(k) => r == Some(k as usize) && 0 <= k < script.instructions@.len() <= usize::MAX,
            None => r is None,
        },
{
    let ghost tags = script_tags(*script);
    proof {
        lemma_scan_loop_end_range(tags, from as int, 0);
    }
    let n = script.instructions.len();
    let mut i = from;
    let mut depth: usize = 0;
    while i < n
        invariant
            from <= i,
            n == script.instructions@.len(),
            tags == script_tags(*script),
            depth <= i - from,
            scan_loop_end(tags, i as int, depth as nat) == scan_loop_end(tags, from as int, 0),
        decreases n - i,
    {
        let t = script.instructions[i].tag.as_str();
        assert(t@ == tags[i as int]);
        if str_eq(t, "loop") {
            depth = depth + 1;
        } else if str_eq(t, "/loop") {
            if depth == 0 {
                return Some(i);
            }
            depth = depth - 1;
        }
        i = i + 1;
    }
    None
}

/// The index of the `[loop]` that opens the loop level just before `upto`
/// (searching indices `upto - 1` down to 0).
fn find_loop_start(script: &Script, upto: usize) -> (r: Option<usize>)
    ensures
        match scan_loop_start(script_tags(*script), upto - 1, 0) {
            Some(k) => r == Some(k as usize) && 0 <= k < script.instructions@.len() <= usize::MAX,
            None => r is None,
        },
{
    let ghost tags = script_tags(*script);
    proof {
        lemma_scan_loop_start_range(tags, upto - 1, 0);
    }
    let n = script.instructions.len();
    if upto > n {
        assert(scan_loop_start(tags, upto - 1, 0) is None);
        return None;
    }
    let mut i = upto;
    let mut depth: usize = 0;
    while i > 0
        invariant
            i <= upto <= n,
            n == script.instructions@.len(),
            tags == script_tags(*script),
            depth <= upto - i,
            scan_loop_start(tags, i - 1, depth as nat) == scan_loop_start(tags, upto - 1, 0),
        decreases i,
    {
        let idx = i - 1;
        let t = script.instructions[idx].tag.as_str();
        assert(t@ == tags[idx as int]);
        if str_eq(t, "/loop") {
            depth = depth + 1;
        } else if str_eq(t, "loop") {
            if depth == 0 {
                return Some(idx);
            }
            depth = depth - 1;
        }
        i = idx;
    }
    None
}

// ---------------------------------------------------------------------
// The handlers
// ---------------------------------------------------------------------

/// The condition text: the `estimate` parameter, or `1`.
pub open spec fn estimate_text(ins: InstructionView) -> Seq<char> {
    match param(ins, "estimate"@) {
        Some(v) => v,
        None => "1"@,
    }
}

/// The result that goes on at `target`, or the error that no matching tag
/// was found.
pub open spec fn jump_or_missing(target: Option<int>, line: usize, missing: Seq<char>, r: Result<TagResult, Error>) -> bool {
    match target {
        Some(t) => r matches Ok(TagResult::Jump(j)) && j == t,
        None => r matches Err(Error::RuntimeError { line: l, message: m }) && l == line && m@ == missing,
    }
}

/// The condition of the instruction, resolved and read as a truth value.
fn evaluate_estimate(ctx: &ExecutionContext<'_>) -> (r: Result<bool, Error>)
    ensures
        match resolve_spec(ctx.variables@, estimate_text(ctx.instruction@)) {
            Ok(v) => r == Ok::<bool, Error>(value_bool(v)),
            Err(msg) => r matches Err(Error::ExpressionError(e)) && e@ == msg,
        },
{
    proof {
        reveal_strlit("1");
    }
    let condition = ctx.instruction.get_or("estimate", "1");
    let ev = ctx.evaluator();
    match ev.resolve_param(condition) {
        Ok(value) => Ok(value.as_bool()),
        Err(e) => Err(e),
    }
}

/// What `[if]` gives: it goes on when its condition holds, else at its next
/// branch.
pub open spec fn if_outcome(ins: InstructionView, vars: StoreView, line: usize, tags: Option<Seq<Seq<char>>>, r: Result<TagResult, Error>) -> bool {
    match resolve_spec(vars, estimate_text(ins)) {
        Err(msg) => r matches Err(Error::ExpressionError(e)) && e@ == msg,
        Ok(v) => if value_bool(v) {
            r matches Ok(TagResult::Continue)
        } else {
            jump_or_missing(branch_target(tags, line as int), line, "no [elseif], [else] or [/if] closes this [if]"@, r)
        },
    }
}

/// `[if]`: goes on when the condition holds, else at the next `[elseif]`,
/// after the `[else]`, or after the `[/if]` of its level.
pub struct IfHandler;

impl TagHandler for IfHandler {
    fn execute(&self, ctx: &ExecutionContext<'_>) -> (r: Result<TagResult, Error>)
        ensures
            if_outcome(ctx.instruction@, ctx.variables@, ctx.current_line, context_tags(ctx.script), r),
    {
        let holds = match evaluate_estimate(ctx) {
            Ok(b) => b,
            Err(e) => return Err(e),
        };
        if holds {
            Ok(TagResult::Continue)
        } else {
            ctx.branch_jump("no [elseif], [else] or [/if] closes this [if]")
        }
    }
}

/// What `[elseif]` gives: as `[if]`.
pub open spec fn elseif_outcome(ins: InstructionView, vars: StoreView, line: usize, tags: Option<Seq<Seq<char>>>, r: Result<TagResult, Error>) -> bool {
    match resolve_spec(vars, estimate_text(ins)) {
        Err(msg) => r matches Err(Error::ExpressionError(e)) && e@ == msg,
        Ok(v) => if value_bool(v) {
            r matches Ok(TagResult::Continue)
        } else {
            jump_or_missing(branch_target(tags, line as int), line, "no [elseif], [else] or [/if] closes this [elseif]"@, r)
        },
    }
}

/// `[elseif]`: tested whenever it is reached; goes on when its condition
/// holds, else at the next branch of its level.
pub struct ElseifHandler;

impl TagHandler for ElseifHandler {
    fn execute(&self, ctx: &ExecutionContext<'_>) -> (r: Result<TagResult, Error>)
        ensures
            elseif_outcome(ctx.instruction@, ctx.variables@, ctx.current_line, context_tags(ctx.script), r),
    {
        let holds = match evaluate_estimate(ctx) {
            Ok(b) => b,
            Err(e) => return Err(e),
        };
        if holds {
            Ok(TagResult::Continue)
        } else {
            ctx.branch_jump("no [elseif], [else] or [/if] closes this [elseif]")
        }
    }
}

/// What `[else]` gives: it goes on after its `[/if]`.
pub open spec fn else_outcome(line: usize, tags: Option<Seq<Seq<char>>>, r: Result<TagResult, Error>) -> bool {
    jump_or_missing(endif_target(tags, line as int), line, "no [/if] closes this [else]"@, r)
}

/// `[else]`, reached at the end of a taken branch: goes on after the
/// `[/if]` of its level.
pub struct ElseHandler;

impl TagHandler for ElseHandler {
    fn execute(&self, ctx: &ExecutionContext<'_>) -> (r: Result<TagResult, Error>)
        ensures
            else_outcome(ctx.current_line, context_tags(ctx.script), r),
    {
        let missing = "no [/if] closes this [else]";
        match ctx.script {
            Some(s) => {
                let _count = s.instructions.len();
                if ctx.current_line == usize::MAX {
                    return Err(Error::RuntimeError { line: ctx.current_line, message: crate::text::to_owned_string(missing) });
                }
                match find_branch(s, ctx.current_line + 1, false) {
                    Some(k) => Ok(TagResult::Jump(k + 1)),
                    None => {
                        Err(Error::RuntimeError { line: ctx.current_line, message: crate::text::to_owned_string(missing) })
                    },
                }
            },
            None => Err(Error::RuntimeError { line: ctx.current_line, message: crate::text::to_owned_string(missing) }),
        }
    }
}

/// What `[/if]` gives: it goes on.
pub open spec fn endif_outcome(r: Result<TagResult, Error>) -> bool {
    r matches Ok(TagResult::Continue)
}

/// `[/if]`: goes on.
pub struct EndifHandler;

impl TagHandler for EndifHandler {
    fn execute(&self, ctx: &ExecutionContext<'_>) -> (r: Result<TagResult, Error>)
        ensures
            endif_outcome(r),
    {
        Ok(TagResult::Continue)
    }
}

/// What `[loop]` gives: it goes on while its condition holds, else after its
/// `[/loop]`.
pub open spec fn loop_outcome(ins: InstructionView, vars: StoreView, line: usize, tags: Option<Seq<Seq<char>>>, r: Result<TagResult, Error>) -> bool {
    match resolve_spec(vars, estimate_text(ins)) {
        Err(msg) => r matches Err(Error::ExpressionError(e)) && e@ == msg,
        Ok(v) => if value_bool(v) {
            r matches Ok(TagResult::Continue)
        } else {
            jump_or_missing(loop_exit_target(tags, line as int), line, "no [/loop] closes this [loop]"@, r)
        },
    }
}

/// `[loop]`: enters the body while the condition holds, else goes on after
/// the matching `[/loop]`.
pub struct LoopHandler;

impl TagHandler for LoopHandler {
    fn execute(&self, ctx: &ExecutionContext<'_>) -> (r: Result<TagResult, Error>)
        ensures
            loop_outcome(ctx.instruction@, ctx.variables@, ctx.current_line, context_tags(ctx.script), r),
    {
        let holds = match evaluate_estimate(ctx) {
            Ok(b) => b,
            Err(e) => return Err(e),
        };
        if holds {
            return Ok(TagResult::Continue);
        }
        let missing = "no [/loop] closes this [loop]";
        match ctx.script {
            Some(s) => {
                let _count = s.instructions.len();
                if ctx.current_line == usize::MAX {
                    return Err(Error::RuntimeError { line: ctx.current_line, message: crate::text::to_owned_string(missing) });
                }
                match find_loop_end(s, ctx.current_line + 1) {
                    Some(k) => Ok(TagResult::Jump(k + 1)),
                    None => {
                        Err(Error::RuntimeError { line: ctx.current_line, message: crate::text::to_owned_string(missing) })
                    },
                }
            },
            None => Err(Error::RuntimeError { line: ctx.current_line, message: crate::text::to_owned_string(missing) }),
        }
    }
}

/// What `[/loop]` gives: it goes back to its `[loop]`.
pub open spec fn endloop_outcome(line: usize, tags: Option<Seq<Seq<char>>>, r: Result<TagResult, Error>) -> bool {
    jump_or_missing(loop_start_target(tags, line as int), line, "no [loop] opens this [/loop]"@, r)
}

/// `[/loop]`: goes back to the matching `[loop]`, which tests its condition
/// again.
pub struct EndloopHandler;

impl TagHandler for EndloopHandler {
    fn execute(&self, ctx: &ExecutionContext<'_>) -> (r: Result<TagResult, Error>)
        ensures
            endloop_outcome(ctx.current_line, context_tags(ctx.script), r),
    {
        let missing = "no [loop] opens this [/loop]";
        match ctx.script {
            Some(s) => match find_loop_start(s, ctx.current_line) {
                Some(k) => {
                    Ok(TagResult::Jump(k))
                },
                None => Err(Error::RuntimeError { line: ctx.current_line, message: crate::text::to_owned_string(missing) }),
            },
            None => Err(Error::RuntimeError { line: ctx.current_line, message: crate::text::to_owned_string(missing) }),
        }
    }
}

impl<'a> ExecutionContext<'a> {
    /// The jump of a false `[if]` or `[elseif]`: to the next `[elseif]` of its
    /// level, or just after its `[else]` or `[/if]`; `missing` is the error
    /// message when there is none.
    pub fn branch_jump(&self, missing: &str) -> (r: Result<TagResult, Error>)
        ensures
            jump_or_missing(branch_target(context_tags(self.script), self.current_line as int), self.current_line, missing@, r),
    {
        match self.script {
            Some(s) => {
                let _count = s.instructions.len();
                if self.current_line == usize::MAX {
                    return Err(Error::RuntimeError { line: self.current_line, message: crate::text::to_owned_string(missing) });
                }
                let from = self.current_line + 1;
                match find_branch(s, from, true) {
                    Some(k) => {
                        let t = s.instructions[k].tag.as_str();
                        assert(t@ == script_tags(*s)[k as int]);
                        if str_eq(t, "elseif") {
                            Ok(TagResult::Jump(k))
                        } else {
                            Ok(TagResult::Jump(k + 1))
                        }
                    },
                    None => {
                        Err(Error::RuntimeError { line: self.current_line, message: crate::text::to_owned_string(missing) })
                    },
                }
            },
            None => Err(Error::RuntimeError { line: self.current_line, message: crate::text::to_owned_string(missing) }),
        }
    }
}

// ---------------------------------------------------------------------
// Laws of the searches
// ---------------------------------------------------------------------

/// `1` for an opening tag, `-1` for a closing one, else `0`.
pub open spec fn nest_step(t: Seq<char>, open: Seq<char>, close: Seq<char>) -> int {
    if t == open {
        1
    } else if t == close {
        -1
    } else {
        0
    }
}

/// The openings minus the closings among `tags[a..b]`.
pub open spec fn nesting(tags: Seq<Seq<char>>, a: int, b: int, open: Seq<char>, close: Seq<char>) -> int
    decreases b - a,
{
    if a >= b {
        0
    } else {
        nest_step(tags[a], open, close) + nesting(tags, a + 1, b, open, close)
    }
}

/// Whether a branch search started at `i` stops at `k`: every `[if]` since
/// `i` is closed there, and `k` is a `[/if]` (or, when `stop_at_else`, an
/// `[elseif]` or `[else]`).
pub open spec fn branch_stop(tags: Seq<Seq<char>>, i: int, k: int, stop_at_else: bool) -> bool {
    &&& nesting(tags, i, k, "if"@, "/if"@) == 0
    &&& (tags[k] == "/if"@ || (stop_at_else && (tags[k] == "elseif"@ || tags[k] == "else"@)))
}

/// No branch stop in `[i0, i)`, and the nesting never drops below zero
/// there.
pub open spec fn clear_branch(tags: Seq<Seq<char>>, i0: int, i: int, stop_at_else: bool) -> bool {
    forall|k: int| #![trigger nesting(tags, i0, k, "if"@, "/if"@)] #![trigger branch_stop(tags, i0, k, stop_at_else)]
        i0 <= k < i ==> nesting(tags, i0, k, "if"@, "/if"@) >= 0 && !branch_stop(tags, i0, k, stop_at_else)
}

proof fn lemma_scan_branch_nesting(tags: Seq<Seq<char>>, i0: int, i: int, depth: nat, stop_at_else: bool)
    requires
        0 <= i0 <= i <= tags.len(),
        nesting(tags, i0, i, "if"@, "/if"@) == depth,
        clear_branch(tags, i0, i, stop_at_else),
    ensures
        match scan_branch(tags, i, depth, stop_at_else) {
            Some(t) => {
                &&& i <= t < tags.len()
                &&& branch_stop(tags, i0, t, stop_at_else)
                &&& clear_branch(tags, i0, t, stop_at_else)
            },
            None => clear_branch(tags, i0, tags.len() as int, stop_at_else),
        },
    decreases tags.len() - i,
{
    reveal_strlit("if");
    reveal_strlit("/if");
    reveal_strlit("else");
    reveal_strlit("elseif");
    assert("if"@.len() == 2 && "/if"@.len() == 3 && "else"@.len() == 4 && "elseif"@.len() == 6);
    if i < tags.len() {
        lemma_nesting_extend(tags, i0, i, "if"@, "/if"@);
        let stop_here = depth == 0 && (tags[i] == "/if"@ || (stop_at_else && (tags[i] == "elseif"@ || tags[i] == "else"@)));
        assert(branch_stop(tags, i0, i, stop_at_else) == stop_here);
        if !stop_here {
            let d2: nat = if tags[i] == "if"@ {
                depth + 1
            } else if tags[i] == "/if"@ {
                (depth - 1) as nat
            } else {
                depth
            };
            assert(nesting(tags, i0, i + 1, "if"@, "/if"@) == d2);
            assert forall|k: int| #![trigger nesting(tags, i0, k, "if"@, "/if"@)] #![trigger branch_stop(tags, i0, k, stop_at_else)]
                i0 <= k < i + 1 implies nesting(tags, i0, k, "if"@, "/if"@) >= 0 && !branch_stop(tags, i0, k, stop_at_else) by {
                if k == i {
                    assert(!branch_stop(tags, i0, i, stop_at_else));
                }
            }
            assert(scan_branch(tags, i, depth, stop_at_else) == scan_branch(tags, i + 1, d2, stop_at_else));
            lemma_scan_branch_nesting(tags, i0, i + 1, d2, stop_at_else);
        } else {
            assert(scan_branch(tags, i, depth, stop_at_else) == Some(i));
        }
    }
}

/// The nesting count grows by one tag at its end.
proof fn lemma_nesting_extend(tags: Seq<Seq<char>>, a: int, b: int, open: Seq<char>, close: Seq<char>)
    requires
        a <= b < tags.len(),
    ensures
        nesting(tags, a, b + 1, open, close) == nesting(tags, a, b, open, close) + nest_step(tags[b], open, close),
    decreases b - a,
{
    if a < b {
        lemma_nesting_extend(tags, a + 1, b, open, close);
        assert(nesting(tags, a, b + 1, open, close) == nest_step(tags[a], open, close) + nesting(tags, a + 1, b + 1, open, close));
        assert(nesting(tags, a, b, open, close) == nest_step(tags[a], open, close) + nesting(tags, a + 1, b, open, close));
    } else {
        assert(nesting(tags, a + 1, b + 1, open, close) == 0);
        assert(nesting(tags, a, b + 1, open, close) == nest_step(tags[a], open, close) + nesting(tags, a + 1, b + 1, open, close));
    }
}

/// A branch search from `from` finds the first tag where every `[if]`
/// opened since `from` is closed again and that is a `[/if]` (or, when
/// `stop_at_else`, an `[elseif]` or `[else]`): a nested `[if]` ... `[/if]`
/// is passed over whole. It finds nothing only when there is no such tag.
pub proof fn law_branch_search_skips_nested(tags: Seq<Seq<char>>, from: int, stop_at_else: bool)
    requires
        0 <= from <= tags.len(),
    ensures
        match scan_branch(tags, from, 0, stop_at_else) {
            Some(t) => {
                &&& from <= t < tags.len()
                &&& nesting(tags, from, t, "if"@, "/if"@) == 0
                &&& (tags[t] == "/if"@ || (stop_at_else && (tags[t] == "elseif"@ || tags[t] == "else"@)))
                &&& forall|k: int| #![trigger nesting(tags, from, k, "if"@, "/if"@)] #![trigger branch_stop(tags, from, k, stop_at_else)]
                    from <= k < t ==> nesting(tags, from, k, "if"@, "/if"@) >= 0 && !branch_stop(tags, from, k, stop_at_else)
            },
            None => forall|k: int| #![trigger branch_stop(tags, from, k, stop_at_else)]
                from <= k < tags.len() ==> !branch_stop(tags, from, k, stop_at_else),
        },
{
    assert(nesting(tags, from, from, "if"@, "/if"@) == 0);
    lemma_scan_branch_nesting(tags, from, from, 0, stop_at_else);
}

/// A false `[if]` at `line` goes on at the first `[elseif]` of its own
/// level, or just after the first `[else]` or `[/if]` of its own level:
/// the `[if]`s and `[/if]`s strictly between balance, so a nested
/// `[if]` ... `[/if]` in its body is never taken for its own `[/if]`.
pub proof fn law_false_if_skips_nested(
    ins: InstructionView,
    vars: StoreView,
    line: usize,
    tags: Seq<Seq<char>>,
    r: Result<TagResult, Error>,
    v: ValueModel,
)
    requires
        if_outcome(ins, vars, line, Some(tags), r),
        resolve_spec(vars, estimate_text(ins)) == Ok::<ValueModel, Seq<char>>(v),
        !value_bool(v),
        line < tags.len(),
    ensures
        match r {
            Ok(TagResult::Jump(j)) => exists|k: int| {
                &&& line < k < tags.len()
                &&& #[trigger] nesting(tags, line + 1, k, "if"@, "/if"@) == 0
                &&& (tags[k] == "elseif"@ && j == k || (tags[k] == "else"@ || tags[k] == "/if"@) && j == k + 1)
                &&& forall|m: int| #![trigger nesting(tags, line + 1, m, "if"@, "/if"@)] #![trigger branch_stop(tags, line + 1, m, true)]
                    line < m < k ==> nesting(tags, line + 1, m, "if"@, "/if"@) >= 0 && !branch_stop(tags, line + 1, m, true)
            },
            _ => r matches Err(Error::RuntimeError { .. }) && forall|m: int| #![trigger branch_stop(tags, line + 1, m, true)]
                line < m < tags.len() ==> !branch_stop(tags, line + 1, m, true),
        },
{
    reveal_strlit("elseif");
    law_branch_search_skips_nested(tags, line + 1, true);
    match scan_branch(tags, line + 1, 0, true) {
        Some(k) => {
            assert(branch_stop(tags, line + 1, k, true));
            assert(nesting(tags, line + 1, k, "if"@, "/if"@) == 0);
            assert(branch_target(Some(tags), line as int) == (if tags[k] == "elseif"@ { Some(k) } else { Some(k + 1) }));
        },
        None => {
            assert(branch_target(Some(tags), line as int) is None);
        },
    }
}

/// Where a loop-end search started at `i` stops at `k`: every `[loop]`
/// since `i` is closed there and `k` is a `[/loop]`.
pub open spec fn loop_end_stop(tags: Seq<Seq<char>>, i: int, k: int) -> bool {
    nesting(tags, i, k, "loop"@, "/loop"@) == 0 && tags[k] == "/loop"@
}

/// No loop-end stop in `[i0, i)`, and the loop nesting never drops below
/// zero there.
pub open spec fn clear_loop(tags: Seq<Seq<char>>, i0: int, i: int) -> bool {
    forall|k: int| #![trigger nesting(tags, i0, k, "loop"@, "/loop"@)] #![trigger loop_end_stop(tags, i0, k)]
        i0 <= k < i ==> nesting(tags, i0, k, "loop"@, "/loop"@) >= 0 && !loop_end_stop(tags, i0, k)
}

proof fn lemma_scan_loop_end_nesting(tags: Seq<Seq<char>>, i0: int, i: int, depth: nat)
    requires
        0 <= i0 <= i <= tags.len(),
        nesting(tags, i0, i, "loop"@, "/loop"@) == depth,
        clear_loop(tags, i0, i),
    ensures
        match scan_loop_end(tags, i, depth) {
            Some(t) => {
                &&& i <= t < tags.len()
                &&& loop_end_stop(tags, i0, t)
                &&& clear_loop(tags, i0, t)
            },
            None => clear_loop(tags, i0, tags.len() as int),
        },
    decreases tags.len() - i,
{
    reveal_strlit("loop");
    reveal_strlit("/loop");
    assert("loop"@.len() == 4 && "/loop"@.len() == 5);
    if i < tags.len() {
        lemma_nesting_extend(tags, i0, i, "loop"@, "/loop"@);
        let stop_here = depth == 0 && tags[i] == "/loop"@;
        assert(loop_end_stop(tags, i0, i) == stop_here);
        if !stop_here {
            let d2: nat = if tags[i] == "loop"@ {
                depth + 1
            } else if tags[i] == "/loop"@ {
                (depth - 1) as nat
            } else {
                depth
            };
            assert(nesting(tags, i0, i + 1, "loop"@, "/loop"@) == d2);
            assert forall|k: int| #![trigger nesting(tags, i0, k, "loop"@, "/loop"@)] #![trigger loop_end_stop(tags, i0, k)]
                i0 <= k < i + 1 implies nesting(tags, i0, k, "loop"@, "/loop"@) >= 0 && !loop_end_stop(tags, i0, k) by {
                if k == i {
                    assert(!loop_end_stop(tags, i0, i));
                }
            }
            assert(scan_loop_end(tags, i, depth) == scan_loop_end(tags, i + 1, d2));
            lemma_scan_loop_end_nesting(tags, i0, i + 1, d2);
        } else {
            assert(scan_loop_end(tags, i, depth) == Some(i));
        }
    }
}

/// A loop-end search from `from` finds the first `[/loop]` where every
/// `[loop]` opened since `from` is closed again: nested loops are passed
/// over whole. It finds nothing only when there is no such `[/loop]`.
pub proof fn law_loop_end_skips_nested(tags: Seq<Seq<char>>, from: int)
    requires
        0 <= from <= tags.len(),
    ensures
        match scan_loop_end(tags, from, 0) {
            Some(t) => {
                &&& from <= t < tags.len()
                &&& nesting(tags, from, t, "loop"@, "/loop"@) == 0
                &&& tags[t] == "/loop"@
                &&& forall|k: int| #![trigger nesting(tags, from, k, "loop"@, "/loop"@)] #![trigger loop_end_stop(tags, from, k)]
                    from <= k < t ==> nesting(tags, from, k, "loop"@, "/loop"@) >= 0 && !loop_end_stop(tags, from, k)
            },
            None => forall|k: int| #![trigger loop_end_stop(tags, from, k)] from <= k < tags.len() ==> !loop_end_stop(tags, from, k),
        },
{
    assert(nesting(tags, from, from, "loop"@, "/loop"@) == 0);
    lemma_scan_loop_end_nesting(tags, from, from, 0);
}

/// An `[else]` at `line` goes on just after the first `[/if]` of its own
/// level: the `[if]`s and `[/if]`s strictly between balance.
pub proof fn law_else_skips_nested(line: usize, tags: Seq<Seq<char>>, r: Result<TagResult, Error>)
    requires
        else_outcome(line, Some(tags), r),
        line < tags.len(),
    ensures
        match r {
            Ok(TagResult::Jump(j)) => {
                &&& line + 1 < j <= tags.len()
                &&& tags[j - 1] == "/if"@
                &&& nesting(tags, line + 1, j - 1, "if"@, "/if"@) == 0
                &&& forall|m: int| #![trigger nesting(tags, line + 1, m, "if"@, "/if"@)] #![trigger branch_stop(tags, line + 1, m, false)]
                    line < m < j - 1 ==> nesting(tags, line + 1, m, "if"@, "/if"@) >= 0 && !branch_stop(tags, line + 1, m, false)
            },
            _ => r matches Err(Error::RuntimeError { .. }),
        },
{
    law_branch_search_skips_nested(tags, line + 1, false);
}

/// A false `[loop]` at `line` goes on just after the first `[/loop]` of
/// its own level: the `[loop]`s and `[/loop]`s strictly between balance,
/// so a nested loop is passed over whole.
pub proof fn law_false_loop_skips_nested(
    ins: InstructionView,
    vars: StoreView,
    line: usize,
    tags: Seq<Seq<char>>,
    r: Result<TagResult, Error>,
    v: ValueModel,
)
    requires
        loop_outcome(ins, vars, line, Some(tags), r),
        resolve_spec(vars, estimate_text(ins)) == Ok::<ValueModel, Seq<char>>(v),
        !value_bool(v),
        line < tags.len(),
    ensures
        match r {
            Ok(TagResult::Jump(j)) => {
                &&& line + 1 < j <= tags.len()
                &&& tags[j - 1] == "/loop"@
                &&& nesting(tags, line + 1, j - 1, "loop"@, "/loop"@) == 0
                &&& forall|m: int| #![trigger nesting(tags, line + 1, m, "loop"@, "/loop"@)] #![trigger loop_end_stop(tags, line + 1, m)]
                    line < m < j - 1 ==> nesting(tags, line + 1, m, "loop"@, "/loop"@) >= 0 && !loop_end_stop(tags, line + 1, m)
            },
            _ => r matches Err(Error::RuntimeError { .. }),
        },
{
    law_loop_end_skips_nested(tags, line + 1);
}

} // verus!
