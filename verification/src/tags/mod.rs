//! Tag handlers: what each built-in tag does.
//!
//! A handler reads the instruction (and, through the expression
//! evaluator, the variables) and says what happens next as a
//! [`TagResult`]: go on, jump, call, return, wait for or emit an event.
use crate::error::Error;
use crate::event::Event;
use crate::expression::{ExpressionEvaluator, resolve_spec};
use crate::script::{Instruction, InstructionView, Script};
use crate::strmap::{StrMap, lookup, distinct_keys, entries_insert};
use crate::text::{str_eq, parse_signed, parse_unsigned, parse_i32, parse_u64, parse_u32, parse_u8, to_owned_string};
use crate::variable::{Value, ValueModel, VariableStore, StoreView, value_text};
use vstd::prelude::*;

pub mod condition;
pub mod control;
pub mod event_handler;
pub mod jump;
pub mod layer;
pub mod lua;
pub mod scenario;
pub mod sound;
pub mod system;
pub mod ui;
pub mod var_handler;

verus! {

/// What happens after a tag has run.
#[derive(Debug, Clone)]
pub enum TagResult {
    /// Go on with the next instruction.
    Continue,
    /// Go on at this instruction index of the current script.
    Jump(usize),
    /// Call a label (in `file` when given, else in the current script);
    /// [return] comes back to `return_line` of `return_script`.
    Call { file: Option<String>, label: String, return_line: usize, return_script: String },
    /// Return from the innermost call.
    Return,
    /// Hand the event to the host, then wait.
    Wait(Event),
    /// Hand the event to the host and go on.
    Emit(Event),
    /// Hand several events to the host and go on.
    EmitMany(Vec<Event>),
    /// Run another instruction in place of this one.
    Dynamic(Instruction),
    /// Call the Lua function `function` with the given parameters.
    CallLua { function: String, params: StrMap<String> },
}

/// Everything a handler may read while it runs.
pub struct ExecutionContext<'a> {
    /// The variables.
    pub variables: &'a VariableStore,
    /// Name of the running script.
    pub current_script: &'a str,
    /// Index of the running instruction.
    pub current_line: usize,
    /// The running instruction.
    pub instruction: &'a Instruction,
    /// The running script, for searches within it.
    pub script: Option<&'a Script>,
}

/// A tag's behaviour. Built-in handlers state their effect in their own
/// contracts; hosts may register further handlers.
pub trait TagHandler {
    /// Runs the tag.
    fn execute(&self, ctx: &ExecutionContext<'_>) -> Result<TagResult, Error>;
}

// ---------------------------------------------------------------------
// Reading parameters
// ---------------------------------------------------------------------

/// The value of parameter `key`.
pub open spec fn param(ins: InstructionView, key: Seq<char>) -> Option<Seq<char>> {
    lookup(ins.params, key)
}

/// The value of parameter `key`, or the empty text.
pub open spec fn param_text(ins: InstructionView, key: Seq<char>) -> Seq<char> {
    match param(ins, key) {
        Some(v) => v,
        None => Seq::empty(),
    }
}

/// The contents of an optional string.
pub open spec fn opt_view(o: Option<String>) -> Option<Seq<char>> {
    match o {
        Some(s) => Some(s@),
        None => None,
    }
}

/// Parameter `key` read as an `i32`.
pub open spec fn param_i32(ins: InstructionView, key: Seq<char>) -> Option<i32> {
    match param(ins, key) {
        Some(v) => match parse_signed(v, i32::MIN as int, i32::MAX as int) {
            Some(n) => Some(n as i32),
            None => None,
        },
        None => None,
    }
}

/// Parameter `key` read as a `u64`.
pub open spec fn param_u64(ins: InstructionView, key: Seq<char>) -> Option<u64> {
    match param(ins, key) {
        Some(v) => match parse_unsigned(v, u64::MAX as nat) {
            Some(n) => Some(n as u64),
            None => None,
        },
        None => None,
    }
}

/// Parameter `key` read as a `u32`.
pub open spec fn param_u32(ins: InstructionView, key: Seq<char>) -> Option<u32> {
    match param(ins, key) {
        Some(v) => match parse_unsigned(v, u32::MAX as nat) {
            Some(n) => Some(n as u32),
            None => None,
        },
        None => None,
    }
}

/// Parameter `key` read as a `usize`.
pub open spec fn param_usize(ins: InstructionView, key: Seq<char>) -> Option<usize> {
    match param(ins, key) {
        Some(v) => match parse_unsigned(v, usize::MAX as nat) {
            Some(n) => Some(n as usize),
            None => None,
        },
        None => None,
    }
}

/// The values of the parameters, in order.
pub open spec fn param_values(p: Seq<(Seq<char>, Seq<char>)>) -> Seq<Seq<char>> {
    Seq::new(p.len(), |i: int| p[i].1)
}

/// Parameter `key` read as a `u8`.
pub open spec fn param_u8(ins: InstructionView, key: Seq<char>) -> Option<u8> {
    match param(ins, key) {
        Some(v) => match parse_unsigned(v, u8::MAX as nat) {
            Some(n) => Some(n as u8),
            None => None,
        },
        None => None,
    }
}

/// An `i32` or a default.
pub open spec fn or_i32(o: Option<i32>, d: i32) -> i32 {
    match o {
        Some(n) => n,
        None => d,
    }
}

/// A `u64` or a default.
pub open spec fn or_u64(o: Option<u64>, d: u64) -> u64 {
    match o {
        Some(n) => n,
        None => d,
    }
}

/// A flag parameter: read as an `i32` (default `d`), true when non-zero.
pub open spec fn param_flag(ins: InstructionView, key: Seq<char>, d: i32) -> bool {
    or_i32(param_i32(ins, key), d) != 0
}

/// The integer a resolved parameter reads as (0 when none), as an `i32`.
pub open spec fn resolved_i32(v: ValueModel) -> i32 {
    match crate::variable::value_int(v) {
        Some(n) => (n as i64) as i32,
        None => 0,
    }
}

/// Parameters whose key is not in `known`, in order.
pub open spec fn params_except(
    p: Seq<(Seq<char>, Seq<char>)>,
    known: Seq<Seq<char>>,
) -> Seq<(Seq<char>, Seq<char>)> {
    p.filter(|e: (Seq<char>, Seq<char>)| !known.contains(e.0))
}

/// The parameters among `keys` that are present, in the order of `keys`.
pub open spec fn pick_params(ins: InstructionView, keys: Seq<Seq<char>>) -> Seq<(Seq<char>, Seq<char>)>
    decreases keys.len(),
{
    if keys.len() == 0 {
        Seq::empty()
    } else {
        let rest = pick_params(ins, keys.drop_last());
        match param(ins, keys.last()) {
            Some(v) => entries_insert(rest, keys.last(), v),
            None => rest,
        }
    }
}

/// Every parameter not in `known`, with its value resolved to text; the
/// first failing resolution is the error.
pub open spec fn resolve_params(
    vars: StoreView,
    p: Seq<(Seq<char>, Seq<char>)>,
    known: Seq<Seq<char>>,
) -> Result<Seq<(Seq<char>, Seq<char>)>, Seq<char>>
    decreases p.len(),
{
    if p.len() == 0 {
        Ok(Seq::empty())
    } else {
        match resolve_params(vars, p.drop_last(), known) {
            Err(m) => Err(m),
            Ok(rest) => if known.contains(p.last().0) {
                Ok(rest)
            } else {
                match resolve_spec(vars, p.last().1) {
                    Err(m) => Err(m),
                    Ok(v) => Ok(entries_insert(rest, p.last().0, value_text(v))),
                }
            },
        }
    }
}

impl Instruction {
    /// Parameter `key`, or the empty string.
    pub fn get_string(&self, key: &str) -> (r: String)
        ensures
            r@ == param_text(self@, key@),
    {
        proof {
            reveal_strlit("");
        }
        to_owned_string(self.get_or(key, ""))
    }

    /// Parameter `key` as an owned string.
    pub fn get_opt(&self, key: &str) -> (r: Option<String>)
        ensures
            opt_view(r) == param(self@, key@),
    {
        match self.get(key) {
            Some(v) => Some(to_owned_string(v)),
            None => None,
        }
    }

    /// Parameter `key` read as an `i32`.
    pub fn get_i32(&self, key: &str) -> (r: Option<i32>)
        ensures
            r == param_i32(self@, key@),
    {
        match self.get(key) {
            Some(v) => parse_i32(v),
            None => None,
        }
    }

    /// Parameter `key` read as an `i32`, or `d`.
    pub fn get_i32_or(&self, key: &str, d: i32) -> (r: i32)
        ensures
            r == or_i32(param_i32(self@, key@), d),
    {
        match self.get_i32(key) {
            Some(n) => n,
            None => d,
        }
    }

    /// Parameter `key` read as a `u64`, or `d`.
    pub fn get_u64_or(&self, key: &str, d: u64) -> (r: u64)
        ensures
            r == or_u64(param_u64(self@, key@), d),
    {
        match self.get_u64(key) {
            Some(n) => n,
            None => d,
        }
    }

    /// Parameter `key` read as a `u64`.
    pub fn get_u64(&self, key: &str) -> (r: Option<u64>)
        ensures
            r == param_u64(self@, key@),
    {
        match self.get(key) {
            Some(v) => parse_u64(v),
            None => None,
        }
    }

    /// Parameter `key` read as a `u32`.
    pub fn get_u32(&self, key: &str) -> (r: Option<u32>)
        ensures
            r == param_u32(self@, key@),
    {
        match self.get(key) {
            Some(v) => parse_u32(v),
            None => None,
        }
    }

    /// Parameter `key` read as a `usize`.
    pub fn get_usize(&self, key: &str) -> (r: Option<usize>)
        ensures
            r == param_usize(self@, key@),
    {
        match self.get(key) {
            Some(v) => crate::text::parse_usize(v),
            None => None,
        }
    }

    /// The values of the parameters, in order.
    pub fn values(&self) -> (r: Vec<String>)
        ensures
            crate::strings::string_views(r@) == param_values(self.params@),
    {
        let n = self.params.len();
        let mut r: Vec<String> = Vec::new();
        let mut i: usize = 0;
        while i < n
            invariant
                i <= n == self.params@.len(),
                r@.len() == i,
                forall|j: int| 0 <= j < i ==> #[trigger] r@[j]@ == self.params@[j].1,
            decreases n - i,
        {
            r.push(self.params.value_at(i).clone());
            i = i + 1;
        }
        assert(crate::strings::string_views(r@) =~= param_values(self.params@));
        r
    }

    /// Parameter `key` read as a `u8`.
    pub fn get_u8(&self, key: &str) -> (r: Option<u8>)
        ensures
            r == param_u8(self@, key@),
    {
        match self.get(key) {
            Some(v) => parse_u8(v),
            None => None,
        }
    }

    /// A flag parameter: an `i32` (default `d`), true when non-zero.
    pub fn get_flag(&self, key: &str, d: i32) -> (r: bool)
        ensures
            r == param_flag(self@, key@, d),
    {
        match self.get_i32(key) {
            Some(n) => n != 0,
            None => d != 0,
        }
    }

    /// The parameters whose key is not in `known`, in order.
    pub fn params_except(&self, known: &[&str]) -> (r: StrMap<String>)
        ensures
            r@ == params_except(self.params@, known@.map_values(|k: &str| k@)),
    {
        let ghost kv = known@.map_values(|k: &str| k@);
        let ghost pred = |e: (Seq<char>, Seq<char>)| !kv.contains(e.0);
        let ghost src = self.params@;
        let mut out: StrMap<String> = StrMap::new();
        let n = self.params.len();
        let mut i: usize = 0;
        while i < n
            invariant
                i <= n,
                n == src.len(),
                src == self.params@,
                distinct_keys(src),
                kv == known@.map_values(|k: &str| k@),
                pred == (|e: (Seq<char>, Seq<char>)| !kv.contains(e.0)),
                out@ == src.take(i as int).filter(pred),
                forall|a: int| 0 <= a < out@.len() ==> exists|b: int| 0 <= b < i && #[trigger] out@[a].0 == src[b].0,
            decreases n - i,
        {
            let k = self.params.key_at(i);
            let mut found = false;
            let mut j: usize = 0;
            while j < known.len()
                invariant
                    j <= known@.len(),
                    kv == known@.map_values(|k: &str| k@),
                    found == (exists|m: int| 0 <= m < j && kv[m] == k@),
                decreases known.len() - j,
            {
                let same = crate::text::str_eq(known[j], k.as_str());
                assert(kv[j as int] == known@[j as int]@);
                if same {
                    found = true;
                }
                j += 1;
            }
            proof {
                if found {
                    let m = choose|m: int| 0 <= m < known@.len() && kv[m] == k@;
                    assert(kv.contains(k@));
                } else {
                    assert(!kv.contains(k@));
                }
            }
            let ghost before = out@;
            assert(src.take(i + 1).drop_last() =~= src.take(i as int));
            reveal_with_fuel(Seq::<_>::filter, 1);
            assert(pred(src[i as int]) == !found);
            if !found {
                proof {
                    assert forall|a: int| 0 <= a < before.len() implies before[a].0 != k@ by {
                        let b = choose|b: int| 0 <= b < i && #[trigger] before[a].0 == src[b].0;
                        assert(src[b].0 != src[i as int].0);
                    }
                    assert(!crate::strmap::has_key(before, k@));
                }
                out.insert(k.clone(), self.params.value_at(i).clone());
                assert(out@ =~= before.push((k@, src[i as int].1)));
                assert forall|a: int| 0 <= a < out@.len() implies exists|b: int| 0 <= b < i + 1 && #[trigger] out@[a].0 == src[b].0 by {
                    if a < before.len() {
                        let b = choose|b: int| 0 <= b < i && #[trigger] before[a].0 == src[b].0;
                        assert(out@[a] == before[a]);
                    } else {
                        assert(out@[a].0 == src[i as int].0);
                    }
                }
            }
            i += 1;
        }
        assert(src.take(n as int) =~= src);
        out
    }

    /// The parameters among `keys` that are present, in the order of `keys`.
    pub fn pick(&self, keys: &[&str]) -> (r: StrMap<String>)
        ensures
            r@ == pick_params(self@, keys@.map_values(|k: &str| k@)),
    {
        let ghost kv = keys@.map_values(|k: &str| k@);
        let mut out: StrMap<String> = StrMap::new();
        let mut i: usize = 0;
        assert(out@ =~= pick_params(self@, kv.take(0)));
        while i < keys.len()
            invariant
                i <= keys@.len(),
                kv == keys@.map_values(|k: &str| k@),
                out@ == pick_params(self@, kv.take(i as int)),
            decreases keys.len() - i,
        {
            assert(kv.take(i + 1).drop_last() =~= kv.take(i as int));
            assert(kv.take(i + 1).last() == kv[i as int]);
            match self.get(keys[i]) {
                Some(v) => {
                    out.insert(to_owned_string(keys[i]), to_owned_string(v));
                },
                None => {},
            }
            i += 1;
        }
        assert(kv.take(keys@.len() as int) =~= kv);
        out
    }
}

/// An error in resolving a prefix of the parameters stays the error.
pub proof fn lemma_resolve_params_prefix(
    vars: StoreView,
    p: Seq<(Seq<char>, Seq<char>)>,
    known: Seq<Seq<char>>,
    j: int,
    m: Seq<char>,
)
    requires
        0 <= j <= p.len(),
        resolve_params(vars, p.take(j), known) == Err::<Seq<(Seq<char>, Seq<char>)>, Seq<char>>(m),
    ensures
        resolve_params(vars, p, known) == Err::<Seq<(Seq<char>, Seq<char>)>, Seq<char>>(m),
    decreases p.len() - j,
{
    if j < p.len() {
        assert(p.take(j + 1).drop_last() =~= p.take(j));
        lemma_resolve_params_prefix(vars, p, known, j + 1, m);
    } else {
        assert(p.take(j) =~= p);
    }
}

impl<'a> ExecutionContext<'a> {
    /// An evaluator over the current variables.
    pub fn evaluator(&self) -> (r: ExpressionEvaluator<'a>)
        ensures
            r.vars() == self.variables@,
    {
        ExpressionEvaluator::new(self.variables)
    }

    /// Parameter `key` (empty when absent) resolved as a literal or
    /// expression.
    pub fn resolve_param(&self, key: &str) -> (r: Result<Value, Error>)
        ensures
            match resolve_spec(self.variables@, param_text(self.instruction@, key@)) {
                Ok(m) => r matches Ok(v) && v@ == m,
                Err(msg) => r matches Err(Error::ExpressionError(e)) && e@ == msg,
            },
    {
        proof {
            reveal_strlit("");
        }
        let p = self.instruction.get_or(key, "");
        let ev = self.evaluator();
        assert(ev.vars() == self.variables@);
        assert(p@ == param_text(self.instruction@, key@));
        ev.resolve_param(p)
    }

    /// Parameter `key` resolved, as text.
    pub fn resolve_param_str(&self, key: &str) -> (r: Result<String, Error>)
        ensures
            match resolve_spec(self.variables@, param_text(self.instruction@, key@)) {
                Ok(m) => r matches Ok(s) && s@ == value_text(m),
                Err(msg) => r matches Err(Error::ExpressionError(e)) && e@ == msg,
            },
    {
        let v = self.resolve_param(key)?;
        Ok(v.as_string())
    }

    /// Parameter `key` resolved, as an `i32` (0 when it is not a number).
    pub fn resolve_param_i32(&self, key: &str) -> (r: Result<i32, Error>)
        ensures
            match resolve_spec(self.variables@, param_text(self.instruction@, key@)) {
                Ok(m) => r == Ok::<i32, Error>(resolved_i32(m)),
                Err(msg) => r matches Err(Error::ExpressionError(e)) && e@ == msg,
            },
    {
        let v = self.resolve_param(key)?;
        match v.as_int() {
            Some(n) => Ok(n as i32),
            None => Ok(0),
        }
    }

    /// Every parameter not in `known`, with its value resolved to text.
    pub fn resolve_params_except(&self, known: &[&str]) -> (r: Result<StrMap<String>, Error>)
        ensures
            match resolve_params(self.variables@, self.instruction.params@, known@.map_values(|k: &str| k@)) {
                Ok(p) => r matches Ok(m) && m@ == p,
                Err(msg) => r matches Err(Error::ExpressionError(e)) && e@ == msg,
            },
    {
        let ghost kv = known@.map_values(|k: &str| k@);
        let ghost src = self.instruction.params@;
        let ghost vars = self.variables@;
        let ev = self.evaluator();
        let mut out: StrMap<String> = StrMap::new();
        let n = self.instruction.params.len();
        let mut i: usize = 0;
        assert(src.take(0) =~= Seq::<(Seq<char>, Seq<char>)>::empty());
        assert(out@ =~= Seq::<(Seq<char>, Seq<char>)>::empty());
        while i < n
            invariant
                i <= n,
                n == src.len(),
                src == self.instruction.params@,
                vars == self.variables@,
                ev.vars() == vars,
                kv == known@.map_values(|k: &str| k@),
                resolve_params(vars, src.take(i as int), kv) == Ok::<_, Seq<char>>(out@),
            decreases n - i,
        {
            let k = self.instruction.params.key_at(i);
            let v = self.instruction.params.value_at(i);
            let mut found = false;
            let mut j: usize = 0;
            while j < known.len()
                invariant
                    j <= known@.len(),
                    kv == known@.map_values(|k: &str| k@),
                    found == (exists|m: int| 0 <= m < j && kv[m] == k@),
                decreases known.len() - j,
            {
                let same = crate::text::str_eq(known[j], k.as_str());
                assert(kv[j as int] == known@[j as int]@);
                if same {
                    found = true;
                }
                j += 1;
            }
            proof {
                if found {
                    let m = choose|m: int| 0 <= m < known@.len() && kv[m] == k@;
                    assert(kv.contains(k@));
                } else {
                    assert(!kv.contains(k@));
                }
            }
            assert(src.take(i + 1).drop_last() =~= src.take(i as int));
            assert(src.take(i + 1).last() == src[i as int]);
            if !found {
                match ev.resolve_param(v.as_str()) {
                    Ok(val) => {
                        out.insert(k.clone(), val.as_string());
                    },
                    Err(e) => {
                        proof {
                            lemma_resolve_params_prefix(vars, src, kv, i + 1, resolve_spec(vars, v@)->Err_0);
                        }
                        return Err(e);
                    },
                }
            }
            i += 1;
        }
        assert(src.take(n as int) =~= src);
        Ok(out)
    }
}

// ---------------------------------------------------------------------
// The built-in handlers
// ---------------------------------------------------------------------

/// The tags that go through the conditions, jumps and Lua handlers.
pub open spec fn is_flow_tag(tag: Seq<char>) -> bool {
    tag == "if"@ || tag == "elseif"@ || tag == "else"@ || tag == "/if"@ || tag == "loop"@ || tag == "/loop"@
        || tag == "jump"@ || tag == "call"@ || tag == "tag"@ || tag == "calllua"@
}

/// Whether a built-in handler is named `tag`.
pub open spec fn is_builtin_tag(tag: Seq<char>) -> bool {
    ||| is_flow_tag(tag)
    ||| control::is_control_tag(tag)
    ||| scenario::is_scenario_tag(tag)
    ||| sound::is_sound_tag(tag)
    ||| system::is_system_tag(tag)
    ||| ui::is_ui_tag(tag)
    ||| layer::is_layer_tag(tag)
    ||| event_handler::is_event_handler_tag(tag)
}

/// What the built-in handler named `tag` gives, for an instruction of the
/// script `script_name` (found as `script`) at index `line`.
pub open spec fn builtin_outcome(
    tag: Seq<char>,
    ins: InstructionView,
    vars: StoreView,
    script_name: Seq<char>,
    line: usize,
    script: Option<&Script>,
    r: Result<TagResult, Error>,
) -> bool {
    if tag == "if"@ {
        condition::if_outcome(ins, vars, line, condition::context_tags(script), r)
    } else if tag == "elseif"@ {
        condition::elseif_outcome(ins, vars, line, condition::context_tags(script), r)
    } else if tag == "else"@ {
        condition::else_outcome(line, condition::context_tags(script), r)
    } else if tag == "/if"@ {
        condition::endif_outcome(r)
    } else if tag == "loop"@ {
        condition::loop_outcome(ins, vars, line, condition::context_tags(script), r)
    } else if tag == "/loop"@ {
        condition::endloop_outcome(line, condition::context_tags(script), r)
    } else if tag == "jump"@ {
        jump::jump_outcome(ins, script_name, line, jump::context_labels(script), r)
    } else if tag == "call"@ {
        jump::call_outcome(ins, script_name, line, r)
    } else if tag == "tag"@ {
        jump::tag_outcome(ins, r)
    } else if tag == "calllua"@ {
        lua::call_lua_outcome(ins, line, r)
    } else if control::is_control_tag(tag) {
        control::control_outcome(tag, ins, vars, r)
    } else if scenario::is_scenario_tag(tag) {
        scenario::scenario_outcome(tag, ins, vars, r)
    } else if sound::is_sound_tag(tag) {
        sound::sound_outcome(tag, ins, vars, r)
    } else if system::is_system_tag(tag) {
        system::system_outcome(tag, ins, vars, r)
    } else if ui::is_ui_tag(tag) {
        ui::ui_outcome(tag, ins, vars, r)
    } else if layer::is_layer_tag(tag) {
        layer::layer_outcome(tag, ins, vars, r)
    } else if event_handler::is_event_handler_tag(tag) {
        event_handler::event_handler_outcome(tag, ins, vars, r)
    } else {
        false
    }
}

/// Runs the built-in handler named `tag` in `ctx`; `None` when there is
/// none by that name.
pub fn dispatch_builtin(tag: &str, ctx: &ExecutionContext<'_>) -> (r: Option<Result<TagResult, Error>>)
    ensures
        match r {
            Some(x) => builtin_outcome(tag@, ctx.instruction@, ctx.variables@, ctx.current_script@, ctx.current_line, ctx.script, x),
            None => !is_builtin_tag(tag@),
        },
{
    if str_eq(tag, "if") {
        Some(condition::IfHandler.execute(ctx))
    } else if str_eq(tag, "elseif") {
        Some(condition::ElseifHandler.execute(ctx))
    } else if str_eq(tag, "else") {
        Some(condition::ElseHandler.execute(ctx))
    } else if str_eq(tag, "/if") {
        Some(condition::EndifHandler.execute(ctx))
    } else if str_eq(tag, "loop") {
        Some(condition::LoopHandler.execute(ctx))
    } else if str_eq(tag, "/loop") {
        Some(condition::EndloopHandler.execute(ctx))
    } else if str_eq(tag, "jump") {
        Some(jump::JumpHandler.execute(ctx))
    } else if str_eq(tag, "call") {
        Some(jump::CallHandler.execute(ctx))
    } else if str_eq(tag, "tag") {
        Some(jump::TagTagHandler.execute(ctx))
    } else if str_eq(tag, "calllua") {
        Some(lua::CallLuaHandler.execute(ctx))
    } else {
        match control::dispatch(tag, ctx) {
            Some(x) => return Some(x),
            None => {},
        }
        match scenario::dispatch(tag, ctx) {
            Some(x) => return Some(x),
            None => {},
        }
        match sound::dispatch(tag, ctx) {
            Some(x) => return Some(x),
            None => {},
        }
        match system::dispatch(tag, ctx) {
            Some(x) => return Some(x),
            None => {},
        }
        match ui::dispatch(tag, ctx) {
            Some(x) => return Some(x),
            None => {},
        }
        match layer::dispatch(tag, ctx) {
            Some(x) => return Some(x),
            None => {},
        }
        event_handler::dispatch(tag, ctx)
    }
}

} // verus!
