//! The interpreter's state and its decisions.
//!
//! The machine holds the loaded scripts, the variables, the position (script
//! and instruction index) and the call stack. It runs one instruction at a
//! time and says what the host has to do next ([`Action`]): hand events to
//! the event callback, run Lua code, load a script file, or handle a tag that
//! no built-in handler knows. The host does that outside work and reports
//! back (`event_answered`, `advance`, `fallback`, ...); every change of
//! position is decided here.
use crate::error::Error;
use crate::event::{CallbackResult, Event};
use crate::script::{Instruction, InstructionView, Script};
use crate::strmap::{StrMap, lookup};
use crate::tags::var_handler::{apply_var_tag, var_tag_effect};
use crate::tags::{ExecutionContext, TagResult, builtin_outcome, dispatch_builtin, is_builtin_tag};
use crate::text::{str_eq, to_owned_string};
use crate::variable::{StoreView, Value, ValueModel, VariableStore, var_get, var_set};
use vstd::prelude::*;

verus! {

/// A frame of the call stack: where `[return]` goes back to.
#[derive(Debug, Clone)]
pub struct CallFrame {
    /// The script to return to.
    pub script: String,
    /// The instruction index to return to.
    pub return_line: usize,
}

/// The contents of a call frame.
pub open spec fn frame_view(f: CallFrame) -> (Seq<char>, usize) {
    (f.script@, f.return_line)
}

/// The contents of a call stack, bottom first.
pub open spec fn stack_view(s: Seq<CallFrame>) -> Seq<(Seq<char>, usize)> {
    Seq::new(s.len(), |i: int| frame_view(s[i]))
}

/// What the last drain of queued tags saw.
#[derive(Debug, Clone)]
pub struct QueuedTagDrain {
    /// The event that made it stop, when one did.
    pub wait: Option<Event>,
    /// Whether a `[return]` ran.
    pub saw_return: bool,
    /// Whether the position changed.
    pub changed_position: bool,
}

/// How a run ended.
#[derive(Debug)]
pub enum ExecutionResult {
    /// Nothing more to run.
    Completed,
    /// Stopped on this event, waiting for the host.
    Wait(Event),
    /// Calls a label of another script.
    CallScript { file: String, label: String },
    /// Jumps to a label of another script.
    JumpScript { file: String, label: String },
}

/// What the host has to do for the run to go on.
#[derive(Debug)]
pub enum Action {
    /// Nothing more to run.
    Completed,
    /// Go on: the position is already updated.
    Next,
    /// Hand these events to the event callback in order, reporting each
    /// answer back.
    Notify(Vec<Event>),
    /// Run this Lua code, then `advance`.
    RunLua(String),
    /// Call this Lua function with these parameters, then `advance` (or, for
    /// a queued tag, go on).
    CallLua { function: String, params: StrMap<String> },
    /// No built-in handler knows this instruction: try the host's own
    /// handlers, then report through `fallback`.
    Unhandled(Instruction),
    /// A call into this script file, which is not loaded: the call frame is
    /// pushed; load the file, then go to `label` in it with `enter_label`.
    NeedScript { file: String, label: String },
}

/// The contents of the machine.
pub struct MachineView {
    /// The loaded scripts.
    pub scripts: Seq<Script>,
    /// The variables.
    pub variables: StoreView,
    /// The running script's name.
    pub current_script: Option<Seq<char>>,
    /// The index of the next instruction to run.
    pub current_line: usize,
    /// The call stack, bottom first.
    pub call_stack: Seq<(Seq<char>, usize)>,
    /// Whether the last wait came from a queued tag.
    pub wait_from_queue: bool,
    /// Whether a queued `[return]` ran since the flags were reset.
    pub saw_return: bool,
    /// Whether a queued tag moved the position since the flags were reset.
    pub changed_position: bool,
}

/// The interpreter's state.
pub struct Machine {
    scripts: Vec<Script>,
    variables: VariableStore,
    current_script: Option<String>,
    current_line: usize,
    call_stack: Vec<CallFrame>,
    last_wait_from_queue: bool,
    last_flush_saw_return: bool,
    last_flush_changed_position: bool,
}

impl View for Machine {
    type V = MachineView;

    closed spec fn view(&self) -> MachineView {
        MachineView {
            scripts: self.scripts@,
            variables: self.variables@,
            current_script: match self.current_script {
                Some(s) => Some(s@),
                None => None,
            },
            current_line: self.current_line,
            call_stack: stack_view(self.call_stack@),
            wait_from_queue: self.last_wait_from_queue,
            saw_return: self.last_flush_saw_return,
            changed_position: self.last_flush_changed_position,
        }
    }
}

// ---------------------------------------------------------------------
// Reading the state
// ---------------------------------------------------------------------

/// The index of the first loaded script named `name`.
pub open spec fn script_index_from(s: Seq<Script>, name: Seq<char>, i: int) -> Option<int>
    decreases s.len() - i,
{
    if i < 0 || i >= s.len() {
        None
    } else if s[i].name@ == name {
        Some(i)
    } else {
        script_index_from(s, name, i + 1)
    }
}

/// The index of the loaded script named `name`.
pub open spec fn script_index(s: Seq<Script>, name: Seq<char>) -> Option<int> {
    script_index_from(s, name, 0)
}

/// The loaded script named `name`.
pub open spec fn find_script(m: MachineView, name: Seq<char>) -> Option<Script> {
    match script_index(m.scripts, name) {
        Some(i) => Some(m.scripts[i]),
        None => None,
    }
}

/// The instruction index of `label` in the script named `name`.
pub open spec fn label_line(m: MachineView, name: Seq<char>, label: Seq<char>) -> Option<usize> {
    match find_script(m, name) {
        Some(s) => lookup(s.labels@, label),
        None => None,
    }
}

/// The running script, when it is loaded.
pub open spec fn running_script(m: MachineView) -> Option<Script> {
    match m.current_script {
        Some(n) => find_script(m, n),
        None => None,
    }
}

/// The instruction at the position, when there is one.
pub open spec fn current_instruction_spec(m: MachineView) -> Option<Instruction> {
    match running_script(m) {
        Some(s) => if m.current_line < s.instructions@.len() {
            Some(s.instructions@[m.current_line as int])
        } else {
            None
        },
        None => None,
    }
}

/// `line + 1`, kept at the largest index.
pub open spec fn line_after(line: usize) -> usize {
    if line < usize::MAX {
        (line + 1) as usize
    } else {
        line
    }
}

/// The machine at another position in the same script.
pub open spec fn at_line(m: MachineView, line: usize) -> MachineView {
    MachineView { current_line: line, ..m }
}

/// The machine with a frame pushed.
pub open spec fn pushed(m: MachineView, script: Seq<char>, line: usize) -> MachineView {
    MachineView { call_stack: m.call_stack.push((script, line)), ..m }
}

/// The machine after returning to the innermost frame (unchanged when the
/// stack is empty).
pub open spec fn popped(m: MachineView) -> MachineView {
    if m.call_stack.len() == 0 {
        m
    } else {
        MachineView {
            current_script: Some(m.call_stack.last().0),
            current_line: m.call_stack.last().1,
            call_stack: m.call_stack.drop_last(),
            ..m
        }
    }
}

impl Machine {
    /// Finds the loaded script named `name`.
    fn script_position(&self, name: &str) -> (r: Option<usize>)
        ensures
            match script_index(self@.scripts, name@) {
                Some(i) => r == Some(i as usize) && 0 <= i < self@.scripts.len() <= usize::MAX,
                None => r is None,
            },
    {
        let n = self.scripts.len();
        let mut i: usize = 0;
        while i < n
            invariant
                i <= n == self.scripts@.len(),
                script_index_from(self.scripts@, name@, i as int) == script_index(self.scripts@, name@),
            decreases n - i,
        {
            if str_eq(self.scripts[i].name.as_str(), name) {
                return Some(i);
            }
            i = i + 1;
        }
        None
    }

    /// The loaded script named `name`.
    pub fn get_script(&self, name: &str) -> (r: Option<&Script>)
        ensures
            match find_script(self@, name@) {
                Some(s) => r matches Some(x) && *x == s,
                None => r is None,
            },
    {
        match self.script_position(name) {
            Some(i) => Some(&self.scripts[i]),
            None => None,
        }
    }

    /// Whether a script named `name` is loaded.
    pub fn has_script(&self, name: &str) -> (r: bool)
        ensures
            r == (find_script(self@, name@) is Some),
    {
        self.script_position(name).is_some()
    }

    /// The running script's name.
    pub fn current_script(&self) -> (r: Option<&str>)
        ensures
            match self@.current_script {
                Some(n) => r matches Some(x) && x@ == n,
                None => r is None,
            },
    {
        match &self.current_script {
            Some(s) => Some(s.as_str()),
            None => None,
        }
    }

    /// The index of the next instruction to run.
    pub fn current_line(&self) -> (r: usize)
        ensures
            r == self@.current_line,
    {
        self.current_line
    }

    /// A copy of the call stack, bottom first.
    pub fn call_stack(&self) -> (r: Vec<CallFrame>)
        ensures
            stack_view(r@) == self@.call_stack,
    {
        let mut r: Vec<CallFrame> = Vec::new();
        let mut i: usize = 0;
        while i < self.call_stack.len()
            invariant
                i <= self.call_stack@.len(),
                r@.len() == i,
                forall|j: int| 0 <= j < i ==> frame_view(#[trigger] r@[j]) == frame_view(self.call_stack@[j]),
            decreases self.call_stack.len() - i,
        {
            let f = &self.call_stack[i];
            r.push(CallFrame { script: f.script.clone(), return_line: f.return_line });
            i = i + 1;
        }
        assert(stack_view(r@) =~= stack_view(self.call_stack@));
        r
    }

    /// The variables.
    pub fn variables(&self) -> (r: &VariableStore)
        ensures
            r@ == self@.variables,
    {
        &self.variables
    }

    /// The value of variable `name`.
    pub fn get_variable(&self, name: &str) -> (r: Option<&Value>)
        ensures
            match var_get(self@.variables, name@) {
                Some(v) => r matches Some(x) && x@ == v,
                None => r is None,
            },
    {
        self.variables.get(name)
    }

    /// Sets variable `name`.
    pub fn set_variable(&mut self, name: &str, value: Value)
        ensures
            final(self)@ == (MachineView { variables: var_set(old(self)@.variables, name@, value@), ..old(self)@ }),
    {
        self.variables.set(name, value);
    }

    /// Replaces the variables (after loading a save).
    pub fn restore_variables(&mut self, store: VariableStore)
        ensures
            final(self)@ == (MachineView { variables: store@, ..old(self)@ }),
    {
        self.variables = store;
    }

    /// The instruction at the position, when there is one.
    pub fn current_instruction(&self) -> (r: Option<&Instruction>)
        ensures
            match current_instruction_spec(self@) {
                Some(i) => r matches Some(x) && *x == i,
                None => r is None,
            },
    {
        match &self.current_script {
            None => None,
            Some(name) => match self.script_position(name.as_str()) {
                None => None,
                Some(i) => {
                    let s = &self.scripts[i];
                    if self.current_line < s.instructions.len() {
                        Some(&s.instructions[self.current_line])
                    } else {
                        None
                    }
                },
            },
        }
    }
}

// ---------------------------------------------------------------------
// What the transitions do
// ---------------------------------------------------------------------

/// The machine with the wait-from-queue mark cleared.
pub open spec fn unmarked(m: MachineView) -> MachineView {
    MachineView { wait_from_queue: false, ..m }
}

/// The running script as a reference, for the handlers.
pub open spec fn running_ref(m: MachineView) -> Option<&'static Script> {
    match running_script(m) {
        Some(s) => Some(&s),
        None => None,
    }
}

/// The running script's name, or the empty name.
pub open spec fn running_name(m: MachineView) -> Seq<char> {
    match m.current_script {
        Some(n) => n,
        None => Seq::empty(),
    }
}

/// What running instruction `ins` at the position gives, `None` when no
/// built-in handler knows it, and the machine `m2` after it: a `[var]`
/// changes the variables, a `[reset]` clears the local and temporary ones;
/// every other tag only reads.
pub open spec fn tag_effect(m: MachineView, ins: InstructionView, m2: MachineView, r: Option<Result<TagResult, Error>>) -> bool {
    if ins.tag == "var"@ {
        &&& m2 == (MachineView { variables: m2.variables, ..m })
        &&& match r {
            Some(Ok(TagResult::Continue)) => var_tag_effect(ins.params, m.variables, m2.variables, Ok(())),
            Some(Err(e)) => var_tag_effect(ins.params, m.variables, m2.variables, Err(e)),
            _ => false,
        }
    } else if ins.tag == "reset"@ {
        &&& m2 == (MachineView {
            variables: StoreView { local: Seq::empty(), temp: Seq::empty(), ..m.variables },
            ..m
        })
        &&& r matches Some(Ok(TagResult::Continue))
    } else {
        &&& m2 == m
        &&& match r {
            Some(x) => builtin_outcome(ins.tag, ins, m.variables, running_name(m), m.current_line, running_ref(m), x),
            None => !is_builtin_tag(ins.tag),
        }
    }
}

/// Going to `label` of the script `name`: the error when the script is not
/// loaded or has no such label, with nothing changed.
pub open spec fn enter_effect(m: MachineView, name: Seq<char>, label: Seq<char>, m2: MachineView, r: Result<Action, Error>) -> bool {
    match find_script(m, name) {
        None => m2 == m && (r matches Err(Error::ScriptNotFound(n)) && n@ == name),
        Some(sc) => match lookup(sc.labels@, label) {
            Some(t) => r matches Ok(Action::Next) && m2 == (MachineView { current_script: Some(name), current_line: t, ..m }),
            None => m2 == m && (r matches Err(Error::LabelNotFound(l)) && l@ == label),
        },
    }
}

/// A call of `label` (in `file` when given, else in the script
/// `return_script`) that returns to `return_line` of `return_script`: the
/// frame is pushed first; a file that is not loaded is then asked for;
/// otherwise the position moves to the label, or the missing script or
/// label is the error.
pub open spec fn call_effect(
    m: MachineView,
    file: Option<Seq<char>>,
    label: Seq<char>,
    return_line: usize,
    return_script: Seq<char>,
    m2: MachineView,
    r: Result<Action, Error>,
) -> bool {
    let m1 = pushed(m, return_script, return_line);
    match file {
        Some(f) => if find_script(m, f) is None {
            &&& m2 == m1
            &&& r matches Ok(Action::NeedScript { file: nf, label: nl })
            &&& nf@ == f && nl@ == label
        } else {
            enter_effect(m1, f, label, m2, r)
        },
        None => match find_script(m, return_script) {
            None => m2 == m1 && (r matches Err(Error::ScriptNotFound(n)) && n@ == return_script),
            Some(sc) => match lookup(sc.labels@, label) {
                Some(t) => r matches Ok(Action::Next) && m2 == at_line(m1, t),
                None => m2 == m1 && (r matches Err(Error::LabelNotFound(l)) && l@ == label),
            },
        },
    }
}

/// What handing a result that is not `Dynamic` on in the running script
/// does: the position moves as the result says, and events, Lua calls and
/// script loads go to the host.
pub open spec fn apply_effect(m: MachineView, result: TagResult, m2: MachineView, r: Result<Action, Error>) -> bool {
    match result {
        TagResult::Continue => r matches Ok(Action::Next) && m2 == at_line(m, line_after(m.current_line)),
        TagResult::Jump(l) => r matches Ok(Action::Next) && m2 == at_line(m, l),
        TagResult::Call { file, label, return_line, return_script } => call_effect(
            m,
            crate::tags::opt_view(file),
            label@,
            return_line,
            return_script@,
            m2,
            r,
        ),
        TagResult::Return => if m.call_stack.len() == 0 {
            r matches Ok(Action::Completed) && m2 == m
        } else {
            r matches Ok(Action::Next) && m2 == popped(m)
        },
        TagResult::Wait(e) => m2 == m && (r matches Ok(Action::Notify(es)) && es@ == seq![e]),
        TagResult::Emit(e) => m2 == m && (r matches Ok(Action::Notify(es)) && es@ == seq![e]),
        TagResult::EmitMany(es) => if es@.len() == 0 {
            r matches Ok(Action::Next) && m2 == at_line(m, line_after(m.current_line))
        } else {
            m2 == m && (r matches Ok(Action::Notify(fs)) && fs@ == es@)
        },
        TagResult::CallLua { function, params } => r == Ok::<Action, Error>(Action::CallLua { function, params }) && m2 == m,
        TagResult::Dynamic(_) => false,
    }
}

/// What running the instruction named by a `Dynamic` result gives: as the
/// inner result says, where a call or return first moves past the
/// instruction; another `Dynamic` is an error.
pub open spec fn dynamic_effect(m: MachineView, inner: InstructionView, m2: MachineView, r: Result<Action, Error>) -> bool {
    exists|m1: MachineView, x: Option<Result<TagResult, Error>>| {
        &&& #[trigger] tag_effect(m, inner, m1, x)
        &&& match x {
            None => m2 == m1 && (r matches Ok(Action::Unhandled(i)) && i@ == inner),
            Some(Err(e)) => m2 == m1 && r == Err::<Action, Error>(e),
            Some(Ok(TagResult::Dynamic(_))) => m2 == m1 && (r matches Err(Error::RuntimeError { line: l, message: msg })
                && l == m1.current_line && msg@ == "不支持嵌套的 tag 标签"@),
            Some(Ok(y)) => if y is Call || y is Return {
                apply_effect(at_line(m1, line_after(m1.current_line)), y, m2, r)
            } else {
                apply_effect(m1, y, m2, r)
            },
        }
    }
}

/// What handing a handler's result on in the running script does.
pub open spec fn result_effect(m: MachineView, result: TagResult, m2: MachineView, r: Result<Action, Error>) -> bool {
    match result {
        TagResult::Dynamic(inner) => dynamic_effect(m, inner@, m2, r),
        _ => apply_effect(m, result, m2, r),
    }
}

/// What running the instruction `ins` of the running script does (the
/// wait-from-queue mark already cleared).
pub open spec fn instruction_effect(m: MachineView, ins: InstructionView, m2: MachineView, r: Result<Action, Error>) -> bool {
    if ins.tag == "__text"@ {
        &&& m2 == m
        &&& r matches Ok(Action::Notify(es))
        &&& es@.len() == 1
        &&& es@[0] matches Event::ScenarioText { content, inline }
        &&& content@ == crate::tags::param_text(ins, "text"@)
        &&& !inline
    } else if ins.tag == "__lua_block"@ {
        m2 == m && (r matches Ok(Action::RunLua(code)) && code@ == crate::tags::param_text(ins, "code"@))
    } else {
        exists|m1: MachineView, x: Option<Result<TagResult, Error>>| {
            &&& #[trigger] tag_effect(m, ins, m1, x)
            &&& match x {
                None => m2 == m1 && (r matches Ok(Action::Unhandled(i)) && i@ == ins),
                Some(Err(e)) => m2 == m1 && r == Err::<Action, Error>(e),
                Some(Ok(y)) => result_effect(m1, y, m2, r),
            }
        }
    }
}

/// What one step of the script does: nothing more to run when the
/// position is past the end or the script is not loaded; else the
/// instruction there runs.
pub open spec fn step_effect(m: MachineView, m2: MachineView, r: Result<Action, Error>) -> bool {
    match current_instruction_spec(m) {
        None => m2 == unmarked(m) && r matches Ok(Action::Completed),
        Some(ins) => instruction_effect(unmarked(m), ins@, m2, r),
    }
}

/// What handing a queued tag's result on does. The position is already at
/// the next instruction to run, so a call returns to it, and going on does
/// not move it.
pub open spec fn queued_effect(m: MachineView, result: TagResult, m2: MachineView, r: Result<Action, Error>) -> bool {
    let moved = MachineView { changed_position: true, ..m };
    match result {
        TagResult::Continue => r matches Ok(Action::Next) && m2 == m,
        TagResult::Jump(l) => r matches Ok(Action::Next) && m2 == at_line(moved, l),
        TagResult::Call { file, label, return_line: _, return_script } => call_effect(
            moved,
            crate::tags::opt_view(file),
            label@,
            m.current_line,
            return_script@,
            m2,
            r,
        ),
        TagResult::Return => r matches Ok(Action::Next) && m2 == popped(MachineView { saw_return: true, ..moved }),
        TagResult::Dynamic(_) => r matches Ok(Action::Next) && m2 == m,
        TagResult::EmitMany(es) => if es@.len() == 0 {
            r matches Ok(Action::Next) && m2 == m
        } else {
            m2 == m && (r matches Ok(Action::Notify(fs)) && fs@ == es@)
        },
        _ => apply_effect(m, result, m2, r),
    }
}

/// What running a queued tag `ins` does: a `Dynamic` result runs the named
/// tag in turn (once).
pub open spec fn queued_tag_effect(m: MachineView, ins: InstructionView, m2: MachineView, r: Result<Action, Error>) -> bool {
    exists|m1: MachineView, x: Option<Result<TagResult, Error>>| {
        &&& #[trigger] tag_effect(m, ins, m1, x)
        &&& match x {
            None => m2 == m1 && (r matches Ok(Action::Unhandled(i)) && i@ == ins),
            Some(Err(e)) => m2 == m1 && r == Err::<Action, Error>(e),
            Some(Ok(TagResult::Dynamic(inner))) => exists|m3: MachineView, z: Option<Result<TagResult, Error>>| {
                &&& #[trigger] tag_effect(m1, inner@, m3, z)
                &&& match z {
                    None => m2 == m3 && (r matches Ok(Action::Unhandled(i)) && i@ == inner@),
                    Some(Err(e)) => m2 == m3 && r == Err::<Action, Error>(e),
                    Some(Ok(y)) => queued_effect(m3, y, m2, r),
                }
            },
            Some(Ok(y)) => queued_effect(m1, y, m2, r),
        }
    }
}

impl Machine {
    /// The running script, when it is loaded.
    fn running(&self) -> (r: Option<&Script>)
        ensures
            match running_script(self@) {
                Some(sc) => r matches Some(x) && *x == sc,
                None => r is None,
            },
    {
        match &self.current_script {
            Some(n) => self.get_script(n.as_str()),
            None => None,
        }
    }

    /// The running script's name, or the empty name.
    fn running_name(&self) -> (r: &str)
        ensures
            r@ == running_name(self@),
    {
        proof {
            reveal_strlit("");
        }
        match &self.current_script {
            Some(n) => n.as_str(),
            None => "",
        }
    }

    /// Runs instruction `ins` at the position: `[var]` on the variables,
    /// any other tag through its built-in handler; `None` when there is none.
    pub fn execute_tag(&mut self, ins: &Instruction) -> (r: Option<Result<TagResult, Error>>)
        ensures
            tag_effect(old(self)@, ins@, final(self)@, r),
    {
        if str_eq(ins.tag.as_str(), "var") {
            match apply_var_tag(&ins.params, &mut self.variables) {
                Ok(()) => Some(Ok(TagResult::Continue)),
                Err(e) => Some(Err(e)),
            }
        } else if str_eq(ins.tag.as_str(), "reset") {
            self.variables.reset();
            Some(Ok(TagResult::Continue))
        } else {
            let script = self.running();
            let ctx = ExecutionContext {
                variables: &self.variables,
                current_script: self.running_name(),
                current_line: self.current_line,
                instruction: ins,
                script,
            };
            let r = dispatch_builtin(ins.tag.as_str(), &ctx);
            proof {
                assert(ctx.script == running_ref(self@));
            }
            r
        }
    }

    /// Pushes a call frame.
    fn push_frame(&mut self, script: String, line: usize)
        ensures
            final(self)@ == pushed(old(self)@, script@, line),
    {
        self.call_stack.push(CallFrame { script, return_line: line });
        assert(stack_view(self.call_stack@) =~= old(self)@.call_stack.push((script@, line)));
    }

    /// The call of `label` that returns to `return_line` of `return_script`.
    fn do_call(&mut self, file: Option<String>, label: String, return_line: usize, return_script: String) -> (r: Result<Action, Error>)
        ensures
            call_effect(old(self)@, crate::tags::opt_view(file), label@, return_line, return_script@, final(self)@, r),
    {
        match file {
            Some(f) => {
                let loaded = self.has_script(f.as_str());
                self.push_frame(return_script, return_line);
                if !loaded {
                    return Ok(Action::NeedScript { file: f, label });
                }
                self.enter_label(f.as_str(), label.as_str())
            },
            None => {
                let ghost m0 = self@;
                let found = self.has_script(return_script.as_str());
                let target = match self.get_script(return_script.as_str()) {
                    Some(sc) => sc.get_label_line(label.as_str()),
                    None => None,
                };
                let rs = to_owned_string(return_script.as_str());
                self.push_frame(return_script, return_line);
                if !found {
                    return Err(Error::ScriptNotFound(rs));
                }
                match target {
                    Some(t) => {
                        self.current_line = t;
                        Ok(Action::Next)
                    },
                    None => Err(Error::LabelNotFound(label)),
                }
            },
        }
    }

    /// Goes to `label` of the loaded script `name` (after the host loaded the
    /// file that a call asked for); the missing script or label is the error.
    pub fn enter_label(&mut self, name: &str, label: &str) -> (r: Result<Action, Error>)
        ensures
            enter_effect(old(self)@, name@, label@, final(self)@, r),
    {
        let target = match self.get_script(name) {
            Some(sc) => Some(sc.get_label_line(label)),
            None => None,
        };
        match target {
            None => Err(Error::ScriptNotFound(to_owned_string(name))),
            Some(None) => Err(Error::LabelNotFound(to_owned_string(label))),
            Some(Some(t)) => {
                self.current_script = Some(to_owned_string(name));
                self.current_line = t;
                Ok(Action::Next)
            },
        }
    }

    /// Hands a result that is not `Dynamic` on in the running script.
    fn apply_plain(&mut self, result: TagResult) -> (r: Result<Action, Error>)
        requires
            !(result is Dynamic),
        ensures
            apply_effect(old(self)@, result, final(self)@, r),
    {
        match result {
            TagResult::Continue => {
                self.advance();
                Ok(Action::Next)
            },
            TagResult::Jump(l) => {
                self.current_line = l;
                Ok(Action::Next)
            },
            TagResult::Call { file, label, return_line, return_script } => self.do_call(
                file,
                label,
                return_line,
                return_script,
            ),
            TagResult::Return => match self.call_stack.pop() {
                Some(frame) => {
                    assert(frame_view(frame) == old(self)@.call_stack.last());
                    self.current_script = Some(frame.script);
                    self.current_line = frame.return_line;
                    assert(stack_view(self.call_stack@) =~= old(self)@.call_stack.drop_last());
                    Ok(Action::Next)
                },
                None => Ok(Action::Completed),
            },
            TagResult::Wait(e) => {
                let mut es: Vec<Event> = Vec::new();
                es.push(e);
                assert(es@ =~= seq![e]);
                Ok(Action::Notify(es))
            },
            TagResult::Emit(e) => {
                let mut es: Vec<Event> = Vec::new();
                es.push(e);
                assert(es@ =~= seq![e]);
                Ok(Action::Notify(es))
            },
            TagResult::EmitMany(es) => if es.len() == 0 {
                self.advance();
                Ok(Action::Next)
            } else {
                Ok(Action::Notify(es))
            },
            TagResult::CallLua { function, params } => Ok(Action::CallLua { function, params }),
            TagResult::Dynamic(_) => Ok(Action::Next),
        }
    }

    /// Goes on to the next instruction (after the host ran Lua code or
    /// handed on the events of an instruction).
    pub fn advance(&mut self)
        ensures
            final(self)@ == at_line(old(self)@, line_after(old(self)@.current_line)),
    {
        if self.current_line < usize::MAX {
            self.current_line = self.current_line + 1;
        }
    }
}

impl Machine {
    /// Hands a handler's result on in the running script.
    pub fn apply_result(&mut self, result: TagResult) -> (r: Result<Action, Error>)
        ensures
            result_effect(old(self)@, result, final(self)@, r),
    {
        match result {
            TagResult::Dynamic(inner) => {
                let ghost m0 = self@;
                let x = self.execute_tag(&inner);
                let ghost m1 = self@;
                let r = match x {
                    None => Ok(Action::Unhandled(inner)),
                    Some(Err(e)) => Err(e),
                    Some(Ok(TagResult::Dynamic(_))) => Err(Error::RuntimeError {
                        line: self.current_line,
                        message: to_owned_string("不支持嵌套的 tag 标签"),
                    }),
                    Some(Ok(y)) => {
                        let moves = match &y {
                            TagResult::Call { .. } => true,
                            TagResult::Return => true,
                            _ => false,
                        };
                        if moves {
                            self.advance();
                        }
                        self.apply_plain(y)
                    },
                };
                assert(tag_effect(m0, inner@, m1, x));
                r
            },
            other => self.apply_plain(other),
        }
    }

    /// Runs the instruction at the position.
    pub fn step_inline(&mut self) -> (r: Result<Action, Error>)
        ensures
            step_effect(old(self)@, final(self)@, r),
    {
        self.last_wait_from_queue = false;
        let ins = match self.current_instruction() {
            Some(i) => i.duplicate(),
            None => return Ok(Action::Completed),
        };
        assert(current_instruction_spec(self@) matches Some(i) && i@ == ins@);
        if str_eq(ins.tag.as_str(), "__text") {
            let content = ins.get_string("text");
            let mut es: Vec<Event> = Vec::new();
            es.push(Event::ScenarioText { content, inline: false });
            return Ok(Action::Notify(es));
        }
        if str_eq(ins.tag.as_str(), "__lua_block") {
            return Ok(Action::RunLua(ins.get_string("code")));
        }
        let ghost m0 = self@;
        let x = self.execute_tag(&ins);
        let ghost m1 = self@;
        let r = match x {
            None => Ok(Action::Unhandled(ins)),
            Some(Err(e)) => Err(e),
            Some(Ok(y)) => self.apply_result(y),
        };
        assert(tag_effect(m0, ins@, m1, x));
        r
    }

    /// The host's answer to an event of the running instruction: `Ok(true)`
    /// when it paused; going on after the instruction's last event moves
    /// past it; an abort is the error.
    pub fn event_answered(&mut self, answer: CallbackResult, last: bool) -> (r: Result<bool, Error>)
        ensures
            match answer {
                CallbackResult::Continue => r == Ok::<bool, Error>(false) && final(self)@ == (if last {
                    at_line(old(self)@, line_after(old(self)@.current_line))
                } else {
                    old(self)@
                }),
                CallbackResult::Pause => r == Ok::<bool, Error>(true) && final(self)@ == old(self)@,
                CallbackResult::Abort => (r matches Err(Error::Aborted)) && final(self)@ == old(self)@,
            },
    {
        match answer {
            CallbackResult::Continue => {
                if last {
                    self.advance();
                }
                Ok(false)
            },
            CallbackResult::Pause => Ok(true),
            CallbackResult::Abort => Err(Error::Aborted),
        }
    }

    /// After the host tried its own handlers on an instruction that no
    /// built-in handler knows: handled, the run goes on after it; else it
    /// becomes a `Custom` event with its tag and parameters.
    pub fn fallback(&mut self, ins: Instruction, handled: bool) -> (r: Action)
        ensures
            handled ==> r is Next && final(self)@ == at_line(old(self)@, line_after(old(self)@.current_line)),
            !handled ==> final(self)@ == old(self)@ && (r matches Action::Notify(es) && es@.len() == 1
                && (es@[0] matches Event::Custom { tag, params } && tag == ins.tag && params == ins.params)),
    {
        if handled {
            self.advance();
            Action::Next
        } else {
            let mut es: Vec<Event> = Vec::new();
            es.push(Event::Custom { tag: ins.tag, params: ins.params });
            Action::Notify(es)
        }
    }

    /// Hands a queued tag's result on.
    pub fn apply_queued(&mut self, result: TagResult) -> (r: Result<Action, Error>)
        ensures
            queued_effect(old(self)@, result, final(self)@, r),
    {
        match result {
            TagResult::Continue => Ok(Action::Next),
            TagResult::Jump(l) => {
                self.last_flush_changed_position = true;
                self.current_line = l;
                Ok(Action::Next)
            },
            TagResult::Call { file, label, return_line: _, return_script } => {
                self.last_flush_changed_position = true;
                let here = self.current_line;
                self.do_call(file, label, here, return_script)
            },
            TagResult::Return => {
                self.last_flush_saw_return = true;
                self.last_flush_changed_position = true;
                match self.call_stack.pop() {
                    Some(frame) => {
                        assert(frame_view(frame) == old(self)@.call_stack.last());
                        self.current_script = Some(frame.script);
                        self.current_line = frame.return_line;
                        assert(stack_view(self.call_stack@) =~= old(self)@.call_stack.drop_last());
                    },
                    None => {},
                }
                Ok(Action::Next)
            },
            TagResult::Dynamic(_) => Ok(Action::Next),
            TagResult::EmitMany(es) => if es.len() == 0 {
                Ok(Action::Next)
            } else {
                Ok(Action::Notify(es))
            },
            other => self.apply_plain(other),
        }
    }

    /// Runs a tag that Lua queued, at the position (which is already the next
    /// instruction to run).
    pub fn run_queued(&mut self, tag: String, params: StrMap<String>) -> (r: Result<Action, Error>)
        ensures
            queued_tag_effect(
                old(self)@,
                crate::script::InstructionView { tag: tag@, params: params@, line: old(self)@.current_line },
                final(self)@,
                r,
            ),
    {
        let ins = Instruction { tag, params, line: self.current_line };
        let ghost m0 = self@;
        let x = self.execute_tag(&ins);
        let ghost m1 = self@;
        let r = match x {
            None => Ok(Action::Unhandled(ins)),
            Some(Err(e)) => Err(e),
            Some(Ok(TagResult::Dynamic(inner))) => {
                let z = self.execute_tag(&inner);
                let ghost m3 = self@;
                let r2 = match z {
                    None => Ok(Action::Unhandled(inner)),
                    Some(Err(e)) => Err(e),
                    Some(Ok(y)) => self.apply_queued(y),
                };
                assert(tag_effect(m1, inner@, m3, z));
                r2
            },
            Some(Ok(y)) => self.apply_queued(y),
        };
        assert(tag_effect(m0, ins@, m1, x));
        r
    }

    /// The host's answer to an event of a queued tag: `Ok(true)` when it
    /// paused, which marks the wait as coming from the queue; an abort is
    /// the error.
    pub fn queued_event_answered(&mut self, answer: CallbackResult) -> (r: Result<bool, Error>)
        ensures
            match answer {
                CallbackResult::Continue => r == Ok::<bool, Error>(false) && final(self)@ == old(self)@,
                CallbackResult::Pause => r == Ok::<bool, Error>(true) && final(self)@ == (MachineView {
                    wait_from_queue: true,
                    ..old(self)@
                }),
                CallbackResult::Abort => (r matches Err(Error::Aborted)) && final(self)@ == old(self)@,
            },
    {
        match answer {
            CallbackResult::Continue => Ok(false),
            CallbackResult::Pause => {
                self.last_wait_from_queue = true;
                Ok(true)
            },
            CallbackResult::Abort => Err(Error::Aborted),
        }
    }

    /// After the host tried its own handlers on a queued tag that no built-in
    /// handler knows: handled, nothing more; else it becomes a `Custom`
    /// event.
    pub fn fallback_queued(&self, ins: Instruction, handled: bool) -> (r: Action)
        ensures
            handled ==> r is Next,
            !handled ==> (r matches Action::Notify(es) && es@.len() == 1 && (es@[0] matches Event::Custom { tag, params }
                && tag == ins.tag && params == ins.params)),
    {
        if handled {
            Action::Next
        } else {
            let mut es: Vec<Event> = Vec::new();
            es.push(Event::Custom { tag: ins.tag, params: ins.params });
            Action::Notify(es)
        }
    }

    /// Clears what the last drain of queued tags saw.
    pub fn reset_drain_flags(&mut self)
        ensures
            final(self)@ == (MachineView { saw_return: false, changed_position: false, ..old(self)@ }),
    {
        self.last_flush_saw_return = false;
        self.last_flush_changed_position = false;
    }

    /// Whether a queued `[return]` ran, and whether a queued tag moved the
    /// position, since the flags were cleared.
    pub fn drain_flags(&self) -> (r: (bool, bool))
        ensures
            r == (self@.saw_return, self@.changed_position),
    {
        (self.last_flush_saw_return, self.last_flush_changed_position)
    }

    /// Moves past the instruction that the host waited on; after a wait that
    /// came from a queued tag the position is already the next instruction,
    /// and only the mark is cleared.
    pub fn advance_line(&mut self)
        ensures
            old(self)@.wait_from_queue ==> final(self)@ == unmarked(old(self)@),
            !old(self)@.wait_from_queue ==> final(self)@ == at_line(old(self)@, line_after(old(self)@.current_line)),
    {
        if self.last_wait_from_queue {
            self.last_wait_from_queue = false;
            return;
        }
        self.advance();
    }
}

// ---------------------------------------------------------------------
// Setting up
// ---------------------------------------------------------------------

/// The variables of a new machine: the platform and host system names, and
/// the system constants `s.engineversion`, `s.windowsversion`,
/// `s.screen_width`, `s.screen_height`, `s.savepath` (`save` when none is
/// given) and, when given, `s.datapath`.
pub open spec fn initial_variables(
    platform: Seq<char>,
    host_os: Seq<char>,
    width: u32,
    height: u32,
    savepath: Option<Seq<char>>,
    datapath: Option<Seq<char>>,
) -> StoreView {
    let v0 = StoreView {
        local: Seq::empty(),
        global: Seq::empty(),
        temp: Seq::empty(),
        system: Seq::empty(),
        platform,
        host_os,
    };
    let v1 = var_set(v0, "s.engineversion"@, ValueModel::Str("4.00"@));
    let v2 = var_set(v1, "s.windowsversion"@, ValueModel::Str("10.0"@));
    let v3 = var_set(v2, "s.screen_width"@, ValueModel::Int(width as i64));
    let v4 = var_set(v3, "s.screen_height"@, ValueModel::Int(height as i64));
    let v5 = var_set(
        v4,
        "s.savepath"@,
        ValueModel::Str(
            match savepath {
                Some(p) => p,
                None => "save"@,
            },
        ),
    );
    match datapath {
        Some(d) => var_set(v5, "s.datapath"@, ValueModel::Str(d)),
        None => v5,
    }
}

/// The loaded scripts with `sc` in place of the one of the same name, or
/// added at the end.
pub open spec fn with_script(s: Seq<Script>, sc: Script) -> Seq<Script> {
    match script_index(s, sc.name@) {
        Some(i) => s.update(i, sc),
        None => s.push(sc),
    }
}

/// The label that a script starts from: `main`, `start` or `_start`,
/// whichever it has first.
pub open spec fn boot_label(sc: Script) -> Option<Seq<char>> {
    if lookup(sc.labels@, "main"@) is Some {
        Some("main"@)
    } else if lookup(sc.labels@, "start"@) is Some {
        Some("start"@)
    } else if lookup(sc.labels@, "_start"@) is Some {
        Some("_start"@)
    } else {
        None
    }
}

/// Where a script starts: at its boot label, else at its first
/// instruction.
pub open spec fn boot_line(sc: Script) -> usize {
    match boot_label(sc) {
        Some(l) => match lookup(sc.labels@, l) {
            Some(t) => t,
            None => 0,
        },
        None => 0,
    }
}

/// What loading the text `content` as the script `name` does: a parse
/// error changes nothing; else the parsed script takes the place of the one
/// of the same name, or is added.
pub open spec fn load_effect(m: MachineView, name: Seq<char>, content: Seq<char>, m2: MachineView, r: Result<(), Error>) -> bool {
    match crate::script::parse_script(content) {
        Err((line, msg)) => m2 == m && (r matches Err(Error::ParseError { line: l, message: e }) && l == line && e@ == msg),
        Ok((labels, instrs)) => r is Ok && exists|sc: Script| {
            &&& sc.name@ == name
            &&& sc.labels@ == labels
            &&& crate::script::instruction_views(sc.instructions@) == instrs
            &&& #[trigger] with_script(m.scripts, sc) == m2.scripts
            &&& m2 == (MachineView { scripts: with_script(m.scripts, sc), ..m })
        },
    }
}

/// Whether file data starts with the magic of an encrypted script,
/// `ASB` and a zero byte.
pub open spec fn asb_magic(data: Seq<u8>) -> bool {
    data.len() >= 4 && data[0] == 0x41 && data[1] == 0x53 && data[2] == 0x42 && data[3] == 0
}

/// Whether file data is an encrypted script (it starts with `ASB` and a
/// zero byte); other data is script text.
pub fn is_asb_data(data: &[u8]) -> (r: bool)
    ensures
        r == asb_magic(data@),
{
    data.len() >= 4 && data[0] == 0x41 && data[1] == 0x53 && data[2] == 0x42 && data[3] == 0
}

/// The text that `String::from_utf8_lossy` makes of file data: valid UTF-8
/// decoded, each invalid sequence replaced by U+FFFD.
pub uninterp spec fn lossy_text(data: Seq<u8>) -> Seq<char>;

/// Calls `String::from_utf8_lossy` and takes the text out of the `Cow`.
/// Claimed: the text depends on the data alone (it is `lossy_text` of it),
/// and valid UTF-8 is decoded as it is. What replaces invalid sequences is
/// left to the name.
#[verifier::external_body]
fn utf8_lossy(data: &[u8]) -> (r: String)
    ensures
        r@ == lossy_text(data@),
        vstd::utf8::valid_utf8(data@) ==> r@ == vstd::utf8::decode_utf8(data@),
{
    String::from_utf8_lossy(data).into_owned()
}

impl Machine {
    /// A machine with no script loaded, at no position, with the initial
    /// variables.
    pub fn new(
        platform: String,
        host_os: String,
        stage_width: u32,
        stage_height: u32,
        savepath: Option<String>,
        datapath: Option<String>,
    ) -> (m: Machine)
        ensures
            m@ == (MachineView {
                scripts: Seq::empty(),
                variables: initial_variables(
                    platform@,
                    host_os@,
                    stage_width,
                    stage_height,
                    crate::tags::opt_view(savepath),
                    crate::tags::opt_view(datapath),
                ),
                current_script: None,
                current_line: 0,
                call_stack: Seq::empty(),
                wait_from_queue: false,
                saw_return: false,
                changed_position: false,
            }),
    {
        let ghost pv = platform@;
        let ghost hv = host_os@;
        let ghost sp = crate::tags::opt_view(savepath);
        let ghost dp = crate::tags::opt_view(datapath);
        let mut vars = VariableStore::new();
        vars.set_platform(platform);
        vars.set_host_os(host_os);
        assert(vars@.local =~= Seq::<(Seq<char>, ValueModel)>::empty());
        assert(vars@.global =~= Seq::<(Seq<char>, ValueModel)>::empty());
        assert(vars@.temp =~= Seq::<(Seq<char>, ValueModel)>::empty());
        assert(vars@.system =~= Seq::<(Seq<char>, ValueModel)>::empty());
        assert(vars@ == (StoreView {
            local: Seq::empty(),
            global: Seq::empty(),
            temp: Seq::empty(),
            system: Seq::empty(),
            platform: pv,
            host_os: hv,
        }));
        vars.set("s.engineversion", Value::String(to_owned_string("4.00")));
        vars.set("s.windowsversion", Value::String(to_owned_string("10.0")));
        vars.set("s.screen_width", Value::Int(stage_width as i64));
        vars.set("s.screen_height", Value::Int(stage_height as i64));
        let save = match savepath {
            Some(p) => p,
            None => to_owned_string("save"),
        };
        vars.set("s.savepath", Value::String(save));
        match datapath {
            Some(d) => vars.set("s.datapath", Value::String(d)),
            None => {},
        }
        let m = Machine {
            scripts: Vec::new(),
            variables: vars,
            current_script: None,
            current_line: 0,
            call_stack: Vec::new(),
            last_wait_from_queue: false,
            last_flush_saw_return: false,
            last_flush_changed_position: false,
        };
        assert(stack_view(m.call_stack@) =~= Seq::<(Seq<char>, usize)>::empty());
        m
    }

    /// Parses `content` as the script `name` and loads it, in place of a
    /// script of the same name.
    pub fn load_script(&mut self, name: &str, content: &str) -> (r: Result<(), Error>)
        ensures
            load_effect(old(self)@, name@, content@, final(self)@, r),
    {
        let sc = match Script::parse(name, content) {
            Ok(sc) => sc,
            Err(e) => return Err(e),
        };
        let ghost scv = sc;
        match self.script_position(name) {
            Some(i) => {
                self.scripts.set(i, sc);
            },
            None => {
                self.scripts.push(sc);
            },
        }
        assert(with_script(old(self)@.scripts, scv) == self@.scripts);
        Ok(())
    }

    /// Loads script text from file data, decoded as UTF-8 with invalid
    /// sequences replaced.
    pub fn load_text_file(&mut self, name: &str, data: &[u8]) -> (r: Result<(), Error>)
        ensures
            load_effect(old(self)@, name@, lossy_text(data@), final(self)@, r),
            vstd::utf8::valid_utf8(data@) ==> load_effect(
                old(self)@,
                name@,
                vstd::utf8::decode_utf8(data@),
                final(self)@,
                r,
            ),
    {
        let text = utf8_lossy(data);
        let r = self.load_script(name, text.as_str());
        assert(load_effect(old(self)@, name@, text@, self@, r));
        r
    }

    /// Starts at `label` of the loaded script `script`, with an empty call
    /// stack.
    pub fn start(&mut self, script: &str, label: &str) -> (r: Result<(), Error>)
        ensures
            match find_script(old(self)@, script@) {
                None => final(self)@ == old(self)@ && (r matches Err(Error::ScriptNotFound(n)) && n@ == script@),
                Some(sc) => match lookup(sc.labels@, label@) {
                    None => final(self)@ == old(self)@ && (r matches Err(Error::LabelNotFound(l)) && l@ == label@),
                    Some(t) => r is Ok && final(self)@ == (MachineView {
                        current_script: Some(script@),
                        current_line: t,
                        call_stack: Seq::empty(),
                        ..old(self)@
                    }),
                },
            },
    {
        let line = match self.get_script(script) {
            None => return Err(Error::ScriptNotFound(to_owned_string(script))),
            Some(sc) => match sc.get_label_line(label) {
                None => return Err(Error::LabelNotFound(to_owned_string(label))),
                Some(t) => t,
            },
        };
        self.current_script = Some(to_owned_string(script));
        self.current_line = line;
        self.call_stack = Vec::new();
        assert(stack_view(self.call_stack@) =~= Seq::<(Seq<char>, usize)>::empty());
        Ok(())
    }

    /// Starts the loaded script `script` at `main`, `start` or `_start`,
    /// else at its first instruction.
    pub fn boot(&mut self, script: &str) -> (r: Result<(), Error>)
        ensures
            match find_script(old(self)@, script@) {
                None => final(self)@ == old(self)@ && (r matches Err(Error::ScriptNotFound(n)) && n@ == script@),
                Some(sc) => r is Ok && final(self)@ == (MachineView {
                    current_script: Some(script@),
                    current_line: boot_line(sc),
                    call_stack: Seq::empty(),
                    ..old(self)@
                }),
            },
    {
        let line = match self.get_script(script) {
            None => return Err(Error::ScriptNotFound(to_owned_string(script))),
            Some(sc) => match sc.get_label_line("main") {
                Some(t) => t,
                None => match sc.get_label_line("start") {
                    Some(t) => t,
                    None => match sc.get_label_line("_start") {
                        Some(t) => t,
                        None => 0,
                    },
                },
            },
        };
        self.current_script = Some(to_owned_string(script));
        self.current_line = line;
        self.call_stack = Vec::new();
        assert(stack_view(self.call_stack@) =~= Seq::<(Seq<char>, usize)>::empty());
        Ok(())
    }

    /// Puts the position and call stack back (after loading a save).
    pub fn restore_position(&mut self, script: &str, line: usize, stack: Vec<CallFrame>)
        ensures
            final(self)@ == (MachineView {
                current_script: Some(script@),
                current_line: line,
                call_stack: stack_view(stack@),
                ..old(self)@
            }),
    {
        self.current_script = Some(to_owned_string(script));
        self.current_line = line;
        self.call_stack = stack;
    }
}

// ---------------------------------------------------------------------
// Laws
// ---------------------------------------------------------------------

/// A script that was just loaded is the one found under its name.
pub proof fn law_loaded_script_is_found(s: Seq<Script>, sc: Script)
    ensures
        script_index(with_script(s, sc), sc.name@) matches Some(i) && with_script(s, sc)[i] == sc,
{
    match script_index(s, sc.name@) {
        Some(j) => lemma_index_update(s, sc, j, 0),
        None => lemma_index_push(s, sc, 0),
    }
}

proof fn lemma_index_update(s: Seq<Script>, sc: Script, j: int, i: int)
    requires
        0 <= i,
        script_index_from(s, sc.name@, i) == Some(j),
    ensures
        script_index_from(s.update(j, sc), sc.name@, i) == Some(j),
        0 <= j < s.len(),
    decreases s.len() - i,
{
    if i < s.len() && s[i].name@ != sc.name@ {
        lemma_index_update(s, sc, j, i + 1);
    }
}

proof fn lemma_index_push(s: Seq<Script>, sc: Script, i: int)
    requires
        0 <= i <= s.len(),
        script_index_from(s, sc.name@, i) is None,
    ensures
        script_index_from(s.push(sc), sc.name@, i) == Some(s.len() as int),
    decreases s.len() - i,
{
    if i < s.len() {
        lemma_index_push(s, sc, i + 1);
    }
}

/// A call followed by the matching return comes back where the call said,
/// with the call stack, the scripts and the variables as they were.
pub proof fn law_call_then_return(
    m: MachineView,
    file: Option<Seq<char>>,
    label: Seq<char>,
    return_line: usize,
    return_script: Seq<char>,
    m2: MachineView,
    r: Result<Action, Error>,
)
    requires
        call_effect(m, file, label, return_line, return_script, m2, r),
        r matches Ok(Action::Next),
    ensures
        popped(m2).current_script == Some(return_script),
        popped(m2).current_line == return_line,
        popped(m2).call_stack == m.call_stack,
        popped(m2).scripts == m.scripts,
        popped(m2).variables == m.variables,
{
    assert(m.call_stack.push((return_script, return_line)).drop_last() =~= m.call_stack);
}

/// A call into a file that was not loaded, with the file loaded and then
/// entered, followed by the matching return, also comes back where the call
/// said, with the call stack and the variables as they were.
pub proof fn law_call_after_load_then_return(
    m: MachineView,
    file: Seq<char>,
    label: Seq<char>,
    return_line: usize,
    return_script: Seq<char>,
    m2: MachineView,
    r: Result<Action, Error>,
    content: Seq<char>,
    m3: MachineView,
    r3: Result<(), Error>,
    m4: MachineView,
    r4: Result<Action, Error>,
)
    requires
        call_effect(m, Some(file), label, return_line, return_script, m2, r),
        r matches Ok(Action::NeedScript { .. }),
        load_effect(m2, file, content, m3, r3),
        r3 is Ok,
        enter_effect(m3, file, label, m4, r4),
        r4 matches Ok(Action::Next),
    ensures
        popped(m4).current_script == Some(return_script),
        popped(m4).current_line == return_line,
        popped(m4).call_stack == m.call_stack,
        popped(m4).variables == m.variables,
{
    assert(m.call_stack.push((return_script, return_line)).drop_last() =~= m.call_stack);
}

/// After a wait that came from a queued tag, moving past the waited
/// instruction keeps the position: it already is the next instruction.
pub proof fn law_queued_wait_keeps_position(m: MachineView)
    ensures
        unmarked(MachineView { wait_from_queue: true, ..m }).current_line == m.current_line,
        unmarked(MachineView { wait_from_queue: true, ..m }).call_stack == m.call_stack,
{
}

/// A call queued from Lua returns to the instruction that was next when it
/// ran, not past it: after the call and the matching return, the position
/// is that instruction, with the call stack as before.
pub proof fn law_queued_call_returns_to_pending(
    m: MachineView,
    file: Option<String>,
    label: String,
    return_line: usize,
    return_script: String,
    m2: MachineView,
    r: Result<Action, Error>,
)
    requires
        queued_effect(m, TagResult::Call { file, label, return_line, return_script }, m2, r),
        r matches Ok(Action::Next),
    ensures
        popped(m2).current_line == m.current_line,
        popped(m2).current_script == Some(return_script@),
        popped(m2).call_stack == m.call_stack,
{
    assert(m.call_stack.push((return_script@, m.current_line)).drop_last() =~= m.call_stack);
}

impl Machine {
    /// Clears the mark of a wait that came from a queued tag, as every step
    /// of the script does first.
    pub fn begin_inline(&mut self)
        ensures
            final(self)@ == unmarked(old(self)@),
    {
        self.last_wait_from_queue = false;
    }

    /// Sends a tag from Lua's `e:tag` to the variables or the queue.
    pub fn route_lua_tag(&mut self, tag: String, params: StrMap<String>) -> (r: Result<crate::engine::Routed, Error>)
        ensures
            final(self)@ == (MachineView { variables: final(self)@.variables, ..old(self)@ }),
            tag@ == "var"@ ==> match r {
                Ok(x) => x is Applied && var_tag_effect(
                    crate::strmap::entries_remove(params@, "1"@),
                    old(self)@.variables,
                    final(self)@.variables,
                    Ok(()),
                ),
                Err(e) => var_tag_effect(
                    crate::strmap::entries_remove(params@, "1"@),
                    old(self)@.variables,
                    final(self)@.variables,
                    Err(e),
                ),
            },
            tag@ != "var"@ ==> final(self)@.variables == old(self)@.variables && (r matches Ok(
                crate::engine::Routed::Queued { tag: t, params: q },
            ) && t@ == tag@ && q@ == crate::strmap::entries_remove(params@, "1"@)),
    {
        crate::engine::route_tag(tag, params, &mut self.variables)
    }
}

} // verus!
