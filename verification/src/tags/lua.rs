//! `[calllua]`: calling a Lua function.
//!
//! The handler checks the tag and says which function to call with which
//! parameters; the host runs the Lua side and hands the engine object to
//! the function.
use crate::error::Error;
use crate::script::InstructionView;
use crate::tags::{ExecutionContext, TagHandler, TagResult, param_text, params_except};
use crate::text::to_owned_string;
use vstd::prelude::*;

verus! {

/// What `[calllua]` gives: the function named by `function` with every other
/// parameter, or an error when `function` is absent or empty.
pub open spec fn call_lua_outcome(ins: InstructionView, line: usize, r: Result<TagResult, Error>) -> bool {
    if param_text(ins, "function"@).len() == 0 {
        r matches Err(Error::RuntimeError { line: l, message: m }) && l == line
            && m@ == "calllua 缺少 function 参数"@
    } else {
        &&& r matches Ok(TagResult::CallLua { function, params })
        &&& function@ == param_text(ins, "function"@)
        &&& params@ == params_except(ins.params, seq!["function"@])
    }
}

/// `[calllua]`: calls the Lua function named by `function`, handing it the
/// other parameters.
pub struct CallLuaHandler;

impl TagHandler for CallLuaHandler {
    fn execute(&self, ctx: &ExecutionContext<'_>) -> (r: Result<TagResult, Error>)
        ensures
            call_lua_outcome(ctx.instruction@, ctx.current_line, r),
    {
        let function = ctx.instruction.get_string("function");
        if function.as_str().is_empty() {
            return Err(Error::RuntimeError {
                line: ctx.current_line,
                message: to_owned_string("calllua 缺少 function 参数"),
            });
        }
        let known: Vec<&str> = vec!["function"];
        assert(known@.map_values(|k: &str| k@) =~= seq!["function"@]);
        let params = ctx.instruction.params_except(known.as_slice());
        Ok(TagResult::CallLua { function, params })
    }
}

} // verus!
