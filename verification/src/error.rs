//! Errors reported by the interpreter library.
use vstd::prelude::*;

verus! {

/// Why loading or running a script failed.
#[derive(Debug)]
pub enum Error {
    /// The script text could not be parsed at the given (1-based) line.
    ParseError { line: usize, message: String },
    /// No script of this name is loaded and none could be loaded.
    ScriptNotFound(String),
    /// The label does not exist in the target script.
    LabelNotFound(String),
    /// A tag could not be carried out at the given instruction index.
    RuntimeError { line: usize, message: String },
    /// The event callback asked to abort execution.
    Aborted,
    /// The Lua runtime reported an error (its message).
    LuaError(String),
    /// An expression in a tag parameter could not be evaluated.
    ExpressionError(String),
    /// An outside decoder or loader failed (its message).
    ExternalError(String),
}

} // verus!
