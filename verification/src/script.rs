//! Validation of list scripts.

use vstd::prelude::*;

verus! {

/// What kind of error a script produced.
#[derive(Debug, Clone, Copy, PartialEq, Eq)]
pub enum ErrorKind {
    /// The script could not be parsed.
    Parsing,
    /// The system failed to run it.
    System,
    /// Any other error.
    Other,
}

/// The engine that runs a script.
#[derive(Debug, Clone, Copy, PartialEq, Eq)]
pub enum ScriptEngine {
    /// The `rhai` scripting language.
    Rhai,
    /// A POSIX shell.
    POSIXShell,
}

impl ScriptEngine {
    /// The default engine, `Rhai`.
    pub fn default_engine() -> (r: ScriptEngine)
        ensures
            r == ScriptEngine::Rhai,
    {
        ScriptEngine::Rhai
    }
}

/// A script error: the engine that ran the script, what it reported, and of
/// what kind the error is.
#[derive(Debug)]
pub struct Error {
    /// The engine.
    pub engine: ScriptEngine,
    /// What the engine reported.
    pub message: String,
    /// The kind of error.
    pub kind: ErrorKind,
}

/// The most operations a script may run for while it is validated, so that
/// every validation ends.
pub const MAX_SCRIPT_OPERATIONS: u64 = 1000000;

/// Runs a script with a new `rhai::Engine` whose operations are limited to
/// `max_operations` (`Engine::set_max_operations`, then `Engine::run`), and
/// returns the engine's error message if it fails. With the limit set the
/// engine stops a script that runs too long with an error, so the call
/// returns. Nothing is stated of which scripts succeed: a script may read
/// the clock or depend on other state.
#[verifier::external_body]
fn rhai_run(script: &str, max_operations: u64) -> (r: Option<String>)
    requires
        max_operations > 0,
{
    let mut engine = rhai::Engine::new();
    engine.set_max_operations(max_operations);
    match engine.run(script) {
        Ok(()) => None,
        Err(err) => Some(err.to_string()),
    }
}

/// Validates a script by running it with the `rhai` engine, whatever the
/// engine asked for, for at most `MAX_SCRIPT_OPERATIONS` operations; an
/// error carries the engine's message, with kind `Other`.
pub fn validate(script: &str, engine_kind: ScriptEngine) -> (r: Result<(), Error>)
    ensures
        r matches Err(e) ==> e.engine == ScriptEngine::Rhai && e.kind == ErrorKind::Other,
{
    match rhai_run(script, MAX_SCRIPT_OPERATIONS) {
        None => Ok(()),
        Some(message) => Err(Error { engine: ScriptEngine::Rhai, message, kind: ErrorKind::Other }),
    }
}

} // verus!
