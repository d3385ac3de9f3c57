//! The engine's error taxonomy.
//!
//! Configuration errors (an unresolvable template processor, an unknown
//! tool, a pattern that does not compile) are fatal and never retried.
//! Diagnostic findings are collected and then converted into a single
//! failure carrying their count.

use vstd::prelude::*;

verus! {

/// A fatal error of the orchestration engine.  Every variant carries the
/// context needed to act on it: the offending name, pattern or count.
#[derive(Debug, PartialEq, Eq)]
pub enum TestError {
    /// A command template token named a processor that is not registered.
    ProcessorNotFound { name: String },
    /// A `tool:` token named a tool missing from the static registry.
    ToolNotFound { name: String },
    /// A pattern group's combined matcher was rejected by the regex engine.
    RegexCompile { pattern: String },
    /// A run-command step had an empty token list.
    NoCmdGiven,
    /// Forbidden patterns were found; carries the total number of findings.
    ForbiddenPatternsFound { count: usize },
}

} // verus!
