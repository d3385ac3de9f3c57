//! Declarative test/build orchestration engine for a multi-task repository.
//!
//! The engine reads a per-task test plan and drives an ordered sequence of
//! steps: compiling targets under several build profiles, running command
//! templates, scanning editable files for forbidden code patterns, and
//! controlling an external judge.  Everything that decides or computes lives
//! here; the surrounding binary performs the process, file and network work
//! and feeds the results back in as plain values.

pub mod errors;
pub mod judge;
pub mod pattern;
pub mod pipeline;
pub mod plan;
pub mod profile;
pub mod report;
pub mod resolver;
pub mod strutil;
pub mod template;
