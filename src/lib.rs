//! Selects the files of a source tree that go into a single text snapshot:
//! rules resolved once per run from a built-in policy and user overrides, and
//! a decision for each candidate path.
pub mod default_ignore;
pub mod glob;
pub mod path;
pub mod rules;
pub mod source;
