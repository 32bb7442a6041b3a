//! Policy checks on a range of commits.
//!
//! Rules are declared in a [`config::Config`] and compiled once into the
//! [`config::CompiledRules`] in force. Every path that a commit changes is
//! then evaluated against them ([`evaluate`]), which leaves records: a
//! violation fails the commit, a confirmation is for information. The commits
//! to validate are those that a walk from the upstream tip meets before the
//! local head ([`walk`]), and the range passes when each of them does.
//!
//! The library decides and computes; it reads no repository and no file. Its
//! callers hand it the changes of each commit, and the content of a changed
//! file where the library asks for it.
//!
//! Glob patterns are matched by `globset`, and the content of JSON and CSV
//! files is parsed by `serde_json` and `csv`. What those crates return is
//! taken on trust, in the modules [`glob`] and [`content`]; everything else
//! is verified, and the modules' contracts are stated over ghost models of
//! their types. What holds of every rule set and every change is proved in
//! [`laws`].

pub mod change;
pub mod config;
pub mod content;
pub mod evaluate;
pub mod glob;
pub mod laws;
pub mod path;
pub mod report;
pub mod walk;
