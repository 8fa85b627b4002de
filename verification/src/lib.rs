//! A regex-compilation front end.
//!
//! The library classifies a pattern to choose between a linear-time matching
//! backend and a backtracking backend, keeps a concurrent cache of compiled
//! patterns keyed by pattern text and compile options, offers both
//! "search anywhere" and "match at start" semantics through a derived anchored
//! automaton, and resolves named capture groups to indices.
use vstd::prelude::*;

pub mod backend;
pub mod cache;
pub mod classify;
pub mod config;
pub mod engine;
pub mod exceptions;
pub mod groups;
pub mod pattern;
pub mod rmatch;
pub mod textutil;

pub use crate::cache::PatternCache;
pub use crate::config::BuildOptions;
pub use crate::config::ReConfig;
pub use crate::engine::EngineImpl;
pub use crate::engine::ReEngine;
pub use crate::engine::SelectEngine;
pub use crate::exceptions::AppError;
pub use crate::exceptions::ReError;
pub use crate::pattern::Pattern;
pub use crate::pattern::compile;
pub use crate::pattern::compile_custom;
pub use crate::pattern::escape;
pub use crate::pattern::find;
pub use crate::pattern::is_match;
pub use crate::pattern::is_search;
pub use crate::pattern::search;
pub use crate::pattern::sub;
pub use crate::rmatch::RuMatch;

