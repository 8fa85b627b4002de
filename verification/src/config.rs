//! Compile options, and their translation into the concrete settings each
//! backend builder is given.
use vstd::prelude::*;

verus! {

/// Compiled-size ceiling used when the caller sets none, matching the
/// linear-time backend's own default.
pub const DEFAULT_SIZE_LIMIT: usize = 10485760;

/// Lazy-DFA cache ceiling used when no configuration is given, matching the
/// linear-time backend's own default.
pub const DEFAULT_DFA_SIZE_LIMIT: usize = 2097152;

/// Backtracking step ceiling used when the caller sets none, matching the
/// backtracking backend's own default.
pub const DEFAULT_BACKTRACK_LIMIT: usize = 1000000;

/// Lazy-DFA cache ceiling that a configuration starts from when built with
/// the stock constructor.
pub const CONFIG_DFA_SIZE_LIMIT: usize = 10000000;

/// Immutable compile options. A configured compile is cached under the pair
/// of pattern text and this value.
#[derive(Clone, Copy, PartialEq, Eq, Hash, Debug)]
pub struct ReConfig {
    pub case_insensitive: bool,
    pub ignore_whitespace: bool,
    pub multiline: bool,
    pub unicode_mode: bool,
    pub size_limit: Option<usize>,
    pub dfa_size_limit: usize,
    pub backtrack_limit: Option<usize>,
}

impl ReConfig {
    /// Builds a configuration from every field.
    pub fn new(
        case_insensitive: bool,
        ignore_whitespace: bool,
        multiline: bool,
        unicode_mode: bool,
        size_limit: Option<usize>,
        dfa_size_limit: usize,
        backtrack_limit: Option<usize>,
    ) -> (r: ReConfig)
        ensures
            r.case_insensitive == case_insensitive,
            r.ignore_whitespace == ignore_whitespace,
            r.multiline == multiline,
            r.unicode_mode == unicode_mode,
            r.size_limit == size_limit,
            r.dfa_size_limit == dfa_size_limit,
            r.backtrack_limit == backtrack_limit,
    {
        ReConfig {
            case_insensitive,
            ignore_whitespace,
            multiline,
            unicode_mode,
            size_limit,
            dfa_size_limit,
            backtrack_limit,
        }
    }
}

impl Default for ReConfig {
    /// The stock configuration: every flag off, no size or backtrack ceiling,
    /// and the stock lazy-DFA cache ceiling.
    fn default() -> (r: ReConfig)
        ensures
            r == ReConfig::spec_default(),
    {
        ReConfig {
            case_insensitive: false,
            ignore_whitespace: false,
            multiline: false,
            unicode_mode: false,
            size_limit: None,
            dfa_size_limit: CONFIG_DFA_SIZE_LIMIT,
            backtrack_limit: None,
        }
    }
}

impl ReConfig {
    /// The value `Default` yields.
    pub open spec fn spec_default() -> ReConfig {
        ReConfig {
            case_insensitive: false,
            ignore_whitespace: false,
            multiline: false,
            unicode_mode: false,
            size_limit: None,
            dfa_size_limit: CONFIG_DFA_SIZE_LIMIT,
            backtrack_limit: None,
        }
    }
}

/// The concrete settings a backend builder is given: every field resolved,
/// with the backends' own defaults filled in where the caller left a choice
/// open.
#[derive(Clone, Copy, PartialEq, Eq, Hash, Debug)]
pub struct BuildOptions {
    pub case_insensitive: bool,
    pub ignore_whitespace: bool,
    pub multiline: bool,
    pub unicode: bool,
    pub size_limit: usize,
    pub dfa_size_limit: usize,
    pub backtrack_limit: usize,
}

impl BuildOptions {
    /// The options as a plain tuple; compiled-automaton behaviour is keyed on
    /// the pattern text together with this tuple.
    pub open spec fn key(&self) -> (bool, bool, bool, bool, usize, usize, usize) {
        (
            self.case_insensitive,
            self.ignore_whitespace,
            self.multiline,
            self.unicode,
            self.size_limit,
            self.dfa_size_limit,
            self.backtrack_limit,
        )
    }
}

/// The settings used when the caller gives no configuration: the backends'
/// own defaults.
pub open spec fn spec_default_options() -> BuildOptions {
    BuildOptions {
        case_insensitive: false,
        ignore_whitespace: false,
        multiline: false,
        unicode: true,
        size_limit: DEFAULT_SIZE_LIMIT,
        dfa_size_limit: DEFAULT_DFA_SIZE_LIMIT,
        backtrack_limit: DEFAULT_BACKTRACK_LIMIT,
    }
}

/// The settings a configuration maps to, field for field, with backend
/// defaults filled in for the two optional ceilings.
pub open spec fn spec_config_options(c: ReConfig) -> BuildOptions {
    BuildOptions {
        case_insensitive: c.case_insensitive,
        ignore_whitespace: c.ignore_whitespace,
        multiline: c.multiline,
        unicode: c.unicode_mode,
        size_limit: match c.size_limit {
            Some(v) => v,
            None => DEFAULT_SIZE_LIMIT,
        },
        dfa_size_limit: c.dfa_size_limit,
        backtrack_limit: match c.backtrack_limit {
            Some(v) => v,
            None => DEFAULT_BACKTRACK_LIMIT,
        },
    }
}

/// The settings an optional configuration resolves to.
pub open spec fn spec_resolve_options(c: Option<ReConfig>) -> BuildOptions {
    match c {
        Some(cfg) => spec_config_options(cfg),
        None => spec_default_options(),
    }
}

/// Resolves an optional configuration into concrete builder settings.
pub fn resolve_options(config: Option<&ReConfig>) -> (r: BuildOptions)
    ensures
        config is None ==> r == spec_default_options(),
        config matches Some(c) ==> r == spec_config_options(*c),
{
    match config {
        None => BuildOptions {
            case_insensitive: false,
            ignore_whitespace: false,
            multiline: false,
            unicode: true,
            size_limit: DEFAULT_SIZE_LIMIT,
            dfa_size_limit: DEFAULT_DFA_SIZE_LIMIT,
            backtrack_limit: DEFAULT_BACKTRACK_LIMIT,
        },
        Some(c) => BuildOptions {
            case_insensitive: c.case_insensitive,
            ignore_whitespace: c.ignore_whitespace,
            multiline: c.multiline,
            unicode: c.unicode_mode,
            size_limit: match c.size_limit {
                Some(v) => v,
                None => DEFAULT_SIZE_LIMIT,
            },
            dfa_size_limit: c.dfa_size_limit,
            backtrack_limit: match c.backtrack_limit {
                Some(v) => v,
                None => DEFAULT_BACKTRACK_LIMIT,
            },
        },
    }
}

} // verus!
