//! The compiled-pattern cache: an explicit registry the host owns and passes
//! into every compile call. Two independent concurrent maps, one keyed by
//! pattern text alone for default-configuration compiles, one keyed by the
//! pair of pattern text and configuration. Entries are published with
//! insert-if-absent semantics and never altered or evicted, so a handle once
//! published may be read from any thread without coordination; distinct
//! pattern cardinality is assumed small, and nothing bounds growth.
//!
//! The maps live behind an opaque struct: their contents change under shared
//! references from other threads, so no spec function of the value could
//! name them. What the wrappers promise instead is the one invariant this
//! module maintains — a handle stored under a key was built for that key —
//! which the publish wrappers demand of every stored value and the lookups
//! therefore deliver.
use vstd::prelude::*;

use crate::config::ReConfig;
use crate::pattern::Pattern;

verus! {

/// The registry of compiled patterns.
#[verifier::external_body]
pub struct PatternCache {
    plain: dashmap::DashMap<String, Pattern>,
    configured: dashmap::DashMap<(String, ReConfig), Pattern>,
}

impl PatternCache {
    /// Relies on dashmap::DashMap::with_capacity: a fresh, empty map.
    #[verifier::external_body]
    pub fn new() -> (r: PatternCache) {
        PatternCache {
            plain: dashmap::DashMap::with_capacity(100),
            configured: dashmap::DashMap::with_capacity(10),
        }
    }

    /// Relies on dashmap::DashMap::get returning a value stored under a key
    /// equal to the one given: only `publish_default` stores into this map,
    /// and it demands of every stored value exactly what is promised here.
    #[verifier::external_body]
    pub fn lookup_default(&self, pattern: &str) -> (r: Option<Pattern>)
        ensures
            r matches Some(p) ==> p.is_for(pattern@, None),
    {
        self.plain.get(pattern).map(|e| e.value().clone())
    }

    /// Relies on dashmap::DashMap::get returning a value stored under a key
    /// equal to the one given: only `publish_config` stores into this map,
    /// and it demands of every stored value exactly what is promised here.
    /// Key equality is the derived field equality of the configuration.
    #[verifier::external_body]
    pub fn lookup_config(&self, pattern: &str, cfg: &ReConfig) -> (r: Option<Pattern>)
        ensures
            r matches Some(p) ==> p.is_for(pattern@, Some(*cfg)),
    {
        self.configured.get(&(pattern.to_string(), *cfg)).map(|e| e.value().clone())
    }

    /// Relies on dashmap::Entry::or_insert: when the key is vacant the given
    /// handle is stored, and either way the one published value under the
    /// key is returned. Two racing builders may both compile, but only one
    /// handle survives as the published value, and every candidate met the
    /// same bound.
    #[verifier::external_body]
    pub fn publish_default(&self, pattern: &str, built: Pattern) -> (r: Pattern)
        requires
            built.is_for(pattern@, None),
        ensures
            r.is_for(pattern@, None),
    {
        self.plain.entry(pattern.to_string()).or_insert(built).value().clone()
    }

    /// Relies on dashmap::Entry::or_insert, as `publish_default`, for the
    /// configuration-keyed map.
    #[verifier::external_body]
    pub fn publish_config(&self, pattern: &str, cfg: &ReConfig, built: Pattern) -> (r: Pattern)
        requires
            built.is_for(pattern@, Some(*cfg)),
        ensures
            r.is_for(pattern@, Some(*cfg)),
    {
        self.configured.entry((pattern.to_string(), *cfg)).or_insert(built).value().clone()
    }

    /// Relies on dashmap::DashMap::len: how many default-configuration
    /// entries are published at the moment of the call.
    #[verifier::external_body]
    pub fn default_len(&self) -> usize {
        self.plain.len()
    }

    /// Relies on dashmap::DashMap::len: how many configured entries are
    /// published at the moment of the call.
    #[verifier::external_body]
    pub fn config_len(&self) -> usize {
        self.configured.len()
    }
}

} // verus!
