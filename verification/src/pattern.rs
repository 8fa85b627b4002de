//! The pattern handle and the operation surface: a search automaton paired
//! with a match automaton derived by anchoring the pattern, compilation with
//! caching, and the module-level convenience operations.
use std::sync::Arc;
use vstd::prelude::*;
use vstd::string::StringExecFns;
use vstd::string::StringSliceAdditionalSpecFns;
use vstd::utf8::encode_utf8;

use crate::backend::spec_escape;
use crate::backend::strs_view;
use crate::cache::PatternCache;
use crate::classify::has_start_anchor;
use crate::classify::spec_starts_anchored;
use crate::config::ReConfig;
use crate::config::resolve_options;
use crate::config::spec_resolve_options;
use crate::engine::ReEngine;
use crate::engine::SelectEngine;
use crate::engine::b_captures;
use crate::engine::b_is_search;
use crate::engine::b_match_spans;
use crate::engine::b_sub;
use crate::engine::create_engine;
use crate::engine::engine_facts;
use crate::engine::lemma_auto_ok_from;
use crate::backend::fancy_compile;
use crate::engine::spec_auto_ok;
use crate::engine::spec_fancy_err_message;
use crate::engine::spec_selects_fancy;
use crate::engine::spec_std_err_message;
use crate::backend::std_compile;
use crate::engine::table_keys;
use crate::engine::texts_of;
use crate::exceptions::AppError;
use crate::rmatch::RuMatch;
use crate::rmatch::spec_filled;

verus! {

/// The pattern rewritten as a non-capturing group wrapped in a start-of-text
/// anchor.
pub open spec fn spec_anchored_pat(p: Seq<char>) -> Seq<char> {
    seq!['^', '(', '?', ':'] + p + seq![')']
}

/// The pattern the match automaton answers for: the pattern itself when it
/// already carries a literal start anchor, the anchored rewriting otherwise.
pub open spec fn spec_match_pat(p: Seq<char>) -> Seq<char> {
    if spec_starts_anchored(encode_utf8(p)) {
        p
    } else {
        spec_anchored_pat(p)
    }
}

/// Whether compiling a handle succeeds: automatic selection must compile the
/// pattern, and, unless the pattern is literally anchored, the anchored
/// rewriting too.
pub open spec fn spec_compile_ok(
    pat: Seq<char>,
    key: (bool, bool, bool, bool, usize, usize, usize),
) -> bool {
    &&& spec_auto_ok(pat, key)
    &&& (spec_starts_anchored(encode_utf8(pat)) || spec_auto_ok(spec_anchored_pat(pat), key))
}

/// The build settings an optional configuration stands for, as the behaviour
/// key.
pub open spec fn spec_key_of(config: Option<ReConfig>) -> (bool, bool, bool, bool, usize, usize, usize) {
    spec_resolve_options(config).key()
}

/// Whether the requested backend compiles the pattern: the forced backend's
/// own answer, or automatic selection's.
pub open spec fn spec_custom_ok(
    sel: Option<SelectEngine>,
    pat: Seq<char>,
    key: (bool, bool, bool, bool, usize, usize, usize),
) -> bool {
    match sel {
        None => spec_auto_ok(pat, key),
        Some(SelectEngine::Std) => std_compile(pat, key) is Ok,
        Some(SelectEngine::Fancy) => fancy_compile(pat, key) is Ok,
    }
}

/// The diagnostic a failed compile under the requested backend carries.
pub open spec fn spec_custom_err_message(
    sel: Option<SelectEngine>,
    pat: Seq<char>,
    key: (bool, bool, bool, bool, usize, usize, usize),
) -> Seq<char> {
    match sel {
        None => spec_fancy_err_message(pat, key),
        Some(SelectEngine::Std) => spec_std_err_message(pat, key),
        Some(SelectEngine::Fancy) => spec_fancy_err_message(pat, key),
    }
}

/// Rewrites the pattern as `^(?:` pattern `)`.
fn anchor_pattern(pattern: &str) -> (r: String)
    ensures
        r@ == spec_anchored_pat(pattern@),
{
    proof {
        reveal_strlit("^(?:");
        reveal_strlit(")");
    }
    let s = "^(?:".to_owned().concat(pattern).concat(")");
    proof {
        assert(s@ =~= spec_anchored_pat(pattern@));
    }
    s
}

/// A compiled pattern: the search automaton, and the match automaton that is
/// either the same automaton (for a literally anchored pattern) or a second
/// one compiled from the anchored rewriting. Immutable and cheap to share.
pub struct Pattern {
    engine: Arc<ReEngine>,
    match_engine: Arc<ReEngine>,
}

impl Clone for Pattern {
    /// Another handle to the same pair of shared automata.
    fn clone(&self) -> (r: Self)
        ensures
            r == *self,
    {
        proof {
            use_type_invariant(self);
        }
        Pattern { engine: self.engine.clone(), match_engine: self.match_engine.clone() }
    }
}

impl Pattern {
    /// The search automaton.
    pub closed spec fn eng(&self) -> ReEngine {
        *self.engine
    }

    /// The match automaton.
    pub closed spec fn meng(&self) -> ReEngine {
        *self.match_engine
    }

    /// The match automaton answers for the anchored form of the search
    /// automaton's pattern, under the same settings.
    #[verifier::type_invariant]
    spec fn inv(self) -> bool {
        &&& self.meng().key() == self.eng().key()
        &&& self.meng().pat() == spec_match_pat(self.eng().pat())
    }

    /// Whether this handle is one that compilation yields for the given
    /// pattern and configuration: both automata carry that pattern (the
    /// match automaton in anchored form) under the configuration's settings,
    /// each compiled by the backend automatic selection chooses.
    pub open spec fn is_for(&self, pat: Seq<char>, cfg: Option<ReConfig>) -> bool {
        let key = spec_key_of(cfg);
        &&& self.eng().pat() == pat
        &&& self.eng().key() == key
        &&& self.eng().is_fancy() == spec_selects_fancy(pat, key)
        &&& self.meng().pat() == spec_match_pat(pat)
        &&& self.meng().key() == key
        &&& self.meng().is_fancy() == spec_selects_fancy(spec_match_pat(pat), key)
    }

    /// The name of the backend behind the search automaton.
    pub fn engine_info(&self) -> (r: String)
        ensures
            r@ == self.eng().spec_engine_info(),
    {
        self.engine.engine_info()
    }

    /// The group names the pattern declares.
    pub fn group_names(&self) -> (r: Vec<String>)
        ensures
            strs_view(r@) == table_keys(self.eng().table()),
    {
        self.engine.group_names()
    }

    /// True iff the pattern occurs anywhere in the text.
    pub fn is_search(&self, text: &str) -> (r: bool)
        ensures
            r == self.eng().spec_is_search(text@),
    {
        self.engine.is_search(text)
    }

    /// True iff the pattern matches at the start of the text, answered by
    /// the anchored automaton without re-running a search.
    pub fn is_match(&self, text: &str) -> (r: bool)
        ensures
            r == self.meng().spec_is_search(text@),
    {
        self.match_engine.is_search(text)
    }

    /// The leftmost occurrence anywhere in the text, with its span alone.
    pub fn find(&self, text: &str) -> (r: Option<RuMatch>)
        ensures
            r is Some <==> self.eng().spec_find(text@) is Some,
            r matches Some(m) ==> {
                &&& m.text_view() == text@
                &&& (self.eng().spec_find(text@) matches Some(sp) && m.spans_view() == seq![sp])
                &&& m.table() == self.eng().table()
            },
    {
        match self.engine.find(text) {
            Some(sp) => {
                let mut caps: Vec<Option<(usize, usize)>> = Vec::new();
                caps.push(Some(sp));
                proof {
                    assert(spec_filled(caps@) =~= seq![sp]);
                }
                Some(RuMatch::new(text, caps, self.engine.table_arc()))
            },
            None => None,
        }
    }

    /// The matched substrings of all non-overlapping occurrences, leftmost
    /// to rightmost.
    pub fn findall(&self, text: &str) -> (r: Vec<String>)
        ensures
            strs_view(r@) == texts_of(self.eng().spec_findall_spans(text@), text@),
    {
        self.engine.findall(text)
    }

    /// The captures of the match at the start of the text, if any, answered
    /// by the anchored automaton; group names resolve through the search
    /// automaton's table.
    pub fn fmatch(&self, text: &str) -> (r: Option<RuMatch>)
        ensures
            r is Some <==> self.meng().spec_captures(text@) is Some,
            r matches Some(m) ==> {
                &&& m.text_view() == text@
                &&& m.spans_view() == self.meng().spec_match_spans(text@)
                &&& m.spans_view().len() == self.meng().group_count()
                &&& m.table() == self.eng().table()
            },
    {
        match self.match_engine.captures_raw(text) {
            Some(caps) => Some(RuMatch::new(text, caps, self.engine.table_arc())),
            None => None,
        }
    }

    /// The captures of the leftmost occurrence anywhere in the text.
    pub fn search(&self, text: &str) -> (r: Result<Option<RuMatch>, AppError>)
        ensures
            r matches Ok(o) && (o is Some <==> self.eng().spec_captures(text@) is Some),
            r matches Ok(o) ==> (o matches Some(m) ==> {
                &&& m.text_view() == text@
                &&& m.spans_view() == self.eng().spec_match_spans(text@)
                &&& m.spans_view().len() == self.eng().group_count()
                &&& m.table() == self.eng().table()
            }),
    {
        self.engine.search(text)
    }

    /// The text with every occurrence replaced.
    pub fn sub(&self, repl: &str, text: &str) -> (r: Result<String, AppError>)
        ensures
            r is Ok <==> self.eng().spec_sub(repl@, text@) is Some,
            r matches Ok(s) ==> Some(s@) == self.eng().spec_sub(repl@, text@),
            r matches Err(e) ==> e matches AppError::RegexError(_),
    {
        self.engine.sub(repl, text)
    }

    /// Escapes every backend meta character in the text.
    pub fn escape(text: &str) -> (r: Result<String, AppError>)
        ensures
            r matches Ok(s) && s@ == spec_escape(text@),
    {
        ReEngine::escape(text)
    }
}

/// Compiles a handle for the pattern under the configuration, by automatic
/// backend selection, consulting the cache first and publishing a freshly
/// built handle with insert-if-absent semantics. The returned handle is the
/// published one, so concurrent callers of the same key end up behaviorally
/// indistinguishable.
pub fn compile(cache: &PatternCache, pattern: &str, config: Option<ReConfig>) -> (r: Result<
    Pattern,
    AppError,
>)
    ensures
        r is Ok <==> spec_compile_ok(pattern@, spec_key_of(config)),
        r matches Ok(p) ==> p.is_for(pattern@, config),
        r matches Err(e) ==> (e matches AppError::RegexError(d) && d.message@ == (
        if !spec_auto_ok(pattern@, spec_key_of(config)) {
            spec_fancy_err_message(pattern@, spec_key_of(config))
        } else {
            spec_fancy_err_message(spec_anchored_pat(pattern@), spec_key_of(config))
        })),
{
    let cached = match &config {
        None => cache.lookup_default(pattern),
        Some(cfg) => cache.lookup_config(pattern, cfg),
    };
    if let Some(p) = cached {
        engine_facts(&*p.engine);
        engine_facts(&*p.match_engine);
        proof {
            lemma_auto_ok_from(p.eng().is_fancy(), p.eng().pat(), p.eng().key());
            lemma_auto_ok_from(p.meng().is_fancy(), p.meng().pat(), p.meng().key());
        }
        return Ok(p);
    }
    let opts = resolve_options(config.as_ref());
    let has_anchor = has_start_anchor(pattern);
    let engine = match create_engine(pattern, &opts, None) {
        Ok(e) => Arc::new(e),
        Err(e) => {
            return Err(e);
        },
    };
    let match_engine = if has_anchor {
        engine.clone()
    } else {
        let anchored = anchor_pattern(pattern);
        match create_engine(anchored.as_str(), &opts, None) {
            Ok(e) => Arc::new(e),
            Err(e) => {
                return Err(e);
            },
        }
    };
    let built = Pattern { engine, match_engine };
    let published = match &config {
        None => cache.publish_default(pattern, built),
        Some(cfg) => cache.publish_config(pattern, cfg, built),
    };
    Ok(published)
}

/// Compiles a handle without consulting or filling the cache, with the
/// backend forced when one is requested.
pub fn compile_custom(pattern: &str, config: Option<ReConfig>, select_engine: Option<
    SelectEngine,
>) -> (r: Result<Pattern, AppError>)
    ensures
        r is Ok <==> (spec_custom_ok(select_engine, pattern@, spec_key_of(config)) && (
        spec_starts_anchored(encode_utf8(pattern@)) || spec_custom_ok(
            select_engine,
            spec_anchored_pat(pattern@),
            spec_key_of(config),
        ))),
        select_engine is None ==> (r matches Ok(p) ==> p.is_for(pattern@, config)),
        r matches Ok(p) ==> {
            &&& p.eng().pat() == pattern@
            &&& p.eng().key() == spec_key_of(config)
            &&& p.meng().pat() == spec_match_pat(pattern@)
            &&& p.meng().key() == spec_key_of(config)
        },
        select_engine matches Some(SelectEngine::Std) ==> (r matches Ok(p) ==> !p.eng().is_fancy()
            && !p.meng().is_fancy()),
        select_engine matches Some(SelectEngine::Fancy) ==> (r matches Ok(p)
            ==> p.eng().is_fancy() && p.meng().is_fancy()),
        r matches Err(e) ==> (e matches AppError::RegexError(d) && d.message@ == (
        if !spec_custom_ok(select_engine, pattern@, spec_key_of(config)) {
            spec_custom_err_message(select_engine, pattern@, spec_key_of(config))
        } else {
            spec_custom_err_message(
                select_engine,
                spec_anchored_pat(pattern@),
                spec_key_of(config),
            )
        })),
{
    let opts = resolve_options(config.as_ref());
    let has_anchor = has_start_anchor(pattern);
    let engine = match create_engine(pattern, &opts, select_engine) {
        Ok(e) => Arc::new(e),
        Err(e) => {
            return Err(e);
        },
    };
    let match_engine = if has_anchor {
        engine.clone()
    } else {
        let anchored = anchor_pattern(pattern);
        match create_engine(anchored.as_str(), &opts, select_engine) {
            Ok(e) => Arc::new(e),
            Err(e) => {
                return Err(e);
            },
        }
    };
    Ok(Pattern { engine, match_engine })
}

/// Compiles (through the cache) and asks whether the pattern matches at the
/// start of the text.
pub fn is_match(cache: &PatternCache, pattern: &str, text: &str, config: Option<ReConfig>) -> (r:
    Result<bool, AppError>)
    ensures
        r is Ok <==> spec_compile_ok(pattern@, spec_key_of(config)),
        r matches Ok(b) ==> b == b_is_search(
            spec_selects_fancy(spec_match_pat(pattern@), spec_key_of(config)),
            spec_match_pat(pattern@),
            spec_key_of(config),
            text@,
        ),
{
    match compile(cache, pattern, config) {
        Ok(p) => Ok(p.is_match(text)),
        Err(e) => Err(e),
    }
}

/// Compiles (through the cache) and asks whether the pattern occurs anywhere
/// in the text.
pub fn is_search(cache: &PatternCache, pattern: &str, text: &str, config: Option<ReConfig>) -> (r:
    Result<bool, AppError>)
    ensures
        r is Ok <==> spec_compile_ok(pattern@, spec_key_of(config)),
        r matches Ok(b) ==> b == b_is_search(
            spec_selects_fancy(pattern@, spec_key_of(config)),
            pattern@,
            spec_key_of(config),
            text@,
        ),
{
    match compile(cache, pattern, config) {
        Ok(p) => Ok(p.is_search(text)),
        Err(e) => Err(e),
    }
}

/// Compiles (through the cache) and returns the captures of the match at the
/// start of the text, if any.
pub fn find(cache: &PatternCache, pattern: &str, text: &str, config: Option<ReConfig>) -> (r:
    Result<Option<RuMatch>, AppError>)
    ensures
        r is Ok <==> spec_compile_ok(pattern@, spec_key_of(config)),
        r matches Ok(o) ==> (o is Some <==> b_captures(
            spec_selects_fancy(spec_match_pat(pattern@), spec_key_of(config)),
            spec_match_pat(pattern@),
            spec_key_of(config),
            text@,
        ) is Some),
        r matches Ok(o) ==> (o matches Some(m) ==> m.text_view() == text@ && m.spans_view()
            == b_match_spans(
            spec_selects_fancy(spec_match_pat(pattern@), spec_key_of(config)),
            spec_match_pat(pattern@),
            spec_key_of(config),
            text@,
        )),
{
    match compile(cache, pattern, config) {
        Ok(p) => Ok(p.fmatch(text)),
        Err(e) => Err(e),
    }
}

/// Compiles (through the cache) and returns the captures of the leftmost
/// occurrence anywhere in the text, if any.
pub fn search(cache: &PatternCache, pattern: &str, text: &str, config: Option<ReConfig>) -> (r:
    Result<Option<RuMatch>, AppError>)
    ensures
        r is Ok <==> spec_compile_ok(pattern@, spec_key_of(config)),
        r matches Ok(o) ==> (o is Some <==> b_captures(
            spec_selects_fancy(pattern@, spec_key_of(config)),
            pattern@,
            spec_key_of(config),
            text@,
        ) is Some),
        r matches Ok(o) ==> (o matches Some(m) ==> m.text_view() == text@ && m.spans_view()
            == b_match_spans(
            spec_selects_fancy(pattern@, spec_key_of(config)),
            pattern@,
            spec_key_of(config),
            text@,
        )),
{
    match compile(cache, pattern, config) {
        Ok(p) => p.search(text),
        Err(e) => Err(e),
    }
}

/// Compiles (through the cache) and replaces every occurrence in the text.
pub fn sub(cache: &PatternCache, pattern: &str, repl: &str, text: &str, config: Option<
    ReConfig,
>) -> (r: Result<String, AppError>)
    ensures
        r is Ok <==> (spec_compile_ok(pattern@, spec_key_of(config)) && b_sub(
            spec_selects_fancy(pattern@, spec_key_of(config)),
            pattern@,
            spec_key_of(config),
            text@,
            repl@,
        ) is Some),
        r matches Ok(s) ==> Some(s@) == b_sub(
            spec_selects_fancy(pattern@, spec_key_of(config)),
            pattern@,
            spec_key_of(config),
            text@,
            repl@,
        ),
{
    match compile(cache, pattern, config) {
        Ok(p) => p.sub(repl, text),
        Err(e) => Err(e),
    }
}

/// Escapes every backend meta character in the text, independent of which
/// backend would eventually be chosen.
pub fn escape(text: &str) -> (r: Result<String, AppError>)
    ensures
        r matches Ok(s) && s@ == spec_escape(text@),
{
    Pattern::escape(text)
}


/// Handles compiled for the same pattern and configuration are behaviorally
/// indistinguishable: every operation's specified result agrees, whatever
/// text and replacement they are given.
pub proof fn lemma_handles_indistinguishable(
    a: Pattern,
    b: Pattern,
    pat: Seq<char>,
    cfg: Option<ReConfig>,
    t: Seq<char>,
    repl: Seq<char>,
)
    requires
        a.is_for(pat, cfg),
        b.is_for(pat, cfg),
    ensures
        a.eng().spec_is_search(t) == b.eng().spec_is_search(t),
        a.meng().spec_is_search(t) == b.meng().spec_is_search(t),
        a.eng().spec_find(t) == b.eng().spec_find(t),
        a.eng().spec_captures(t) == b.eng().spec_captures(t),
        a.meng().spec_captures(t) == b.meng().spec_captures(t),
        a.eng().spec_match_spans(t) == b.eng().spec_match_spans(t),
        a.meng().spec_match_spans(t) == b.meng().spec_match_spans(t),
        a.eng().spec_findall_spans(t) == b.eng().spec_findall_spans(t),
        a.eng().spec_split(t) == b.eng().spec_split(t),
        a.eng().spec_sub(repl, t) == b.eng().spec_sub(repl, t),
        a.eng().spec_engine_info() == b.eng().spec_engine_info(),
{
}

/// Handles compiled for the same pattern and configuration also expose the
/// same group-name table, since both tables are induced by the one
/// capture-name list of that pattern under those settings.
pub fn handles_same_table(a: &Pattern, b: &Pattern)
    requires
        a.eng().pat() == b.eng().pat(),
        a.eng().key() == b.eng().key(),
        a.eng().is_fancy() == b.eng().is_fancy(),
    ensures
        a.eng().table() == b.eng().table(),
{
    engine_facts(&*a.engine);
    engine_facts(&*b.engine);
}

} // verus!

