//! A compiled automaton of either backend, with its group-name table, and the
//! engine builders that translate compile options into backend settings and
//! choose a backend.
use std::sync::Arc;
use vstd::prelude::*;
use vstd::string::StringSliceAdditionalSpecFns;
use vstd::utf8::decode_utf8;
use vstd::utf8::encode_utf8;
use vstd::utf8::encode_utf8_decode_utf8;

use crate::backend::FancyRe;
use crate::backend::StdRe;
use crate::backend::escape_text;
use crate::backend::fancy_build;
use crate::backend::fancy_captures;
use crate::backend::fancy_compile;
use crate::backend::fancy_find;
use crate::backend::fancy_find_iter;
use crate::backend::fancy_is_match;
use crate::backend::fancy_replace_all;
use crate::backend::fancy_split;
use crate::backend::names_view;
use crate::backend::plain_spans_wf;
use crate::backend::spans_wf;
use crate::backend::spec_escape;
use crate::backend::std_build;
use crate::backend::std_captures;
use crate::backend::std_compile;
use crate::backend::std_find;
use crate::backend::std_find_iter;
use crate::backend::std_is_match;
use crate::backend::std_replace_all;
use crate::backend::std_split;
use crate::backend::strs_view;
use crate::classify::needs_backtracking;
use crate::classify::spec_needs_backtracking;
use crate::config::BuildOptions;
use crate::exceptions::AppError;
use crate::exceptions::ReError;
use crate::groups::build_table;
use crate::groups::spec_table;
use crate::groups::table_view;
use crate::rmatch::RuMatch;
use crate::rmatch::spec_filled;
use crate::textutil::valid_span;

verus! {

/// An explicit backend choice, bypassing the classifier.
#[derive(Debug, Clone, Copy)]
pub enum SelectEngine {
    Std,
    Fancy,
}

/// A compiled automaton of one backend.
pub enum EngineImpl {
    Std(StdRe),
    Fancy(FancyRe),
}

/// A compiled automaton together with its group-name table, immutable once
/// built and shared by reference.
pub struct ReEngine {
    inner: EngineImpl,
    group_map: Arc<Vec<(String, usize)>>,
}

/// The items of a sequence that are present, in order: what remains once the
/// backtracking backend's failed match attempts are dropped.
pub open spec fn kept<T>(s: Seq<Option<T>>) -> Seq<T>
    decreases s.len(),
{
    if s.len() == 0 {
        Seq::empty()
    } else {
        kept(s.drop_last()) + (match s.last() {
            Some(x) => seq![x],
            None => Seq::empty(),
        })
    }
}

/// The substrings of a text under a list of byte spans.
pub open spec fn texts_of(spans: Seq<(usize, usize)>, text: Seq<char>) -> Seq<Seq<char>> {
    Seq::new(
        spans.len(),
        |i: int|
            decode_utf8(
                encode_utf8(text).subrange(spans[i].0 as int, spans[i].1 as int),
            ),
    )
}

/// The names of a table's entries, in table order.
pub open spec fn table_keys(t: Seq<(Seq<char>, usize)>) -> Seq<Seq<char>> {
    Seq::new(t.len(), |i: int| t[i].0)
}


/// What one backend answers for "match anywhere": the linear-time backend's
/// answer, or the backtracking backend's with a runtime failure reading as
/// "no match".
pub open spec fn b_is_search(
    fancy: bool,
    pat: Seq<char>,
    key: (bool, bool, bool, bool, usize, usize, usize),
    t: Seq<char>,
) -> bool {
    if fancy {
        fancy_is_match(pat, key, t) == Some(true)
    } else {
        std_is_match(pat, key, t)
    }
}

/// The leftmost match's span under one backend, runtime failures reading as
/// "no match".
pub open spec fn b_find(
    fancy: bool,
    pat: Seq<char>,
    key: (bool, bool, bool, bool, usize, usize, usize),
    t: Seq<char>,
) -> Option<(usize, usize)> {
    if fancy {
        match fancy_find(pat, key, t) {
            Some(o) => o,
            None => None,
        }
    } else {
        std_find(pat, key, t)
    }
}

/// The leftmost match's group spans under one backend, runtime failures
/// reading as "no match".
pub open spec fn b_captures(
    fancy: bool,
    pat: Seq<char>,
    key: (bool, bool, bool, bool, usize, usize, usize),
    t: Seq<char>,
) -> Option<Seq<Option<(usize, usize)>>> {
    if fancy {
        match fancy_captures(pat, key, t) {
            Some(o) => o,
            None => None,
        }
    } else {
        std_captures(pat, key, t)
    }
}

/// Whether the leftmost match starts at byte offset zero.
pub open spec fn b_match_hit(
    fancy: bool,
    pat: Seq<char>,
    key: (bool, bool, bool, bool, usize, usize, usize),
    t: Seq<char>,
) -> bool {
    match b_captures(fancy, pat, key, t) {
        Some(v) => v.len() >= 1 && match v[0] {
            Some(sp) => sp.0 == 0,
            None => false,
        },
        None => false,
    }
}

/// The spans a match result carries: the group spans with absent groups
/// filled by the placeholder.
pub open spec fn b_match_spans(
    fancy: bool,
    pat: Seq<char>,
    key: (bool, bool, bool, bool, usize, usize, usize),
    t: Seq<char>,
) -> Seq<(usize, usize)> {
    match b_captures(fancy, pat, key, t) {
        Some(v) => spec_filled(v),
        None => Seq::empty(),
    }
}

/// The spans of all non-overlapping matches under one backend, failed
/// attempts dropped.
pub open spec fn b_findall_spans(
    fancy: bool,
    pat: Seq<char>,
    key: (bool, bool, bool, bool, usize, usize, usize),
    t: Seq<char>,
) -> Seq<(usize, usize)> {
    if fancy {
        kept(fancy_find_iter(pat, key, t))
    } else {
        std_find_iter(pat, key, t)
    }
}

/// The substrings between the matches under one backend, failed attempts
/// dropped.
pub open spec fn b_split(
    fancy: bool,
    pat: Seq<char>,
    key: (bool, bool, bool, bool, usize, usize, usize),
    t: Seq<char>,
) -> Seq<Seq<char>> {
    if fancy {
        kept(fancy_split(pat, key, t))
    } else {
        std_split(pat, key, t)
    }
}

/// The text with every match replaced under one backend, or nothing on a
/// runtime failure.
pub open spec fn b_sub(
    fancy: bool,
    pat: Seq<char>,
    key: (bool, bool, bool, bool, usize, usize, usize),
    t: Seq<char>,
    repl: Seq<char>,
) -> Option<Seq<char>> {
    if fancy {
        fancy_replace_all(pat, key, t, repl)
    } else {
        Some(std_replace_all(pat, key, t, repl))
    }
}

impl ReEngine {

    /// Whether the backtracking backend compiled this automaton.
    pub closed spec fn is_fancy(&self) -> bool {
        self.inner is Fancy
    }

    /// The pattern text the automaton was compiled from.
    pub closed spec fn pat(&self) -> Seq<char> {
        match self.inner {
            EngineImpl::Std(r) => r.pat(),
            EngineImpl::Fancy(r) => r.pat(),
        }
    }

    /// The settings the automaton was compiled with.
    pub closed spec fn key(&self) -> (bool, bool, bool, bool, usize, usize, usize) {
        match self.inner {
            EngineImpl::Std(r) => r.key(),
            EngineImpl::Fancy(r) => r.key(),
        }
    }

    /// How many groups the automaton captures, the whole match included.
    pub closed spec fn group_count(&self) -> usize {
        match self.inner {
            EngineImpl::Std(r) => r.group_count(),
            EngineImpl::Fancy(r) => r.group_count(),
        }
    }

    /// The group-name table, in declaration order, first declaration winning.
    pub closed spec fn table(&self) -> Seq<(Seq<char>, usize)> {
        table_view(self.group_map@)
    }

    /// The capture-name list of the compiled automaton.
    pub open spec fn compile_names(&self) -> Result<Seq<Option<Seq<char>>>, Seq<char>> {
        if self.is_fancy() {
            fancy_compile(self.pat(), self.key())
        } else {
            std_compile(self.pat(), self.key())
        }
    }

    /// The automaton exists only because its backend compiled the pattern,
    /// and the name table is exactly the one its capture names induce.
    #[verifier::type_invariant]
    spec fn inv(self) -> bool {
        match self.compile_names() {
            Ok(ns) => {
                &&& ns.len() == self.group_count()
                &&& self.group_count() >= 1
                &&& self.table() == spec_table(ns)
            },
            Err(_) => false,
        }
    }

    /// Whether the pattern occurs anywhere in the text. A runtime failure of
    /// the backtracking backend reads as "no match": per-call execution
    /// failures are folded away everywhere but in substitution.
    pub open spec fn spec_is_search(&self, t: Seq<char>) -> bool {
        b_is_search(self.is_fancy(), self.pat(), self.key(), t)
    }

    /// The leftmost match's span, runtime failures reading as "no match".
    pub open spec fn spec_find(&self, t: Seq<char>) -> Option<(usize, usize)> {
        b_find(self.is_fancy(), self.pat(), self.key(), t)
    }

    /// The leftmost match's group spans, runtime failures reading as "no
    /// match".
    pub open spec fn spec_captures(&self, t: Seq<char>) -> Option<Seq<Option<(usize, usize)>>> {
        b_captures(self.is_fancy(), self.pat(), self.key(), t)
    }

    /// Whether the leftmost match starts at the very start of the text.
    pub open spec fn spec_match_hit(&self, t: Seq<char>) -> bool {
        b_match_hit(self.is_fancy(), self.pat(), self.key(), t)
    }

    /// The spans a match result carries: the leftmost match's group spans
    /// with absent groups filled by the placeholder.
    pub open spec fn spec_match_spans(&self, t: Seq<char>) -> Seq<(usize, usize)> {
        b_match_spans(self.is_fancy(), self.pat(), self.key(), t)
    }

    /// The spans of all non-overlapping matches, failed attempts dropped.
    pub open spec fn spec_findall_spans(&self, t: Seq<char>) -> Seq<(usize, usize)> {
        b_findall_spans(self.is_fancy(), self.pat(), self.key(), t)
    }

    /// The substrings between the matches, failed attempts dropped.
    pub open spec fn spec_split(&self, t: Seq<char>) -> Seq<Seq<char>> {
        b_split(self.is_fancy(), self.pat(), self.key(), t)
    }

    /// The text with every match replaced, or nothing on a runtime failure
    /// of the backtracking backend.
    pub open spec fn spec_sub(&self, repl: Seq<char>, t: Seq<char>) -> Option<Seq<char>> {
        b_sub(self.is_fancy(), self.pat(), self.key(), t, repl)
    }

    /// The backend's name.
    pub open spec fn spec_engine_info(&self) -> Seq<char> {
        if self.is_fancy() {
            "fancy_regex"@
        } else {
            "regex"@
        }
    }

    /// True iff the pattern occurs anywhere in the text.
    pub fn is_search(&self, text: &str) -> (r: bool)
        ensures
            r == self.spec_is_search(text@),
    {
        match &self.inner {
            EngineImpl::Std(re) => re.is_match(text),
            EngineImpl::Fancy(re) => match re.is_match(text) {
                Ok(b) => b,
                Err(_) => false,
            },
        }
    }

    /// The leftmost match's byte span, if any.
    pub fn find(&self, text: &str) -> (r: Option<(usize, usize)>)
        ensures
            r == self.spec_find(text@),
            r matches Some(sp) ==> valid_span(text.spec_bytes(), sp.0 as int, sp.1 as int),
    {
        match &self.inner {
            EngineImpl::Std(re) => re.find(text),
            EngineImpl::Fancy(re) => match re.find(text) {
                Ok(o) => o,
                Err(_) => None,
            },
        }
    }

    /// The leftmost match's group spans, if any.
    pub(crate) fn captures_raw(&self, text: &str) -> (r: Option<Vec<Option<(usize, usize)>>>)
        ensures
            match r {
                Some(v) => self.spec_captures(text@) == Some(v@),
                None => self.spec_captures(text@) is None,
            },
            r matches Some(v) ==> {
                &&& v@.len() == self.group_count()
                &&& v@.len() >= 1
                &&& v@[0] is Some
                &&& spans_wf(v@, text.spec_bytes())
            },
    {
        match &self.inner {
            EngineImpl::Std(re) => re.captures(text),
            EngineImpl::Fancy(re) => match re.captures(text) {
                Ok(o) => o,
                Err(_) => None,
            },
        }
    }

    /// The captures of the leftmost match when, and only when, that match
    /// starts at byte offset zero.
    pub fn fmatch(&self, text: &str) -> (r: Option<RuMatch>)
        ensures
            r is Some <==> self.spec_match_hit(text@),
            r matches Some(m) ==> {
                &&& m.text_view() == text@
                &&& m.spans_view() == self.spec_match_spans(text@)
                &&& m.spans_view().len() == self.group_count()
                &&& m.table() == self.table()
            },
    {
        match self.captures_raw(text) {
            Some(caps) => {
                let starts_at_zero = match &caps[0] {
                    Some(sp) => sp.0 == 0,
                    None => false,
                };
                if starts_at_zero {
                    Some(RuMatch::new(text, caps, self.group_map.clone()))
                } else {
                    None
                }
            },
            None => None,
        }
    }

    /// The captures of the leftmost match anywhere in the text.
    pub fn search(&self, text: &str) -> (r: Result<Option<RuMatch>, AppError>)
        ensures
            r matches Ok(o) && (o is Some <==> self.spec_captures(text@) is Some),
            r matches Ok(o) ==> (o matches Some(m) ==> {
                &&& m.text_view() == text@
                &&& m.spans_view() == self.spec_match_spans(text@)
                &&& m.spans_view().len() == self.group_count()
                &&& m.table() == self.table()
            }),
    {
        match self.captures_raw(text) {
            Some(caps) => Ok(Some(RuMatch::new(text, caps, self.group_map.clone()))),
            None => Ok(None),
        }
    }

    /// The substrings between the matches.
    pub fn split(&self, text: &str) -> (r: Vec<String>)
        ensures
            strs_view(r@) == self.spec_split(text@),
    {
        match &self.inner {
            EngineImpl::Std(re) => {
                let r = re.split(text);
                r
            },
            EngineImpl::Fancy(re) => {
                let items = re.split(text);
                let ghost all = fancy_split(self.pat(), self.key(), text@);
                let n = items.len();
                let mut out: Vec<String> = Vec::new();
                let mut i: usize = 0;
                proof {
                    assert(all.take(0) =~= Seq::<Option<Seq<char>>>::empty());
                    assert(strs_view(out@) =~= kept(all.take(0)));
                }
                while i < n
                    invariant
                        0 <= i <= n,
                        n == items@.len(),
                        all.len() == items@.len(),
                        all == fancy_split(self.pat(), self.key(), text@),
                        forall|j: int|
                            0 <= j < items@.len() ==> match #[trigger] items@[j] {
                                Ok(s) => all[j] == Some(s@),
                                Err(_) => all[j] is None,
                            },
                        strs_view(out@) == kept(all.take(i as int)),
                    decreases n - i,
                {
                    let ghost prev = out@;
                    match &items[i] {
                        Ok(s) => {
                            out.push(s.clone());
                            proof {
                                assert(strs_view(out@) =~= strs_view(prev).push(s@));
                            }
                        },
                        Err(_) => {},
                    }
                    proof {
                        assert(all.take(i as int + 1).drop_last() =~= all.take(i as int));
                        assert(strs_view(out@) =~= kept(all.take(i as int + 1)));
                    }
                    i = i + 1;
                }
                proof {
                    assert(all.take(n as int) =~= all);
                }
                out
            },
        }
    }

    /// The spans of all non-overlapping matches, each valid for the text.
    fn findall_spans(&self, text: &str) -> (r: Vec<(usize, usize)>)
        ensures
            r@ == self.spec_findall_spans(text@),
            plain_spans_wf(r@, text.spec_bytes()),
    {
        match &self.inner {
            EngineImpl::Std(re) => {
                let r = re.find_iter(text);
                r
            },
            EngineImpl::Fancy(re) => {
                let items = re.find_iter(text);
                let ghost all = fancy_find_iter(self.pat(), self.key(), text@);
                let n = items.len();
                let mut out: Vec<(usize, usize)> = Vec::new();
                let mut i: usize = 0;
                proof {
                    assert(all.take(0) =~= Seq::<Option<(usize, usize)>>::empty());
                    assert(out@ =~= kept(all.take(0)));
                }
                while i < n
                    invariant
                        0 <= i <= n,
                        n == items@.len(),
                        all.len() == items@.len(),
                        all == fancy_find_iter(self.pat(), self.key(), text@),
                        forall|j: int|
                            0 <= j < items@.len() ==> match #[trigger] items@[j] {
                                Ok(sp) => all[j] == Some(sp) && valid_span(
                                    text.spec_bytes(),
                                    sp.0 as int,
                                    sp.1 as int,
                                ),
                                Err(_) => all[j] is None,
                            },
                        out@ == kept(all.take(i as int)),
                        plain_spans_wf(out@, text.spec_bytes()),
                    decreases n - i,
                {
                    match &items[i] {
                        Ok(sp) => {
                            out.push(*sp);
                        },
                        Err(_) => {},
                    }
                    proof {
                        assert(all.take(i as int + 1).drop_last() =~= all.take(i as int));
                        assert(out@ =~= kept(all.take(i as int + 1)));
                    }
                    i = i + 1;
                }
                proof {
                    assert(all.take(n as int) =~= all);
                }
                out
            },
        }
    }

    /// The matched substrings of all non-overlapping matches, leftmost to
    /// rightmost, cut at the byte offsets the backend reported.
    pub fn findall(&self, text: &str) -> (r: Vec<String>)
        ensures
            strs_view(r@) == texts_of(self.spec_findall_spans(text@), text@),
    {
        let spans = self.findall_spans(text);
        let n = spans.len();
        let mut out: Vec<String> = Vec::new();
        let mut k: usize = 0;
        while k < n
            invariant
                0 <= k <= n,
                n == spans@.len(),
                spans@ == self.spec_findall_spans(text@),
                plain_spans_wf(spans@, text.spec_bytes()),
                strs_view(out@) == texts_of(spans@, text@).take(k as int),
            decreases n - k,
        {
            let (s, e) = spans[k];
            let ghost prev = out@;
            match crate::textutil::slice_span(text, s, e) {
                Some(sub) => {
                    proof {
                        encode_utf8_decode_utf8(sub@);
                        assert(sub@ == texts_of(spans@, text@)[k as int]);
                    }
                    out.push(sub);
                },
                None => {
                    proof {
                        assert(false);
                    }
                },
            }
            proof {
                let ts = texts_of(spans@, text@);
                assert(ts.len() == spans@.len());
                assert(strs_view(prev).len() == prev.len());
                assert(out@.len() == k as int + 1);
                assert forall|j: int| 0 <= j < out@.len() implies strs_view(out@)[j] == ts.take(
                    k as int + 1,
                )[j] by {
                    assert(ts.take(k as int + 1)[j] == ts[j]);
                    if j < k as int {
                        assert(strs_view(out@)[j] == strs_view(prev)[j]);
                        assert(strs_view(prev)[j] == ts.take(k as int)[j]);
                    }
                }
                assert(strs_view(out@) =~= ts.take(k as int + 1));
            }
            k = k + 1;
        }
        proof {
            assert(texts_of(spans@, text@).take(n as int) =~= texts_of(spans@, text@));
        }
        out
    }

    /// The text with every non-overlapping match replaced; the replacement's
    /// group references are the backend's own syntax, passed through
    /// unchanged. A runtime failure of the backtracking backend is surfaced
    /// as an error rather than folded away, since a partly substituted text
    /// would be wrong either way.
    pub fn sub(&self, repl: &str, text: &str) -> (r: Result<String, AppError>)
        ensures
            r is Ok <==> self.spec_sub(repl@, text@) is Some,
            r matches Ok(s) ==> Some(s@) == self.spec_sub(repl@, text@),
            r matches Err(e) ==> (e matches AppError::RegexError(d) && d.message@
                == "Regex execution failed during sub."@),
    {
        match &self.inner {
            EngineImpl::Std(re) => Ok(re.replace_all(text, repl)),
            EngineImpl::Fancy(re) => match re.replace_all(text, repl) {
                Ok(s) => Ok(s),
                Err(_) => Err(
                    AppError::RegexError(
                        ReError::new("Regex execution failed during sub.".to_owned()),
                    ),
                ),
            },
        }
    }

    /// The name of the backend that compiled this automaton.
    pub fn engine_info(&self) -> (r: String)
        ensures
            r@ == self.spec_engine_info(),
    {
        match &self.inner {
            EngineImpl::Std(_) => "regex".to_owned(),
            EngineImpl::Fancy(_) => "fancy_regex".to_owned(),
        }
    }

    /// The group names the automaton declares, in table order.
    pub fn group_names(&self) -> (r: Vec<String>)
        ensures
            strs_view(r@) == table_keys(self.table()),
    {
        let table = &*self.group_map;
        let n = table.len();
        let mut out: Vec<String> = Vec::new();
        let mut i: usize = 0;
        while i < n
            invariant
                0 <= i <= n,
                n == table@.len(),
                table@ == self.group_map@,
                strs_view(out@) == table_keys(self.table()).take(i as int),
            decreases n - i,
        {
            let entry = &table[i];
            let name = entry.0.clone();
            proof {
                assert(name@ == table_keys(self.table())[i as int]);
            }
            let ghost prev = out@;
            out.push(name);
            proof {
                let ks = table_keys(self.table());
                assert(ks.len() == self.group_map@.len());
                assert(strs_view(prev).len() == prev.len());
                assert(out@.len() == i as int + 1);
                assert forall|j: int| 0 <= j < out@.len() implies strs_view(out@)[j] == ks.take(
                    i as int + 1,
                )[j] by {
                    assert(ks.take(i as int + 1)[j] == ks[j]);
                    if j < i as int {
                        assert(strs_view(out@)[j] == strs_view(prev)[j]);
                        assert(strs_view(prev)[j] == ks.take(i as int)[j]);
                    }
                }
                assert(strs_view(out@) =~= ks.take(i as int + 1));
            }
            i = i + 1;
        }
        proof {
            assert(table_keys(self.table()).take(n as int) =~= table_keys(self.table()));
        }
        out
    }

    /// A shared handle to the group-name table.
    pub(crate) fn table_arc(&self) -> (r: Arc<Vec<(String, usize)>>)
        ensures
            table_view(r@) == self.table(),
    {
        self.group_map.clone()
    }

    /// Escapes every backend meta character in the text, so the result
    /// matches the text literally whatever backend compiles it.
    pub fn escape(text: &str) -> (r: Result<String, AppError>)
        ensures
            r matches Ok(s) && s@ == spec_escape(text@),
    {
        Ok(escape_text(text))
    }
}

/// Compiles the pattern with the linear-time backend, or reports that
/// backend's own diagnostic.
pub fn std_engine(pattern: &str, opts: &BuildOptions) -> (r: Result<ReEngine, AppError>)
    ensures
        r is Ok <==> std_compile(pattern@, opts.key()) is Ok,
        r matches Ok(e) ==> {
            &&& e.pat() == pattern@
            &&& e.key() == opts.key()
            &&& !e.is_fancy()
        },
        r matches Err(err) ==> (err matches AppError::RegexError(d) && d.message@
            == spec_std_err_message(pattern@, opts.key())),
{
    match std_build(pattern, opts) {
        Ok((re, names)) => {
            let table = build_table(&names);
            Ok(ReEngine { inner: EngineImpl::Std(re), group_map: Arc::new(table) })
        },
        Err(diag) => Err(AppError::RegexError(ReError::new(diag))),
    }
}

/// Compiles the pattern with the backtracking backend, or reports the
/// backend's own diagnostic.
pub fn fancy_engine(pattern: &str, opts: &BuildOptions) -> (r: Result<ReEngine, AppError>)
    ensures
        r is Ok <==> fancy_compile(pattern@, opts.key()) is Ok,
        r matches Ok(e) ==> {
            &&& e.pat() == pattern@
            &&& e.key() == opts.key()
            &&& e.is_fancy()
        },
        r matches Err(err) ==> (err matches AppError::RegexError(d) && d.message@
            == spec_fancy_err_message(pattern@, opts.key())),
{
    match fancy_build(pattern, opts) {
        Ok((re, names)) => {
            let table = build_table(&names);
            Ok(ReEngine { inner: EngineImpl::Fancy(re), group_map: Arc::new(table) })
        },
        Err(diag) => {
            let msg = "Regex error: ".to_owned().concat(diag.as_str());
            Err(AppError::RegexError(ReError::new(msg)))
        },
    }
}

/// Which backend automatic selection settles on: the classifier routes
/// flagged patterns straight to the backtracking backend, the rest go to the
/// linear-time backend unless it refuses the pattern.
pub open spec fn spec_selects_fancy(
    pat: Seq<char>,
    key: (bool, bool, bool, bool, usize, usize, usize),
) -> bool {
    spec_needs_backtracking(encode_utf8(pat)) || std_compile(pat, key) is Err
}

/// Whether automatic selection compiles the pattern at all.
pub open spec fn spec_auto_ok(
    pat: Seq<char>,
    key: (bool, bool, bool, bool, usize, usize, usize),
) -> bool {
    if spec_needs_backtracking(encode_utf8(pat)) {
        fancy_compile(pat, key) is Ok
    } else {
        std_compile(pat, key) is Ok || fancy_compile(pat, key) is Ok
    }
}

/// The diagnostic a failed backtracking compile carries, under the fixed
/// prefix every such failure is reported with; automatic selection, which
/// falls back to the backtracking backend, fails with this text too.
pub open spec fn spec_fancy_err_message(
    pat: Seq<char>,
    key: (bool, bool, bool, bool, usize, usize, usize),
) -> Seq<char> {
    match fancy_compile(pat, key) {
        Err(diag) => "Regex error: "@ + diag,
        Ok(_) => Seq::empty(),
    }
}

/// The diagnostic a failed linear-time compile carries: the backend's own
/// rendering, unchanged.
pub open spec fn spec_std_err_message(
    pat: Seq<char>,
    key: (bool, bool, bool, bool, usize, usize, usize),
) -> Seq<char> {
    match std_compile(pat, key) {
        Err(diag) => diag,
        Ok(_) => Seq::empty(),
    }
}

/// Compiles the pattern with the requested backend, or, with none requested,
/// by automatic selection: patterns the classifier flags go straight to the
/// backtracking backend; the rest try the linear-time backend first and fall
/// back to the backtracking backend when it refuses.
pub fn create_engine(pattern: &str, opts: &BuildOptions, engine: Option<SelectEngine>) -> (r:
    Result<ReEngine, AppError>)
    ensures
        engine is None ==> {
            &&& (r is Ok <==> spec_auto_ok(pattern@, opts.key()))
            &&& (r matches Ok(e) ==> {
                &&& e.pat() == pattern@
                &&& e.key() == opts.key()
                &&& e.is_fancy() == spec_selects_fancy(pattern@, opts.key())
            })
            &&& (r matches Err(err) ==> (err matches AppError::RegexError(d) && d.message@
                == spec_fancy_err_message(pattern@, opts.key())))
        },
        engine matches Some(SelectEngine::Std) ==> {
            &&& (r is Ok <==> std_compile(pattern@, opts.key()) is Ok)
            &&& (r matches Ok(e) ==> e.pat() == pattern@ && e.key() == opts.key()
                && !e.is_fancy())
            &&& (r matches Err(err) ==> (err matches AppError::RegexError(d) && d.message@
                == spec_std_err_message(pattern@, opts.key())))
        },
        engine matches Some(SelectEngine::Fancy) ==> {
            &&& (r is Ok <==> fancy_compile(pattern@, opts.key()) is Ok)
            &&& (r matches Ok(e) ==> e.pat() == pattern@ && e.key() == opts.key()
                && e.is_fancy())
            &&& (r matches Err(err) ==> (err matches AppError::RegexError(d) && d.message@
                == spec_fancy_err_message(pattern@, opts.key())))
        },
        r matches Err(err) ==> err matches AppError::RegexError(_),
{
    match engine {
        None => {
            if needs_backtracking(pattern) {
                fancy_engine(pattern, opts)
            } else {
                match std_engine(pattern, opts) {
                    Ok(re_engine) => Ok(re_engine),
                    Err(_) => fancy_engine(pattern, opts),
                }
            }
        },
        Some(SelectEngine::Std) => std_engine(pattern, opts),
        Some(SelectEngine::Fancy) => fancy_engine(pattern, opts),
    }
}

/// Lets a caller use an automaton's construction facts: it exists only for a
/// pattern its backend compiled, its capture-name list is as long as its
/// group count, and its name table is the one those names induce.
pub fn engine_facts(e: &ReEngine)
    ensures
        e.compile_names() matches Ok(ns) && ns.len() == e.group_count() && e.group_count() >= 1
            && e.table() == spec_table(ns),
{
    proof {
        use_type_invariant(e);
    }
}

/// A backend that compiled the pattern, and that is the one automatic
/// selection would choose, witnesses that automatic selection compiles the
/// pattern.
pub proof fn lemma_auto_ok_from(
    fancy: bool,
    pat: Seq<char>,
    key: (bool, bool, bool, bool, usize, usize, usize),
)
    requires
        fancy == spec_selects_fancy(pat, key),
        if fancy {
            fancy_compile(pat, key) is Ok
        } else {
            std_compile(pat, key) is Ok
        },
    ensures
        spec_auto_ok(pat, key),
{
}


/// "Match at start" is "search anywhere" restricted to offset zero: under
/// either backend, with any pattern and settings, a match is reported
/// exactly when the search's leftmost match begins at byte offset zero, and
/// the reported spans are then the search's own spans, placeholders filled.
pub proof fn lemma_match_is_search_at_zero(
    fancy: bool,
    pat: Seq<char>,
    key: (bool, bool, bool, bool, usize, usize, usize),
    t: Seq<char>,
)
    ensures
        b_match_hit(fancy, pat, key, t) <==> (b_captures(fancy, pat, key, t) matches Some(v)
            && v.len() >= 1 && (match v[0] {
            Some(sp) => sp.0 == 0,
            None => false,
        })),
        b_match_hit(fancy, pat, key, t) ==> (b_captures(fancy, pat, key, t) matches Some(v)
            && b_match_spans(fancy, pat, key, t) == spec_filled(v)),
{
}

} // verus!

