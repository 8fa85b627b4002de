//! The two matching backends, behind trusted declarations.
//!
//! Everything a compiled automaton answers is a pure function of the pattern
//! text, the build settings and the haystack, so each backend operation gets
//! an uninterpreted name over those plain values, and one wrapper per outside
//! function states how the call relates to that name. The compiled objects
//! themselves are opaque: the structs below pair each one with the pattern
//! text and settings it was built from, are only ever constructed by the
//! build wrappers here, and expose that key to contracts through spec
//! functions.
use vstd::prelude::*;
use vstd::string::StringSliceAdditionalSpecFns;
use vstd::utf8::encode_utf8;

use crate::config::BuildOptions;
use crate::textutil::valid_span;

verus! {

/// The linear-time backend's compiled automaton type.
#[verifier::external_type_specification]
#[verifier::external_body]
pub struct ExRegex(regex::Regex);

/// The backtracking backend's compiled automaton type.
#[verifier::external_type_specification]
#[verifier::external_body]
pub struct ExFancyRegex(fancy_regex::Regex);

/// The backtracking backend's error type, carried through `Result`s and
/// mapped to the library's own errors in verified code.
#[verifier::external_type_specification]
#[verifier::external_body]
pub struct ExFancyError(fancy_regex::Error);

/// A character the escape routine must protect.
pub open spec fn is_meta_char(c: char) -> bool {
    ||| c == '\\'
    ||| c == '.'
    ||| c == '+'
    ||| c == '*'
    ||| c == '?'
    ||| c == '('
    ||| c == ')'
    ||| c == '|'
    ||| c == '['
    ||| c == ']'
    ||| c == '{'
    ||| c == '}'
    ||| c == '^'
    ||| c == '$'
    ||| c == '#'
    ||| c == '&'
    ||| c == '-'
    ||| c == '~'
}

/// The escaped form of a text: a backslash placed before every meta
/// character, every other character kept as it is.
pub open spec fn spec_escape(s: Seq<char>) -> Seq<char>
    decreases s.len(),
{
    if s.len() == 0 {
        Seq::empty()
    } else {
        (if is_meta_char(s[0]) {
            seq!['\\', s[0]]
        } else {
            seq![s[0]]
        }) + spec_escape(s.drop_first())
    }
}

/// Relies on regex::escape: it walks the text and writes a backslash before
/// exactly the characters its `is_meta_character` lists, keeping every other
/// character unchanged.
#[verifier::external_body]
pub fn escape_text(text: &str) -> (r: String)
    ensures
        r@ == spec_escape(text@),
{
    regex::escape(text)
}

/// Capture-name lists as the contracts see them.
pub open spec fn names_view(s: Seq<Option<String>>) -> Seq<Option<Seq<char>>> {
    Seq::new(
        s.len(),
        |i: int|
            match s[i] {
                Some(n) => Some(n@),
                None => None,
            },
    )
}

/// String lists as the contracts see them.
pub open spec fn strs_view(s: Seq<String>) -> Seq<Seq<char>> {
    Seq::new(s.len(), |i: int| s[i]@)
}

/// Every present span lies inside the haystack and on character boundaries.
pub open spec fn spans_wf(spans: Seq<Option<(usize, usize)>>, bytes: Seq<u8>) -> bool {
    forall|i: int|
        0 <= i < spans.len() ==> (#[trigger] spans[i] matches Some(sp) ==> valid_span(
            bytes,
            sp.0 as int,
            sp.1 as int,
        ))
}

/// Every span lies inside the haystack and on character boundaries.
pub open spec fn plain_spans_wf(spans: Seq<(usize, usize)>, bytes: Seq<u8>) -> bool {
    forall|i: int|
        0 <= i < spans.len() ==> valid_span(
            bytes,
            (#[trigger] spans[i]).0 as int,
            spans[i].1 as int,
        )
}

/// Successive spans do not overlap and come in text order.
pub open spec fn spans_ordered(spans: Seq<(usize, usize)>) -> bool {
    forall|i: int| 0 <= i + 1 < spans.len() ==> (#[trigger] spans[i]).1 <= spans[i + 1].0
}

// What the linear-time backend answers, named as functions of the pattern
// text, the build settings and the haystack alone.
/// Compile result: the capture names in declaration order on success, the
/// builder error's rendering on failure.
pub uninterp spec fn std_compile(
    pat: Seq<char>,
    key: (bool, bool, bool, bool, usize, usize, usize),
) -> Result<Seq<Option<Seq<char>>>, Seq<char>>;

/// Whether a match exists anywhere in the haystack.
pub uninterp spec fn std_is_match(
    pat: Seq<char>,
    key: (bool, bool, bool, bool, usize, usize, usize),
    text: Seq<char>,
) -> bool;

/// The span of the leftmost match, if any.
pub uninterp spec fn std_find(
    pat: Seq<char>,
    key: (bool, bool, bool, bool, usize, usize, usize),
    text: Seq<char>,
) -> Option<(usize, usize)>;

/// The group spans of the leftmost match, if any; an inner `None` is a group
/// that did not take part in the match.
pub uninterp spec fn std_captures(
    pat: Seq<char>,
    key: (bool, bool, bool, bool, usize, usize, usize),
    text: Seq<char>,
) -> Option<Seq<Option<(usize, usize)>>>;

/// The spans of all non-overlapping matches, leftmost to rightmost.
pub uninterp spec fn std_find_iter(
    pat: Seq<char>,
    key: (bool, bool, bool, bool, usize, usize, usize),
    text: Seq<char>,
) -> Seq<(usize, usize)>;

/// The substrings between the matches.
pub uninterp spec fn std_split(
    pat: Seq<char>,
    key: (bool, bool, bool, bool, usize, usize, usize),
    text: Seq<char>,
) -> Seq<Seq<char>>;

/// The haystack with every match replaced by the expanded replacement.
pub uninterp spec fn std_replace_all(
    pat: Seq<char>,
    key: (bool, bool, bool, bool, usize, usize, usize),
    text: Seq<char>,
    repl: Seq<char>,
) -> Seq<char>;

// What the backtracking backend answers. An outer `None` stands for the
// backend reporting a runtime failure (its step ceiling, or a delegate
// error); that too is a function of the same plain values.
/// Compile result: the capture names in declaration order on success, the
/// builder error's rendering on failure.
pub uninterp spec fn fancy_compile(
    pat: Seq<char>,
    key: (bool, bool, bool, bool, usize, usize, usize),
) -> Result<Seq<Option<Seq<char>>>, Seq<char>>;

/// Whether a match exists anywhere in the haystack.
pub uninterp spec fn fancy_is_match(
    pat: Seq<char>,
    key: (bool, bool, bool, bool, usize, usize, usize),
    text: Seq<char>,
) -> Option<bool>;

/// The span of the leftmost match, if any.
pub uninterp spec fn fancy_find(
    pat: Seq<char>,
    key: (bool, bool, bool, bool, usize, usize, usize),
    text: Seq<char>,
) -> Option<Option<(usize, usize)>>;

/// The group spans of the leftmost match, if any.
pub uninterp spec fn fancy_captures(
    pat: Seq<char>,
    key: (bool, bool, bool, bool, usize, usize, usize),
    text: Seq<char>,
) -> Option<Option<Seq<Option<(usize, usize)>>>>;

/// The spans of all non-overlapping matches; a `None` item is a match
/// attempt that failed at runtime.
pub uninterp spec fn fancy_find_iter(
    pat: Seq<char>,
    key: (bool, bool, bool, bool, usize, usize, usize),
    text: Seq<char>,
) -> Seq<Option<(usize, usize)>>;

/// The substrings between the matches; a `None` item failed at runtime.
pub uninterp spec fn fancy_split(
    pat: Seq<char>,
    key: (bool, bool, bool, bool, usize, usize, usize),
    text: Seq<char>,
) -> Seq<Option<Seq<char>>>;

/// The haystack with every match replaced, or a runtime failure.
pub uninterp spec fn fancy_replace_all(
    pat: Seq<char>,
    key: (bool, bool, bool, bool, usize, usize, usize),
    text: Seq<char>,
    repl: Seq<char>,
) -> Option<Seq<char>>;

/// A linear-time automaton, paired with the pattern text and settings it was
/// compiled from. Only `std_build` constructs one.
pub struct StdRe {
    re: regex::Regex,
    pat: String,
    opts: BuildOptions,
    groups: usize,
}

impl StdRe {
    /// The pattern text this automaton was compiled from.
    pub closed spec fn pat(&self) -> Seq<char> {
        self.pat@
    }

    /// The settings this automaton was compiled with.
    pub closed spec fn key(&self) -> (bool, bool, bool, bool, usize, usize, usize) {
        self.opts.key()
    }

    /// How many groups the automaton captures, the whole match included.
    pub closed spec fn group_count(&self) -> usize {
        self.groups
    }

    /// Relies on regex::Regex::is_match: true exactly when a match exists
    /// anywhere in the haystack, a deterministic function of pattern,
    /// settings and haystack.
    #[verifier::external_body]
    pub fn is_match(&self, text: &str) -> (r: bool)
        ensures
            r == std_is_match(self.pat(), self.key(), text@),
    {
        self.re.is_match(text)
    }

    /// Relies on regex::Regex::find: the leftmost match's byte span, which
    /// the crate guarantees lies inside the haystack on character boundaries.
    #[verifier::external_body]
    pub fn find(&self, text: &str) -> (r: Option<(usize, usize)>)
        ensures
            r == std_find(self.pat(), self.key(), text@),
            r matches Some(sp) ==> valid_span(text.spec_bytes(), sp.0 as int, sp.1 as int),
    {
        self.re.find(text).map(|m| (m.start(), m.end()))
    }

    /// Relies on regex::Regex::captures: the leftmost match's group spans;
    /// the list is as long as the automaton's capture-name list, its first
    /// entry is the whole match, and every reported span lies inside the
    /// haystack on character boundaries.
    #[verifier::external_body]
    pub fn captures(&self, text: &str) -> (r: Option<Vec<Option<(usize, usize)>>>)
        ensures
            match r {
                Some(v) => std_captures(self.pat(), self.key(), text@) == Some(v@),
                None => std_captures(self.pat(), self.key(), text@) is None,
            },
            r matches Some(v) ==> {
                &&& v@.len() == self.group_count()
                &&& v@.len() >= 1
                &&& v@[0] is Some
                &&& spans_wf(v@, text.spec_bytes())
            },
    {
        self.re.captures(text).map(
            |c| c.iter().map(|m| m.map(|x| (x.start(), x.end()))).collect(),
        )
    }

    /// Relies on regex::Regex::find_iter: the spans of successive
    /// non-overlapping matches, leftmost to rightmost, each inside the
    /// haystack on character boundaries.
    #[verifier::external_body]
    pub fn find_iter(&self, text: &str) -> (r: Vec<(usize, usize)>)
        ensures
            r@ == std_find_iter(self.pat(), self.key(), text@),
            plain_spans_wf(r@, text.spec_bytes()),
            spans_ordered(r@),
    {
        self.re.find_iter(text).map(|m| (m.start(), m.end())).collect()
    }

    /// Relies on regex::Regex::split: the substrings between the matches.
    #[verifier::external_body]
    pub fn split(&self, text: &str) -> (r: Vec<String>)
        ensures
            strs_view(r@) == std_split(self.pat(), self.key(), text@),
    {
        self.re.split(text).map(|s| s.to_string()).collect()
    }

    /// Relies on regex::Regex::replace_all: the haystack with every match
    /// replaced by the expanded replacement.
    #[verifier::external_body]
    pub fn replace_all(&self, text: &str, repl: &str) -> (r: String)
        ensures
            r@ == std_replace_all(self.pat(), self.key(), text@, repl@),
    {
        self.re.replace_all(text, repl).into_owned()
    }
}

/// Relies on regex::RegexBuilder: compiling a pattern with given settings is
/// deterministic; on success regex::Regex::capture_names lists the capture
/// groups in declaration order, the implicit whole-match group first, and on
/// failure the builder error's own rendering is returned as the diagnostic.
#[verifier::external_body]
pub fn std_build(pattern: &str, opts: &BuildOptions) -> (r: Result<
    (StdRe, Vec<Option<String>>),
    String,
>)
    ensures
        match r {
            Ok(p) => {
                &&& p.0.pat() == pattern@
                &&& p.0.key() == opts.key()
                &&& (std_compile(pattern@, opts.key()) matches Ok(ns) && ns == names_view(
                    p.1@,
                ))
                &&& p.0.group_count() == p.1@.len()
                &&& p.1@.len() >= 1
            },
            Err(d) => std_compile(pattern@, opts.key()) matches Err(diag) && diag == d@,
        },
{
    let mut b = regex::RegexBuilder::new(pattern);
    b.case_insensitive(opts.case_insensitive).ignore_whitespace(opts.ignore_whitespace);
    b.multi_line(opts.multiline).unicode(opts.unicode);
    b.size_limit(opts.size_limit).dfa_size_limit(opts.dfa_size_limit);
    match b.build() {
        Ok(re) => {
            let names: Vec<Option<String>> = re.capture_names().map(|n| n.map(|s| s.to_string())).collect();
            let groups = names.len();
            Ok((StdRe { re, pat: pattern.to_string(), opts: *opts, groups }, names))
        },
        Err(e) => Err(e.to_string()),
    }
}

/// A backtracking automaton, paired with the pattern text and settings it
/// was compiled from. Only `fancy_build` constructs one.
pub struct FancyRe {
    re: fancy_regex::Regex,
    pat: String,
    opts: BuildOptions,
    groups: usize,
}

impl FancyRe {
    /// The pattern text this automaton was compiled from.
    pub closed spec fn pat(&self) -> Seq<char> {
        self.pat@
    }

    /// The settings this automaton was compiled with.
    pub closed spec fn key(&self) -> (bool, bool, bool, bool, usize, usize, usize) {
        self.opts.key()
    }

    /// How many groups the automaton captures, the whole match included.
    pub closed spec fn group_count(&self) -> usize {
        self.groups
    }

    /// Relies on fancy_regex::Regex::is_match: a deterministic answer, or a
    /// deterministic runtime failure such as the backtrack ceiling.
    #[verifier::external_body]
    pub fn is_match(&self, text: &str) -> (r: Result<bool, fancy_regex::Error>)
        ensures
            match r {
                Ok(b) => fancy_is_match(self.pat(), self.key(), text@) == Some(b),
                Err(_) => fancy_is_match(self.pat(), self.key(), text@) is None,
            },
    {
        self.re.is_match(text)
    }

    /// Relies on fancy_regex::Regex::find: the leftmost match's byte span;
    /// the crate slices the haystack at those offsets, so they lie inside it
    /// on character boundaries.
    #[verifier::external_body]
    pub fn find(&self, text: &str) -> (r: Result<Option<(usize, usize)>, fancy_regex::Error>)
        ensures
            match r {
                Ok(o) => fancy_find(self.pat(), self.key(), text@) == Some(o),
                Err(_) => fancy_find(self.pat(), self.key(), text@) is None,
            },
            r matches Ok(o) ==> (o matches Some(sp) ==> valid_span(
                text.spec_bytes(),
                sp.0 as int,
                sp.1 as int,
            )),
    {
        self.re.find(text).map(|o| o.map(|m| (m.start(), m.end())))
    }

    /// Relies on fancy_regex::Regex::captures: the leftmost match's group
    /// spans; the list is as long as the automaton's capture-name list, its
    /// first entry is the whole match, and every reported span lies inside
    /// the haystack on character boundaries.
    #[verifier::external_body]
    pub fn captures(&self, text: &str) -> (r: Result<
        Option<Vec<Option<(usize, usize)>>>,
        fancy_regex::Error,
    >)
        ensures
            match r {
                Ok(o) => match o {
                    Some(v) => fancy_captures(self.pat(), self.key(), text@) == Some(
                        Some(v@),
                    ),
                    None => fancy_captures(self.pat(), self.key(), text@) == Some(
                        None::<Seq<Option<(usize, usize)>>>,
                    ),
                },
                Err(_) => fancy_captures(self.pat(), self.key(), text@) is None,
            },
            r matches Ok(o) ==> (o matches Some(v) ==> {
                &&& v@.len() == self.group_count()
                &&& v@.len() >= 1
                &&& v@[0] is Some
                &&& spans_wf(v@, text.spec_bytes())
            }),
    {
        match self.re.captures(text) {
            Ok(o) => Ok(
                o.map(|c| c.iter().map(|m| m.map(|x| (x.start(), x.end()))).collect()),
            ),
            Err(e) => Err(e),
        }
    }

    /// Relies on fancy_regex::Regex::find_iter: spans of successive
    /// non-overlapping matches in text order; an item that fails at runtime
    /// comes through as its error.
    #[verifier::external_body]
    pub fn find_iter(&self, text: &str) -> (r: Vec<Result<(usize, usize), fancy_regex::Error>>)
        ensures
            r@.len() == fancy_find_iter(self.pat(), self.key(), text@).len(),
            forall|i: int|
                0 <= i < r@.len() ==> match #[trigger] r@[i] {
                    Ok(sp) => fancy_find_iter(self.pat(), self.key(), text@)[i] == Some(sp)
                        && valid_span(text.spec_bytes(), sp.0 as int, sp.1 as int),
                    Err(_) => fancy_find_iter(self.pat(), self.key(), text@)[i] is None,
                },
    {
        self.re.find_iter(text).map(|res| res.map(|m| (m.start(), m.end()))).collect()
    }

    /// Relies on fancy_regex::Regex::split: the substrings between the
    /// matches, in order; an item that fails at runtime comes through as its
    /// error.
    #[verifier::external_body]
    pub fn split(&self, text: &str) -> (r: Vec<Result<String, fancy_regex::Error>>)
        ensures
            r@.len() == fancy_split(self.pat(), self.key(), text@).len(),
            forall|i: int|
                0 <= i < r@.len() ==> match #[trigger] r@[i] {
                    Ok(s) => fancy_split(self.pat(), self.key(), text@)[i] == Some(s@),
                    Err(_) => fancy_split(self.pat(), self.key(), text@)[i] is None,
                },
    {
        self.re.split(text).map(|res| res.map(|s| s.to_string())).collect()
    }

    /// Relies on fancy_regex::Regex::try_replacen with no match limit: the
    /// haystack with every match replaced, or the first runtime failure.
    #[verifier::external_body]
    pub fn replace_all(&self, text: &str, repl: &str) -> (r: Result<String, fancy_regex::Error>)
        ensures
            match r {
                Ok(s) => fancy_replace_all(self.pat(), self.key(), text@, repl@) == Some(s@),
                Err(_) => fancy_replace_all(self.pat(), self.key(), text@, repl@) is None,
            },
    {
        self.re.try_replacen(text, 0, repl).map(|c| c.into_owned())
    }
}

/// Relies on fancy_regex::RegexBuilder: compiling a pattern with given
/// settings is deterministic; on success fancy_regex::Regex::capture_names
/// lists the capture groups in declaration order, the implicit whole-match
/// group first, and on failure the builder error's own rendering is returned
/// as the diagnostic.
#[verifier::external_body]
pub fn fancy_build(pattern: &str, opts: &BuildOptions) -> (r: Result<
    (FancyRe, Vec<Option<String>>),
    String,
>)
    ensures
        match r {
            Ok(p) => {
                &&& p.0.pat() == pattern@
                &&& p.0.key() == opts.key()
                &&& (fancy_compile(pattern@, opts.key()) matches Ok(ns) && ns == names_view(
                    p.1@,
                ))
                &&& p.0.group_count() == p.1@.len()
                &&& p.1@.len() >= 1
            },
            Err(d) => fancy_compile(pattern@, opts.key()) matches Err(diag) && diag == d@,
        },
{
    let mut b = fancy_regex::RegexBuilder::new(pattern);
    b.case_insensitive(opts.case_insensitive).ignore_whitespace(opts.ignore_whitespace);
    b.multi_line(opts.multiline).unicode_mode(opts.unicode);
    b.delegate_size_limit(opts.size_limit).delegate_dfa_size_limit(opts.dfa_size_limit);
    b.backtrack_limit(opts.backtrack_limit);
    match b.build() {
        Ok(re) => {
            let names: Vec<Option<String>> = re.capture_names().map(|n| n.map(|s| s.to_string())).collect();
            let groups = names.len();
            Ok((FancyRe { re, pat: pattern.to_string(), opts: *opts, groups }, names))
        },
        Err(e) => Err(e.to_string()),
    }
}


/// The escaped form is never shorter than the text.
proof fn lemma_escape_len(s: Seq<char>)
    ensures
        spec_escape(s).len() >= s.len(),
    decreases s.len(),
{
    if s.len() > 0 {
        lemma_escape_len(s.drop_first());
    }
}

/// Escaping is injective: distinct texts have distinct escaped forms, so an
/// escaped text read back as a pattern stands for that text alone.
pub proof fn lemma_escape_injective(s1: Seq<char>, s2: Seq<char>)
    requires
        spec_escape(s1) == spec_escape(s2),
    ensures
        s1 == s2,
    decreases s1.len(),
{
    lemma_escape_len(s1);
    lemma_escape_len(s2);
    if s1.len() == 0 {
        assert(s1 =~= s2);
    } else if s2.len() == 0 {
        assert(false);
    } else {
        let e = spec_escape(s1);
        if is_meta_char(s1[0]) && is_meta_char(s2[0]) {
            assert(e[1] == s1[0]);
            assert(spec_escape(s2)[1] == s2[0]);
            assert(spec_escape(s1).skip(2) =~= spec_escape(s1.drop_first()));
            assert(spec_escape(s2).skip(2) =~= spec_escape(s2.drop_first()));
            lemma_escape_injective(s1.drop_first(), s2.drop_first());
            assert forall|i: int| 1 <= i < s1.len() implies s1[i] == s2[i] by {
                assert(s1.drop_first()[i - 1] == s2.drop_first()[i - 1]);
            }
            assert(s1 =~= s2);
        } else if !is_meta_char(s1[0]) && !is_meta_char(s2[0]) {
            assert(e[0] == s1[0]);
            assert(spec_escape(s2)[0] == s2[0]);
            assert(spec_escape(s1).skip(1) =~= spec_escape(s1.drop_first()));
            assert(spec_escape(s2).skip(1) =~= spec_escape(s2.drop_first()));
            lemma_escape_injective(s1.drop_first(), s2.drop_first());
            assert forall|i: int| 1 <= i < s1.len() implies s1[i] == s2[i] by {
                assert(s1.drop_first()[i - 1] == s2.drop_first()[i - 1]);
            }
            assert(s1 =~= s2);
        } else if is_meta_char(s1[0]) {
            assert(e[0] == '\\');
            assert(spec_escape(s2)[0] == s2[0]);
            assert(is_meta_char('\\'));
            assert(false);
        } else {
            assert(e[0] == s1[0]);
            assert(spec_escape(s2)[0] == '\\');
            assert(is_meta_char('\\'));
            assert(false);
        }
    }
}

} // verus!

