//! The result of one successful match: the matched text, the byte spans of
//! the whole match and of every capture group, and a shared view of the
//! owning automaton's group-name table. Spans come only from the backend,
//! never from caller arithmetic, so every substring is cut at character
//! boundaries the backend itself reported.
use std::sync::Arc;
use vstd::prelude::*;
use vstd::string::StringExecFns;
use vstd::string::StringSliceAdditionalSpecFns;
use vstd::utf8::encode_utf8;
use vstd::utf8::encode_utf8_valid_utf8;

use crate::exceptions::AppError;
use crate::exceptions::ReError;
use crate::groups::lookup_index;
use crate::groups::spec_lookup;
use crate::groups::table_view;
use crate::textutil::decimal_i32;
use crate::textutil::decimal_u64;
use crate::textutil::slice_span;
use crate::textutil::spec_decimal_int;
use crate::textutil::spec_decimal_nat;
use crate::textutil::valid_span;

verus! {

/// A group that took no part in the match is reported with this zero-length
/// placeholder span; it reads as an empty substring, exactly as a genuine
/// empty match at the start of the text would.
pub open spec fn spec_filled(caps: Seq<Option<(usize, usize)>>) -> Seq<(usize, usize)> {
    Seq::new(
        caps.len(),
        |i: int|
            match caps[i] {
                Some(sp) => sp,
                None => (0usize, 0usize),
            },
    )
}

/// One successful match over a text.
pub struct RuMatch {
    text: String,
    spans: Vec<(usize, usize)>,
    group_map: Arc<Vec<(String, usize)>>,
}

impl RuMatch {
    /// Every reported span exists (the whole match first) and lies inside the
    /// text on character boundaries.
    #[verifier::type_invariant]
    spec fn inv(self) -> bool {
        &&& self.spans@.len() >= 1
        &&& forall|i: int|
            0 <= i < self.spans@.len() ==> valid_span(
                encode_utf8(self.text@),
                (#[trigger] self.spans@[i]).0 as int,
                self.spans@[i].1 as int,
            )
    }

    /// The matched text.
    pub closed spec fn text_view(&self) -> Seq<char> {
        self.text@
    }

    /// The byte spans, the whole match at index zero.
    pub closed spec fn spans_view(&self) -> Seq<(usize, usize)> {
        self.spans@
    }

    /// The group-name table of the owning automaton.
    pub closed spec fn table(&self) -> Seq<(Seq<char>, usize)> {
        table_view(self.group_map@)
    }

    /// Assembles a match from the backend's group spans, replacing an absent
    /// group by the zero-length placeholder.
    pub(crate) fn new(
        text: &str,
        caps: Vec<Option<(usize, usize)>>,
        group_map: Arc<Vec<(String, usize)>>,
    ) -> (r: RuMatch)
        requires
            caps@.len() >= 1,
            crate::backend::spans_wf(caps@, text.spec_bytes()),
        ensures
            r.text_view() == text@,
            r.spans_view() == spec_filled(caps@),
            r.table() == table_view(group_map@),
    {
        proof {
            encode_utf8_valid_utf8(text@);
        }
        let n = caps.len();
        let mut spans: Vec<(usize, usize)> = Vec::new();
        let mut i: usize = 0;
        while i < n
            invariant
                0 <= i <= n,
                n == caps@.len(),
                crate::backend::spans_wf(caps@, text.spec_bytes()),
                spans@ == spec_filled(caps@).take(i as int),
            decreases n - i,
        {
            let sp = match &caps[i] {
                Some(sp) => *sp,
                None => (0usize, 0usize),
            };
            spans.push(sp);
            proof {
                assert(spans@ =~= spec_filled(caps@).take(i as int + 1));
            }
            i = i + 1;
        }
        proof {
            assert(spans@ =~= spec_filled(caps@));
        }
        RuMatch { text: text.to_owned(), spans, group_map }
    }

    /// The byte offset where the whole match starts.
    pub fn start(&self) -> (r: usize)
        ensures
            r == self.spans_view()[0].0,
    {
        proof {
            use_type_invariant(self);
        }
        self.spans[0].0
    }

    /// The byte offset where the whole match ends.
    pub fn end(&self) -> (r: usize)
        ensures
            r == self.spans_view()[0].1,
    {
        proof {
            use_type_invariant(self);
        }
        self.spans[0].1
    }

    /// How many capture groups the match reports, the whole match excluded.
    pub fn lastindex(&self) -> (r: usize)
        ensures
            r as int == self.spans_view().len() - 1,
    {
        proof {
            use_type_invariant(self);
        }
        self.spans.len() - 1
    }

    /// The substring of span `idx`, which the type invariant guarantees to be
    /// a valid character-aligned span.
    fn substring_at(&self, idx: usize) -> (r: String)
        requires
            0 <= idx < self.spans_view().len(),
        ensures
            encode_utf8(r@) == encode_utf8(self.text_view()).subrange(
                self.spans_view()[idx as int].0 as int,
                self.spans_view()[idx as int].1 as int,
            ),
    {
        proof {
            use_type_invariant(self);
        }
        let (s, e) = self.spans[idx];
        match slice_span(self.text.as_str(), s, e) {
            Some(sub) => sub,
            None => vstd::pervasive::unreached(),
        }
    }

    /// The substring captured by group `i`: span `i`'s text when the group
    /// exists, and `IndexOutOfBounds` naming the group otherwise.
    pub fn group(&self, i: i32) -> (r: Result<String, AppError>)
        ensures
            0 <= i < self.spans_view().len() ==> (r matches Ok(s) && encode_utf8(s@)
                == encode_utf8(self.text_view()).subrange(
                self.spans_view()[i as int].0 as int,
                self.spans_view()[i as int].1 as int,
            )),
            !(0 <= i < self.spans_view().len()) ==> (r matches Err(e) && e matches
                AppError::IndexOutOfBounds(d) && d.message@ == "Group "@ + spec_decimal_int(
                i as int,
            ) + " not found"@),
    {
        proof {
            use_type_invariant(self);
        }
        if i >= 0 && (i as usize) < self.spans.len() {
            Ok(self.substring_at(i as usize))
        } else {
            let msg = "Group ".to_owned().concat(decimal_i32(i).as_str()).concat(" not found");
            Err(AppError::IndexOutOfBounds(ReError::new(msg)))
        }
    }

    /// The substrings of every capture group, the whole match excluded; a
    /// group that took no part reads as an empty string.
    pub fn groups(&self, _i: i32) -> (r: Result<Vec<Option<String>>, AppError>)
        ensures
            r matches Ok(v) && v@.len() == self.spans_view().len() - 1,
            r matches Ok(v) ==> forall|k: int|
                0 <= k < v@.len() ==> (#[trigger] v@[k] matches Some(s) && encode_utf8(s@)
                    == encode_utf8(self.text_view()).subrange(
                    self.spans_view()[k + 1].0 as int,
                    self.spans_view()[k + 1].1 as int,
                )),
    {
        proof {
            use_type_invariant(self);
        }
        let n = self.spans.len();
        let mut v: Vec<Option<String>> = Vec::new();
        let mut k: usize = 1;
        while k < n
            invariant
                1 <= k <= n,
                n == self.spans_view().len(),
                v@.len() == k - 1,
                forall|j: int|
                    0 <= j < v@.len() ==> (#[trigger] v@[j] matches Some(s) && encode_utf8(s@)
                        == encode_utf8(self.text_view()).subrange(
                        self.spans_view()[j + 1].0 as int,
                        self.spans_view()[j + 1].1 as int,
                    )),
            decreases n - k,
        {
            v.push(Some(self.substring_at(k)));
            k = k + 1;
        }
        Ok(v)
    }

    /// The substring captured by the group of that name: resolved through the
    /// owning automaton's name table, `IndexOutOfBounds` naming the group
    /// when the resolved index reports no span, and a "not defined" error
    /// when the table does not know the name.
    pub fn group_name(&self, name: &str) -> (r: Result<String, AppError>)
        ensures
            match spec_lookup(self.table(), name@) {
                Some(idx) => {
                    &&& (idx < self.spans_view().len() ==> (r matches Ok(s) && encode_utf8(s@)
                        == encode_utf8(self.text_view()).subrange(
                        self.spans_view()[idx as int].0 as int,
                        self.spans_view()[idx as int].1 as int,
                    )))
                    &&& (idx >= self.spans_view().len() ==> (r matches Err(e) && e matches
                        AppError::IndexOutOfBounds(d) && d.message@ == "Group "@
                        + spec_decimal_nat(idx as nat) + " not found"@))
                },
                None => r matches Err(e) && e matches AppError::IndexOutOfBounds(d) && d.message@
                    == "Group name '"@ + name@ + "' not defined"@,
            },
    {
        proof {
            use_type_invariant(self);
        }
        match lookup_index(&*self.group_map, name) {
            Some(idx) => {
                if idx < self.spans.len() {
                    Ok(self.substring_at(idx))
                } else {
                    let msg = "Group ".to_owned().concat(decimal_u64(idx as u64).as_str()).concat(
                        " not found",
                    );
                    Err(AppError::IndexOutOfBounds(ReError::new(msg)))
                }
            },
            None => {
                let msg = "Group name '".to_owned().concat(name).concat("' not defined");
                Err(AppError::IndexOutOfBounds(ReError::new(msg)))
            },
        }
    }
}


impl RuMatch {
    /// Lets a caller use what holds of every successful match: span zero
    /// exists, and every reported span lies between zero and the byte length
    /// of the matched text, both ends on character boundaries.
    pub fn span_facts(&self)
        ensures
            self.spans_view().len() >= 1,
            forall|i: int|
                0 <= i < self.spans_view().len() ==> valid_span(
                    encode_utf8(self.text_view()),
                    (#[trigger] self.spans_view()[i]).0 as int,
                    self.spans_view()[i].1 as int,
                ),
    {
        proof {
            use_type_invariant(self);
        }
    }
}

} // verus!

