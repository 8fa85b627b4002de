//! The name-to-index table for capture groups: built once per compiled
//! automaton from the backend's capture-name list, in declaration order, the
//! first declaration winning on a duplicate name.
use vstd::prelude::*;

use crate::backend::names_view;

verus! {

/// Name tables as the contracts see them: pairs of group name and index.
pub open spec fn table_view(t: Seq<(String, usize)>) -> Seq<(Seq<char>, usize)> {
    Seq::new(t.len(), |i: int| (t[i].0@, t[i].1))
}

/// The index a name resolves to: the first entry that carries it.
pub open spec fn spec_lookup(t: Seq<(Seq<char>, usize)>, name: Seq<char>) -> Option<usize>
    decreases t.len(),
{
    if t.len() == 0 {
        None
    } else if t[0].0 == name {
        Some(t[0].1)
    } else {
        spec_lookup(t.drop_first(), name)
    }
}

/// The table built from the first `k` entries of a capture-name list: each
/// named group in declaration order, skipped when an earlier entry already
/// claimed the name.
pub open spec fn spec_table_upto(names: Seq<Option<Seq<char>>>, k: int) -> Seq<(Seq<char>, usize)>
    decreases k,
{
    if k <= 0 {
        Seq::empty()
    } else {
        let t = spec_table_upto(names, k - 1);
        match names[k - 1] {
            Some(n) => if spec_lookup(t, n) is Some {
                t
            } else {
                t.push((n, (k - 1) as usize))
            },
            None => t,
        }
    }
}

/// The table built from a whole capture-name list.
pub open spec fn spec_table(names: Seq<Option<Seq<char>>>) -> Seq<(Seq<char>, usize)> {
    spec_table_upto(names, names.len() as int)
}

/// Finds the index a group name resolves to, scanning the table in order.
pub fn lookup_index(t: &Vec<(String, usize)>, name: &str) -> (r: Option<usize>)
    ensures
        r == spec_lookup(table_view(t@), name@),
{
    let key: String = name.to_owned();
    let n = t.len();
    let mut j: usize = 0;
    proof {
        assert(table_view(t@).skip(0) =~= table_view(t@));
    }
    loop
        invariant
            0 <= j <= n,
            n == t@.len(),
            key@ == name@,
            spec_lookup(table_view(t@), name@) == spec_lookup(
                table_view(t@).skip(j as int),
                name@,
            ),
        decreases n - j,
    {
        if j >= n {
            return None;
        }
        let entry = &t[j];
        if entry.0 == key {
            return Some(entry.1);
        }
        proof {
            assert(table_view(t@).skip(j as int).drop_first() =~= table_view(t@).skip(
                j as int + 1,
            ));
        }
        j = j + 1;
    }
}

/// Builds the name table from a capture-name list, first declaration winning
/// on duplicates.
pub fn build_table(names: &Vec<Option<String>>) -> (r: Vec<(String, usize)>)
    ensures
        table_view(r@) == spec_table(names_view(names@)),
{
    let n = names.len();
    let mut t: Vec<(String, usize)> = Vec::new();
    let mut i: usize = 0;
    while i < n
        invariant
            0 <= i <= n,
            n == names@.len(),
            table_view(t@) == spec_table_upto(names_view(names@), i as int),
        decreases n - i,
    {
        if let Some(name) = &names[i] {
            let existing = lookup_index(&t, name.as_str());
            if existing.is_none() {
                let ghost old_t = t@;
                t.push((name.clone(), i));
                proof {
                    assert(table_view(t@) =~= table_view(old_t).push((name@, i)));
                }
            }
        }
        i = i + 1;
    }
    t
}


/// Looking a name up in a table extended by one entry falls back to the new
/// entry only when the name was absent before.
proof fn lemma_lookup_push(t: Seq<(Seq<char>, usize)>, e: (Seq<char>, usize), name: Seq<char>)
    ensures
        spec_lookup(t.push(e), name) == (match spec_lookup(t, name) {
            Some(i) => Some(i),
            None => if e.0 == name {
                Some(e.1)
            } else {
                None::<usize>
            },
        }),
    decreases t.len(),
{
    if t.len() == 0 {
        assert(t.push(e)[0] == e);
        assert(t.push(e).drop_first() =~= Seq::<(Seq<char>, usize)>::empty());
        if e.0 == name {
            assert(spec_lookup(t.push(e), name) == Some(e.1));
        } else {
            assert(spec_lookup(t.push(e), name) == spec_lookup(
                t.push(e).drop_first(),
                name,
            ));
            assert(spec_lookup(Seq::<(Seq<char>, usize)>::empty(), name) is None);
        }
    } else {
        assert(t.push(e)[0] == t[0]);
        assert(t.push(e).drop_first() =~= t.drop_first().push(e));
        lemma_lookup_push(t.drop_first(), e, name);
    }
}

/// The table built from the first `k` capture names resolves a name to the
/// first group among them declared with it, and to nothing when none is.
proof fn lemma_table_upto_first_wins(names: Seq<Option<Seq<char>>>, k: int, name: Seq<char>)
    requires
        0 <= k <= names.len(),
        names.len() <= usize::MAX,
    ensures
        match spec_lookup(spec_table_upto(names, k), name) {
            Some(i) => 0 <= i < k && names[i as int] == Some(name) && (forall|j: int|
                0 <= j < i ==> names[j] != Some(name)),
            None => forall|j: int| 0 <= j < k ==> names[j] != Some(name),
        },
    decreases k,
{
    if k > 0 {
        lemma_table_upto_first_wins(names, k - 1, name);
        let t = spec_table_upto(names, k - 1);
        match names[k - 1] {
            Some(m) => {
                if spec_lookup(t, m) is Some {
                } else {
                    lemma_lookup_push(t, (m, (k - 1) as usize), name);
                }
            },
            None => {},
        }
    }
}

/// Group names map to a single index: a name resolves through the table to
/// the first capture group declared with it, and a name no group declares
/// resolves to nothing.
pub proof fn lemma_first_declared_wins(names: Seq<Option<Seq<char>>>, name: Seq<char>)
    requires
        names.len() <= usize::MAX,
    ensures
        match spec_lookup(spec_table(names), name) {
            Some(i) => 0 <= i < names.len() && names[i as int] == Some(name) && (forall|j: int|
                0 <= j < i ==> names[j] != Some(name)),
            None => forall|j: int| 0 <= j < names.len() ==> names[j] != Some(name),
        },
{
    lemma_table_upto_first_wins(names, names.len() as int, name);
}

} // verus!

