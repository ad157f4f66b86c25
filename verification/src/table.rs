//! The per-target threshold table, as a sequence of key/threshold pairs with
//! pairwise distinct keys. Lookup is by exact key; the ceiling of a table is
//! the most permissive threshold it holds.

use vstd::prelude::*;

use crate::level::{filter_max, filter_verbosity, LevelFilter};

verus! {

/// Some entry of `s` has key `k`.
pub open spec fn table_has(s: Seq<(String, LevelFilter)>, k: Seq<char>) -> bool {
    exists|i: int| 0 <= i < s.len() && s[i].0@ == k
}

/// The index of the entry with key `k` (meaningful only when `table_has`).
pub open spec fn table_index(s: Seq<(String, LevelFilter)>, k: Seq<char>) -> int {
    choose|i: int| 0 <= i < s.len() && s[i].0@ == k
}

/// The threshold stored under key `k` (meaningful only when `table_has`).
pub open spec fn table_get(s: Seq<(String, LevelFilter)>, k: Seq<char>) -> LevelFilter {
    s[table_index(s, k)].1
}

/// The keys of `s` are pairwise distinct.
pub open spec fn unique_keys(s: Seq<(String, LevelFilter)>) -> bool {
    forall|i: int, j: int| 0 <= i < j < s.len() ==> s[i].0@ != s[j].0@
}

/// The most permissive threshold among the entries of `s`, `Off` when `s`
/// is empty.
pub open spec fn table_ceiling(s: Seq<(String, LevelFilter)>) -> LevelFilter
    decreases s.len(),
{
    if s.len() == 0 {
        LevelFilter::Off
    } else {
        filter_max(table_ceiling(s.drop_last()), s.last().1)
    }
}

/// With distinct keys, the entry found at `i` is the entry of its key.
pub proof fn lemma_table_get_at(s: Seq<(String, LevelFilter)>, k: Seq<char>, i: int)
    requires
        unique_keys(s),
        0 <= i < s.len(),
        s[i].0@ == k,
    ensures
        table_has(s, k),
        table_index(s, k) == i,
        table_get(s, k) == s[i].1,
{
    assert(table_has(s, k));
    let j = table_index(s, k);
    assert(0 <= j < s.len() && s[j].0@ == k);
    if i < j {
        assert(s[i].0@ != s[j].0@);
    } else if j < i {
        assert(s[j].0@ != s[i].0@);
    }
}

/// No entry of `s` is more permissive than the table's ceiling.
pub proof fn lemma_ceiling_ge(s: Seq<(String, LevelFilter)>, i: int)
    requires
        0 <= i < s.len(),
    ensures
        filter_verbosity(s[i].1) <= filter_verbosity(table_ceiling(s)),
    decreases s.len(),
{
    if i < s.len() - 1 {
        lemma_ceiling_ge(s.drop_last(), i);
    }
}

/// The ceiling of a non-empty table is one of its entries.
pub proof fn lemma_ceiling_in(s: Seq<(String, LevelFilter)>)
    requires
        s.len() > 0,
    ensures
        exists|i: int| 0 <= i < s.len() && s[i].1 == table_ceiling(s),
    decreases s.len(),
{
    if table_ceiling(s) == s.last().1 {
        assert(s[s.len() - 1].1 == table_ceiling(s));
    } else {
        lemma_ceiling_in(s.drop_last());
        let i = choose|i: int|
            0 <= i < s.drop_last().len() && s.drop_last()[i].1 == table_ceiling(s.drop_last());
        assert(s[i].1 == table_ceiling(s));
    }
}

/// Appending an entry moves the ceiling to the maximum of the old ceiling
/// and the new threshold.
pub proof fn lemma_ceiling_push(s: Seq<(String, LevelFilter)>, p: (String, LevelFilter))
    ensures
        table_ceiling(s.push(p)) == filter_max(table_ceiling(s), p.1),
{
    assert(s.push(p).drop_last() =~= s);
}

} // verus!
