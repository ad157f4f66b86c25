//! Resolution of the lookup key for a target name: only the text before the
//! first `::` separator is consulted; a target without a separator is its own
//! key. Nothing beyond the first segment takes part in the lookup.

use vstd::prelude::*;
use vstd::string::StrSliceExecFns;

verus! {

/// The namespace separator `::` starts at position `i` of `t`.
pub open spec fn sep_at(t: Seq<char>, i: int) -> bool {
    0 <= i && i + 2 <= t.len() && t[i] == ':' && t[i + 1] == ':'
}

/// Position where the first segment of `t` ends: the index of the first
/// `::`, or the length of `t` when it has none.
pub open spec fn seg_end(t: Seq<char>) -> int
    decreases t.len(),
{
    if t.len() < 2 {
        t.len() as int
    } else if t[0] == ':' && t[1] == ':' {
        0
    } else {
        1 + seg_end(t.drop_first())
    }
}

/// The first segment of a target name: everything before the first `::`.
pub open spec fn first_segment(t: Seq<char>) -> Seq<char> {
    t.take(seg_end(t))
}

pub proof fn lemma_seg_end_bounds(t: Seq<char>)
    ensures
        0 <= seg_end(t) <= t.len(),
    decreases t.len(),
{
    if t.len() < 2 {
    } else if t[0] == ':' && t[1] == ':' {
    } else {
        lemma_seg_end_bounds(t.drop_first());
    }
}

/// Where the first separator stands, the first segment ends.
proof fn lemma_seg_end_at(t: Seq<char>, i: int)
    requires
        forall|j: int| 0 <= j < i ==> !sep_at(t, j),
        sep_at(t, i),
    ensures
        seg_end(t) == i,
    decreases i,
{
    if i == 0 {
    } else {
        assert(!sep_at(t, 0));
        let u = t.drop_first();
        assert(sep_at(u, i - 1)) by {
            assert(u[i - 1] == t[i] && u[i] == t[i + 1]);
        }
        assert forall|j: int| 0 <= j < i - 1 implies !sep_at(u, j) by {
            assert(!sep_at(t, j + 1));
            assert(u[j] == t[j + 1] && u[j + 1] == t[j + 2]);
        }
        lemma_seg_end_at(u, i - 1);
    }
}

/// Without a separator, the first segment is the whole target.
proof fn lemma_seg_end_none(t: Seq<char>)
    requires
        forall|j: int| !sep_at(t, j),
    ensures
        seg_end(t) == t.len(),
    decreases t.len(),
{
    if t.len() < 2 {
    } else {
        assert(!sep_at(t, 0));
        let u = t.drop_first();
        assert forall|j: int| !sep_at(u, j) by {
            if 0 <= j && j + 2 <= u.len() {
                assert(!sep_at(t, j + 1));
                assert(u[j] == t[j + 1] && u[j + 1] == t[j + 2]);
            }
        }
        lemma_seg_end_none(u);
    }
}

/// Index where the first segment of `target` ends.
pub fn first_segment_end(target: &str) -> (end: usize)
    ensures
        end as int == seg_end(target@),
{
    let n = target.unicode_len();
    let mut i: usize = 0;
    while i < n && i + 1 < n
        invariant
            i <= n,
            n == target@.len(),
            forall|j: int| 0 <= j < i ==> !sep_at(target@, j),
        decreases n - i,
    {
        if target.get_char(i) == ':' && target.get_char(i + 1) == ':' {
            proof {
                lemma_seg_end_at(target@, i as int);
            }
            return i;
        }
        i += 1;
    }
    proof {
        assert forall|j: int| !sep_at(target@, j) by {
            if 0 <= j && j + 2 <= n {
                assert(j < i);
            }
        }
        lemma_seg_end_none(target@);
    }
    n
}

/// The first segment of `target`, as a borrowed slice.
pub fn first_segment_of(target: &str) -> (seg: &str)
    ensures
        seg@ == first_segment(target@),
{
    let end = first_segment_end(target);
    proof {
        lemma_seg_end_bounds(target@);
    }
    let seg = target.substring_char(0, end);
    assert(seg@ =~= first_segment(target@));
    seg
}

} // verus!
