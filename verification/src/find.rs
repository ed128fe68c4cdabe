//! Locating the first occurrence of a string in a sequence of
//! strings, and character-wise string equality.

use vstd::prelude::*;
use vstd::string::StrSliceExecFns;

verus! {

/// Whether the characters of `a` and `b` are the same.
pub(crate) fn str_eq(a: &str, b: &str) -> (r: bool)
    ensures
        r == (a@ == b@),
{
    let la = a.unicode_len();
    let lb = b.unicode_len();
    if la != lb {
        return false;
    }
    let mut i: usize = 0;
    while i < la
        invariant
            la == a@.len(),
            la == b@.len(),
            i <= la,
            forall|j: int| 0 <= j < i ==> a@[j] == b@[j],
        decreases la - i,
    {
        if a.get_char(i) != b.get_char(i) {
            return false;
        }
        i = i + 1;
    }
    proof {
        assert(a@ =~= b@);
    }
    true
}

/// The index of the first element of `s` equal to `x`, or `s.len()` when
/// no element is.
pub open spec fn first_index_of(s: Seq<Seq<char>>, x: Seq<char>) -> int
    decreases s.len(),
{
    if s.len() == 0 {
        0
    } else if s[0] == x {
        0
    } else {
        1 + first_index_of(s.drop_first(), x)
    }
}

/// Whether some element of `s` equals `x`.
pub open spec fn contains_str(s: Seq<Seq<char>>, x: Seq<char>) -> bool {
    exists|i: int| 0 <= i < s.len() && s[i] == x
}

/// `first_index_of` names the first occurrence of `x` in `s`: every
/// earlier element differs from `x`, the element at the index (when it is
/// in bounds) is `x`, and the index runs off the end exactly when `x`
/// does not occur at all.
pub proof fn lemma_first_index_of(s: Seq<Seq<char>>, x: Seq<char>)
    ensures
        0 <= first_index_of(s, x) <= s.len(),
        first_index_of(s, x) < s.len() ==> s[first_index_of(s, x)] == x,
        forall|j: int| 0 <= j < first_index_of(s, x) ==> s[j] != x,
        (first_index_of(s, x) < s.len()) == contains_str(s, x),
    decreases s.len(),
{
    if s.len() == 0 {
        assert(!contains_str(s, x));
    } else if s[0] == x {
        assert(contains_str(s, x));
    } else {
        let rest = s.drop_first();
        lemma_first_index_of(rest, x);
        let f = first_index_of(s, x);
        assert forall|j: int| 0 <= j < f implies s[j] != x by {
            if j > 0 {
                assert(rest[j - 1] == s[j]);
            }
        }
        if f < s.len() {
            assert(rest[f - 1] == s[f]);
            assert(contains_str(s, x));
        } else {
            if contains_str(s, x) {
                let i = choose|i: int| 0 <= i < s.len() && s[i] == x;
                assert(rest[i - 1] == s[i]);
                assert(contains_str(rest, x));
            }
        }
    }
}

/// When `x` first occurs at `j` — the element there is `x` and every
/// earlier one differs — `first_index_of` is exactly `j`.
pub proof fn lemma_first_index_of_is(s: Seq<Seq<char>>, x: Seq<char>, j: int)
    requires
        0 <= j < s.len(),
        s[j] == x,
        forall|m: int| 0 <= m < j ==> s[m] != x,
    ensures
        first_index_of(s, x) == j,
{
    lemma_first_index_of(s, x);
    assert(contains_str(s, x));
}

} // verus!
