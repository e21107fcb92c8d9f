//! Small verified utilities over strings and string sets.
//!
//! A "set" of canonical path strings is kept as a vector whose element
//! views are pairwise distinct; membership is exact string equality.

use vstd::prelude::*;
use vstd::string::*;

use crate::syntax::seq_views;

verus! {

/// The element views are pairwise distinct: the vector is a set.
pub open spec fn no_dup(s: Seq<Seq<char>>) -> bool {
    forall|i: int, j: int| 0 <= i < j < s.len() ==> s[i] != s[j]
}

/// Character-wise equality of two string slices.
pub fn str_eq(a: &str, b: &str) -> (r: bool)
    ensures
        r == (a@ == b@),
{
    let la = a.unicode_len();
    let lb = b.unicode_len();
    if la != lb {
        return false;
    }
    let mut i: usize = 0;
    while i < la
        invariant
            la == a@.len(),
            la == b@.len(),
            i <= la,
            forall|j: int| 0 <= j < i ==> a@[j] == b@[j],
        decreases la - i,
    {
        if a.get_char(i) != b.get_char(i) {
            return false;
        }
        i = i + 1;
    }
    proof {
        assert(a@ =~= b@);
    }
    true
}

/// Whether some element of `v` equals `s`.
pub fn contains_string(v: &Vec<String>, s: &String) -> (r: bool)
    ensures
        r == seq_views(v@).contains(s@),
{
    let mut i: usize = 0;
    while i < v.len()
        invariant
            i <= v.len(),
            forall|j: int| 0 <= j < i ==> v@[j]@ != s@,
        decreases v.len() - i,
    {
        if v[i].eq(s) {
            proof {
                assert(seq_views(v@)[i as int] == s@);
            }
            return true;
        }
        i = i + 1;
    }
    proof {
        assert forall|j: int| 0 <= j < seq_views(v@).len() implies seq_views(v@)[j] != s@ by {
            assert(v@[j]@ != s@);
        }
    }
    false
}

/// Set insertion: appends `s` when no element of `v` equals it and reports
/// whether the insertion happened, as `HashSet::insert` would.
pub fn insert_unique(v: &mut Vec<String>, s: String) -> (r: bool)
    ensures
        r == !seq_views(old(v)@).contains(s@),
        r ==> final(v)@ == old(v)@.push(s),
        !r ==> final(v)@ == old(v)@,
{
    if contains_string(v, &s) {
        false
    } else {
        v.push(s);
        true
    }
}

/// Insertion preserves distinctness of the element views.
pub proof fn lemma_insert_unique_no_dup(s: Seq<Seq<char>>, x: Seq<char>)
    requires
        no_dup(s),
        !s.contains(x),
    ensures
        no_dup(s.push(x)),
{
    assert forall|i: int, j: int| 0 <= i < j < s.push(x).len() implies s.push(x)[i] != s.push(
        x,
    )[j] by {
        if j < s.len() {
        } else {
            assert(s.push(x)[i] == s[i]);
            assert(s.contains(s[i]));
        }
    }
}

} // verus!
