//! Substring matching between a candidate address and the search target.
//!
//! The test is containment anywhere in the address, not only at the front:
//! this is the documented behaviour and is kept as it stands. In particular
//! an empty target matches every address.

use vstd::prelude::*;
use vstd::string::StrSliceExecFns;

verus! {

/// The target `t` occurs in `a` starting at position `i`.
pub open spec fn match_at(a: Seq<char>, t: Seq<char>, i: int) -> bool {
    &&& 0 <= i
    &&& i + t.len() <= a.len()
    &&& a.subrange(i, i + t.len()) == t
}

/// The target `t` occurs somewhere in `a`.
pub open spec fn contains_substring(a: Seq<char>, t: Seq<char>) -> bool {
    exists|i: int| match_at(a, t, i)
}

fn match_here(a: &str, t: &str, i: usize, alen: usize, tlen: usize) -> (r: bool)
    requires
        alen == a@.len(),
        tlen == t@.len(),
        i + tlen <= alen,
    ensures
        r == match_at(a@, t@, i as int),
{
    let mut j: usize = 0;
    while j < tlen
        invariant
            alen == a@.len(),
            tlen == t@.len(),
            i + tlen <= alen,
            j <= tlen,
            forall|k: int| 0 <= k < j ==> a@[i + k] == t@[k],
        decreases tlen - j,
    {
        if a.get_char(i + j) != t.get_char(j) {
            proof {
                assert(!match_at(a@, t@, i as int)) by {
                    if a@.subrange(i as int, i + t@.len()) == t@ {
                        assert(a@.subrange(i as int, i + t@.len())[j as int] == a@[i + j]);
                        assert(false);
                    }
                }
            }
            return false;
        }
        j += 1;
    }
    proof {
        assert(a@.subrange(i as int, i + t@.len()) =~= t@);
    }
    true
}

/// Does `target` occur anywhere within `address`?
pub fn matches(address: &str, target: &str) -> (r: bool)
    ensures
        r == contains_substring(address@, target@),
{
    let alen = address.unicode_len();
    let tlen = target.unicode_len();
    if tlen > alen {
        proof {
            assert(forall|i: int| !match_at(address@, target@, i));
        }
        return false;
    }
    let bound: usize = alen - tlen;
    let mut i: usize = 0;
    loop
        invariant_except_break
            alen == address@.len(),
            tlen == target@.len(),
            tlen <= alen,
            bound == alen - tlen,
            i <= bound,
            forall|k: int| 0 <= k < i ==> !match_at(address@, target@, k),
        ensures
            alen == address@.len(),
            tlen == target@.len(),
            tlen <= alen,
            bound == alen - tlen,
            forall|k: int| 0 <= k <= bound ==> !match_at(address@, target@, k),
        decreases bound - i,
    {
        if match_here(address, target, i, alen, tlen) {
            proof {
                assert(match_at(address@, target@, i as int));
            }
            return true;
        }
        if i == bound {
            break ;
        }
        i += 1;
    }
    proof {
        assert forall|k: int| !match_at(address@, target@, k) by {
            if 0 <= k <= bound {
                assert(!match_at(address@, target@, k));
            }
        }
    }
    false
}

/// Any occurrence of the target anywhere in the address, at whatever
/// position, makes the containment test true.
pub proof fn lemma_occurrence_implies_match(a: Seq<char>, t: Seq<char>, i: int)
    requires
        0 <= i,
        i + t.len() <= a.len(),
        a.subrange(i, i + t.len()) == t,
    ensures
        contains_substring(a, t),
{
    assert(match_at(a, t, i));
}

/// An empty target occurs in every address.
pub proof fn lemma_empty_target_matches(a: Seq<char>)
    ensures
        contains_substring(a, Seq::<char>::empty()),
{
    assert(a.subrange(0, 0) =~= Seq::<char>::empty());
    assert(match_at(a, Seq::<char>::empty(), 0));
}

} // verus!
