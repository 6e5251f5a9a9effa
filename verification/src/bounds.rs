//! Degree-bound bookkeeping for the FRI layering: sorting the per-column
//! bounds into descending order and removing duplicates.
//!
//! The rearrangement itself is done by `itertools` behind two trusted
//! wrappers; everything stated about the combined result — strictly
//! descending, duplicate-free, same element set, maximum first — is proved
//! here from those wrappers' contracts.

use itertools::Itertools;
use vstd::prelude::*;

verus! {

/// The sequence is in (weakly) descending order.
pub open spec fn sorted_desc(s: Seq<u32>) -> bool {
    forall|i: int, j: int| 0 <= i <= j < s.len() ==> s[i] >= s[j]
}

/// The sequence is in strictly descending order (so also duplicate-free).
pub open spec fn strictly_desc(s: Seq<u32>) -> bool {
    forall|i: int, j: int| 0 <= i < j < s.len() ==> s[i] > s[j]
}

/// The sequence with each run of consecutive identical elements collapsed to
/// one element.
pub open spec fn dedup_consecutive(s: Seq<u32>) -> Seq<u32>
    decreases s.len(),
{
    if s.len() <= 1 {
        s
    } else if s.last() == s[s.len() - 2] {
        dedup_consecutive(s.drop_last())
    } else {
        dedup_consecutive(s.drop_last()).push(s.last())
    }
}

/// Relies on itertools' `sorted` (a stable slice sort into ascending order)
/// read back to front: the same elements, in descending order.
#[verifier::external_body]
fn sorted_desc_u32(v: Vec<u32>) -> (r: Vec<u32>)
    ensures
        r@.to_multiset() == v@.to_multiset(),
        sorted_desc(r@),
{
    v.into_iter().sorted().rev().collect()
}

/// Relies on itertools' `dedup`: removes consecutive identical elements,
/// keeping one of each run.
#[verifier::external_body]
fn dedup_u32(v: Vec<u32>) -> (r: Vec<u32>)
    ensures
        r@ == dedup_consecutive(v@),
{
    v.into_iter().dedup().collect()
}

/// Collapsing consecutive duplicates keeps exactly the elements that were
/// there.
proof fn lemma_dedup_contains(s: Seq<u32>)
    ensures
        forall|x: u32| #[trigger] dedup_consecutive(s).contains(x) <==> s.contains(x),
    decreases s.len(),
{
    if s.len() <= 1 {
    } else {
        let rest = s.drop_last();
        lemma_dedup_contains(rest);
        assert forall|x: u32| s.contains(x) implies rest.contains(x) || x == s.last() by {
            let i = choose|i: int| 0 <= i < s.len() && s[i] == x;
            if i < s.len() - 1 {
                assert(rest[i] == x);
            }
        }
        assert forall|x: u32| rest.contains(x) implies s.contains(x) by {
            let i = choose|i: int| 0 <= i < rest.len() && rest[i] == x;
            assert(s[i] == x);
        }
        assert(s[s.len() - 1] == s.last());
        assert(s.contains(s.last()));
        if s.last() == s[s.len() - 2] {
            assert(rest[s.len() - 2] == s.last());
            assert(rest.contains(s.last()));
        } else {
            let d = dedup_consecutive(rest);
            assert forall|x: u32| #[trigger] dedup_consecutive(s).contains(x) implies s.contains(
                x,
            ) by {
                let i = choose|i: int|
                    0 <= i < d.push(s.last()).len() && d.push(s.last())[i] == x;
                if i < d.len() {
                    assert(d[i] == x);
                    assert(d.contains(x));
                } else {
                    assert(x == s.last());
                }
            }
            assert forall|x: u32| s.contains(x) implies #[trigger] dedup_consecutive(s).contains(
                x,
            ) by {
                if rest.contains(x) {
                    assert(d.contains(x));
                    let i = choose|i: int| 0 <= i < d.len() && d[i] == x;
                    assert(d.push(s.last())[i] == x);
                    assert(d.push(s.last()).contains(x));
                } else {
                    assert(x == s.last());
                    assert(d.push(s.last())[d.len() as int] == x);
                    assert(d.push(s.last()).contains(x));
                }
            }
        }
    }
}

/// Collapsing consecutive duplicates of a descending sequence yields a
/// strictly descending sequence ending in the input's last element.
proof fn lemma_dedup_strictly_desc(s: Seq<u32>)
    requires
        sorted_desc(s),
    ensures
        strictly_desc(dedup_consecutive(s)),
        s.len() > 0 ==> dedup_consecutive(s).len() > 0 && dedup_consecutive(s).last() == s.last(),
    decreases s.len(),
{
    if s.len() <= 1 {
    } else {
        let rest = s.drop_last();
        assert forall|i: int, j: int| 0 <= i <= j < rest.len() implies rest[i] >= rest[j] by {
            assert(s[i] >= s[j]);
        }
        lemma_dedup_strictly_desc(rest);
        assert(rest.last() == s[s.len() - 2]);
        if s.last() == s[s.len() - 2] {
        } else {
            let d = dedup_consecutive(rest);
            assert(s[s.len() - 2] >= s.last());
            assert(s[s.len() - 2] > s.last());
            assert(d.last() > s.last());
            let p = d.push(s.last());
            assert forall|i: int, j: int| 0 <= i < j < p.len() implies p[i] > p[j] by {
                if j < d.len() {
                    assert(d[i] > d[j]);
                } else {
                    assert(p[j] == s.last());
                    assert(p[i] == d[i]);
                    if i < d.len() - 1 {
                        assert(d[i] > d[d.len() - 1]);
                    }
                    assert(d[i] >= d.last());
                }
            }
        }
    }
}

/// A strictly descending sequence is determined by its element set: two such
/// sequences holding the same values are equal.
pub proof fn lemma_strictly_desc_same_elements(s1: Seq<u32>, s2: Seq<u32>)
    requires
        strictly_desc(s1),
        strictly_desc(s2),
        forall|x: u32| #[trigger] s1.contains(x) <==> s2.contains(x),
    ensures
        s1 == s2,
    decreases s1.len(),
{
    if s1.len() == 0 {
        if s2.len() > 0 {
            assert(s2.contains(s2[0]));
            assert(s1.contains(s2[0]));
        }
        assert(s1 =~= s2);
    } else {
        assert(s1.contains(s1[0]));
        assert(s2.contains(s1[0]));
        assert(s2.len() > 0);
        assert(s2.contains(s2[0]));
        assert(s1.contains(s2[0]));
        let k2 = choose|k: int| 0 <= k < s2.len() && s2[k] == s1[0];
        let k1 = choose|k: int| 0 <= k < s1.len() && s1[k] == s2[0];
        if k1 > 0 {
            assert(s1[0] > s1[k1]);
        }
        if k2 > 0 {
            assert(s2[0] > s2[k2]);
        }
        assert(s1[0] == s2[0]);
        let t1 = s1.drop_first();
        let t2 = s2.drop_first();
        assert forall|x: u32| #[trigger] t1.contains(x) <==> t2.contains(x) by {
            assert forall|x: u32| #[trigger] t1.contains(x) implies t2.contains(x) by {
                let i = choose|i: int| 0 <= i < t1.len() && t1[i] == x;
                assert(s1[i + 1] == x);
                assert(s1[0] > x);
                assert(s1.contains(x));
                assert(s2.contains(x));
                let j = choose|j: int| 0 <= j < s2.len() && s2[j] == x;
                assert(j != 0);
                assert(t2[j - 1] == x);
            }
            assert forall|x: u32| #[trigger] t2.contains(x) implies t1.contains(x) by {
                let i = choose|i: int| 0 <= i < t2.len() && t2[i] == x;
                assert(s2[i + 1] == x);
                assert(s2[0] > x);
                assert(s2.contains(x));
                assert(s1.contains(x));
                let j = choose|j: int| 0 <= j < s1.len() && s1[j] == x;
                assert(j != 0);
                assert(t1[j - 1] == x);
            }
        }
        assert forall|i: int, j: int| 0 <= i < j < t1.len() implies t1[i] > t1[j] by {
            assert(s1[i + 1] > s1[j + 1]);
        }
        assert forall|i: int, j: int| 0 <= i < j < t2.len() implies t2[i] > t2[j] by {
            assert(s2[i + 1] > s2[j + 1]);
        }
        lemma_strictly_desc_same_elements(t1, t2);
        assert forall|i: int| 0 <= i < s1.len() implies s1[i] == s2[i] by {
            if i > 0 {
                assert(t1[i - 1] == t2[i - 1]);
            }
        }
        assert(s1 =~= s2);
    }
}

/// Sort the given bounds into strictly descending order, dropping duplicate
/// values: the result holds exactly the distinct elements of the input, the
/// largest first.
pub fn dedup_descending(v: Vec<u32>) -> (r: Vec<u32>)
    ensures
        strictly_desc(r@),
        forall|x: u32| #[trigger] r@.contains(x) <==> v@.contains(x),
        v@.len() > 0 ==> r@.len() > 0,
        forall|x: u32| v@.contains(x) ==> r@.len() > 0 && r@[0] >= x,
{
    let s = sorted_desc_u32(v);
    proof {
        broadcast use vstd::seq_lib::group_to_multiset_ensures;

        assert forall|x: u32| s@.contains(x) <==> v@.contains(x) by {
            assert(s@.contains(x) <==> s@.to_multiset().count(x) > 0);
            assert(v@.contains(x) <==> v@.to_multiset().count(x) > 0);
        }
    }
    let r = dedup_u32(s);
    proof {
        lemma_dedup_contains(s@);
        lemma_dedup_strictly_desc(s@);
        if v@.len() > 0 {
            assert(v@.contains(v@[0]));
            assert(r@.contains(v@[0]));
        }
        assert forall|x: u32| v@.contains(x) implies r@.len() > 0 && r@[0] >= x by {
            assert(r@.contains(x));
            let j = choose|j: int| 0 <= j < r@.len() && r@[j] == x;
            if j > 0 {
                assert(r@[0] > r@[j]);
            }
        }
    }
    r
}

} // verus!

