use vstd::prelude::*;
use vstd::seq_lib::*;

use rand::seq::SliceRandom;

verus! {

/// The sequence 0, 1, ..., n-1: every captain index once, in table order.
pub open spec fn identity_order(n: nat) -> Seq<usize> {
    Seq::new(n, |i: int| i as usize)
}

/// Relies on rand's SliceRandom::shuffle: it permutes the slice in place by
/// a pass of swaps, so the contents are kept as a multiset whatever order
/// comes out.
#[verifier::external_body]
pub fn shuffle_order(v: &mut Vec<usize>)
    ensures
        final(v)@.to_multiset() == old(v)@.to_multiset(),
{
    v.shuffle(&mut rand::thread_rng());
}

/// What holding the same entries as 0..n gives pointwise: the right length,
/// every entry below n, and no entry twice.
pub proof fn lemma_permutation_of_identity(s: Seq<usize>, n: nat)
    requires
        n <= usize::MAX,
        s.to_multiset() == identity_order(n).to_multiset(),
    ensures
        s.len() == n,
        forall|k: int| 0 <= k < s.len() ==> s[k] < n,
        s.no_duplicates(),
{
    let id = identity_order(n);
    assert(id.no_duplicates()) by {
        assert forall|i: int, j: int| 0 <= i < id.len() && 0 <= j < id.len() && i != j implies id[i]
            != id[j] by {
            assert(id[i] == i as usize);
            assert(id[j] == j as usize);
        }
    }
    s.to_multiset_ensures();
    id.to_multiset_ensures();
    assert(s.len() == s.to_multiset().len());
    assert(id.len() == id.to_multiset().len());
    assert forall|k: int| 0 <= k < s.len() implies s[k] < n by {
        assert(s.contains(s[k]));
        assert(s.to_multiset().count(s[k]) > 0);
        assert(id.contains(s[k]));
        let j = choose|j: int| 0 <= j < id.len() && id[j] == s[k];
        assert(id[j] == j as usize);
    }
    id.lemma_multiset_has_no_duplicates();
    s.lemma_multiset_has_no_duplicates_conv();
}

} // verus!
