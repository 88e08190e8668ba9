//! The bingo draw: a shuffled permutation of 1..=75 and a draw pointer.

use vstd::prelude::*;
use rand::seq::SliceRandom;

verus! {

/// A bingo session: `numbers` holds each of 1..=75 exactly once, in the
/// order the shuffle chose, and `index` points at the next undrawn value.
pub struct BingoState {
    pub numbers: Vec<u8>,
    pub index: usize,
}

/// Relies on rand's `SliceRandom::shuffle` with `rand::rng()`: it permutes
/// the slice in place, uniformly at random, so the multiset of elements
/// (and with it the length) is unchanged.
#[verifier::external_body]
fn shuffle_numbers(v: &mut Vec<u8>)
    ensures
        final(v)@.len() == old(v)@.len(),
        final(v)@.to_multiset() == old(v)@.to_multiset(),
{
    v.shuffle(&mut rand::rng());
}

impl BingoState {
    /// The numbers are a permutation of 1..=75 and the pointer never
    /// passes the end.
    pub open spec fn wf(&self) -> bool {
        &&& self.numbers@.len() == 75
        &&& self.numbers@.no_duplicates()
        &&& (forall|i: int| 0 <= i < 75 ==> 1 <= #[trigger] self.numbers@[i] <= 75)
        &&& (forall|v: u8| 1 <= v <= 75 ==> self.numbers@.contains(v))
        &&& self.index <= 75
    }

    /// A fresh session: a uniformly shuffled permutation of 1..=75 with
    /// nothing drawn yet.
    pub fn new() -> (s: Self)
        ensures
            s.wf(),
            s.index == 0,
    {
        let mut n: Vec<u8> = Vec::new();
        let mut i: usize = 0;
        while i < 75
            invariant
                i <= 75,
                n@.len() == i,
                forall|k: int| 0 <= k < i ==> #[trigger] n@[k] == k + 1,
            decreases 75 - i,
        {
            n.push((i + 1) as u8);
            i = i + 1;
        }
        let ghost base = n@;
        shuffle_numbers(&mut n);
        proof {
            broadcast use vstd::seq_lib::group_to_multiset_ensures;

            base.lemma_multiset_has_no_duplicates();
            assert forall|v: u8| n@.to_multiset().contains(v) implies n@.to_multiset().count(v)
                == 1 by {
                assert(base.to_multiset().contains(v));
            }
            n@.lemma_multiset_has_no_duplicates_conv();
            assert forall|i2: int| 0 <= i2 < 75 implies 1 <= #[trigger] n@[i2] <= 75 by {
                assert(n@.contains(n@[i2]));
                assert(n@.to_multiset().count(n@[i2]) > 0);
                assert(base.to_multiset().count(n@[i2]) > 0);
                assert(base.contains(n@[i2]));
            }
            assert forall|v: u8| 1 <= v <= 75 implies n@.contains(v) by {
                assert(base[v - 1] == v);
                assert(base.contains(v));
                assert(base.to_multiset().count(v) > 0);
                assert(n@.to_multiset().count(v) > 0);
            }
        }
        BingoState { numbers: n, index: 0 }
    }

    /// Draws the next number: the value under the pointer, advancing it.
    /// Once all 75 numbers are drawn, every further call reports
    /// exhaustion as `None` instead of a value.
    pub fn next(&mut self) -> (r: Option<u8>)
        requires
            old(self).wf(),
        ensures
            final(self).wf(),
            final(self).numbers == old(self).numbers,
            old(self).index < 75 ==> {
                &&& r == Some(old(self).numbers@[old(self).index as int])
                &&& final(self).index == old(self).index + 1
            },
            old(self).index >= 75 ==> r is None && final(self).index == old(self).index,
    {
        if self.index < self.numbers.len() {
            let num = self.numbers[self.index];
            self.index = self.index + 1;
            Some(num)
        } else {
            None
        }
    }

    /// The value the next draw would return, without drawing it.
    pub fn current(&self) -> (r: Option<u8>)
        requires
            self.wf(),
        ensures
            self.index < 75 ==> r == Some(self.numbers@[self.index as int]),
            self.index >= 75 ==> r is None,
    {
        if self.index < self.numbers.len() {
            Some(self.numbers[self.index])
        } else {
            None
        }
    }
}

/// Law: within one session no draw ever repeats, and every number from
/// 1 to 75 is present, so the 75 draws of a fresh session return each
/// number exactly once before exhaustion sets in.
pub proof fn lemma_bingo_draws_distinct(b: &BingoState)
    requires
        b.wf(),
    ensures
        forall|i: int, j: int|
            0 <= i < j < 75 ==> b.numbers@[i] != b.numbers@[j],
        forall|v: u8| 1 <= v <= 75 ==> b.numbers@.contains(v),
{
}

} // verus!
