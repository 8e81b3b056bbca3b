//! Draws from the thread's random number generator.

use rand::rngs::ThreadRng;
use rand::seq::SliceRandom;
use rand::Rng;
use vstd::prelude::*;

verus! {

/// The handle of rand's generator of the current thread. Nothing is known of its
/// state.
#[verifier::external_type_specification]
#[verifier::external_body]
pub struct ExThreadRng(ThreadRng);

/// `picked` holds items of `items` taken at the positions `at`, no position twice.
pub open spec fn selects<T>(at: Seq<int>, picked: Seq<T>, items: Seq<T>) -> bool {
    &&& at.len() == picked.len()
    &&& at.no_duplicates()
    &&& forall|k: int|
        0 <= k < at.len() ==> 0 <= #[trigger] at[k] < items.len() && picked[k] == items[at[k]]
}

/// `picked` holds items of `items`, each taken from a position of its own.
pub open spec fn drawn_from<T>(picked: Seq<T>, items: Seq<T>) -> bool {
    exists|at: Seq<int>| selects(at, picked, items)
}

/// The indices are below `length`, and none occurs twice.
pub open spec fn distinct_indices(indices: Seq<usize>, length: nat) -> bool {
    &&& indices.no_duplicates()
    &&& forall|k: int| 0 <= k < indices.len() ==> #[trigger] indices[k] < length
}

/// Calls `Rng::gen_range` of rand on the half-open range from `low` to `high`.
/// Trusted: the number drawn lies in the range. An empty range is left out, on
/// which rand panics.
#[verifier::external_body]
pub(crate) fn gen_range(rng: &mut ThreadRng, low: u8, high: u8) -> (drawn: u8)
    requires
        low < high,
    ensures
        low <= drawn < high,
{
    rng.gen_range(low..high)
}

/// Calls `SliceRandom::choose_multiple` of rand and collects what it hands out.
/// Trusted: it hands out `amount` items, or all of them where there are fewer,
/// each from a position of the slice of its own, in no stated order.
#[verifier::external_body]
fn choose_several(items: &Vec<usize>, rng: &mut ThreadRng, amount: usize) -> (picked: Vec<usize>)
    ensures
        picked@.len() == if amount <= items@.len() {
            amount as nat
        } else {
            items@.len()
        },
        drawn_from(picked@, items@),
{
    items.choose_multiple(rng, amount).copied().collect()
}

/// Calls `SliceRandom::choose` of rand. Trusted: it gives nothing exactly for an
/// empty slice, and otherwise one of the slice's items.
#[verifier::external_body]
fn choose_one(items: &Vec<usize>, rng: &mut ThreadRng) -> (picked: Option<usize>)
    ensures
        picked is None <==> items@.len() == 0,
        picked is Some ==> items@.contains(picked->0),
{
    items.choose(rng).copied()
}

/// The indices from zero up to `length`, in rising order.
pub fn index_range(length: usize) -> (indices: Vec<usize>)
    ensures
        indices@.len() == length,
        forall|k: int| 0 <= k < length ==> indices@[k] == k,
{
    let mut indices: Vec<usize> = Vec::new();
    let mut i: usize = 0;
    while i < length
        invariant
            i <= length,
            indices@.len() == i,
            forall|k: int| 0 <= k < i ==> indices@[k] == k,
        decreases length - i,
    {
        indices.push(i);
        i += 1;
    }
    indices
}

/// Draws `amount` different indices below `length`, or all of them where
/// `amount` exceeds `length`, in an order that the generator decides.
pub fn pick_indices(rng: &mut ThreadRng, length: usize, amount: usize) -> (picks: Vec<usize>)
    ensures
        picks@.len() == if amount <= length {
            amount
        } else {
            length
        },
        distinct_indices(picks@, length as nat),
{
    let indices = index_range(length);
    let picks = choose_several(&indices, rng, amount);
    proof {
        let at = choose|at: Seq<int>| selects(at, picks@, indices@);
        assert forall|k: int| 0 <= k < picks@.len() implies #[trigger] picks@[k] < length by {
            assert(0 <= at[k] < indices@.len());
        }
        assert forall|i: int, j: int|
            0 <= i < picks@.len() && 0 <= j < picks@.len() && i != j implies picks@[i]
            != picks@[j] by {
            assert(0 <= at[i] < indices@.len());
            assert(0 <= at[j] < indices@.len());
            assert(at[i] != at[j]);
        }
    }
    picks
}

/// Draws one index below `length`. Gives nothing exactly when `length` is zero.
pub fn pick_index(rng: &mut ThreadRng, length: usize) -> (pick: Option<usize>)
    ensures
        pick is None <==> length == 0,
        pick is Some ==> pick->0 < length,
{
    let indices = index_range(length);
    let pick = choose_one(&indices, rng);
    proof {
        if pick is Some {
            let k = choose|k: int| 0 <= k < indices@.len() && indices@[k] == pick->0;
            assert(indices@[k] == k);
        }
    }
    pick
}

/// What is drawn from a sequence holds only items of that sequence, and holds
/// none twice where the sequence holds none twice.
pub proof fn lemma_drawn_from<T>(picked: Seq<T>, items: Seq<T>)
    requires
        drawn_from(picked, items),
    ensures
        picked.len() <= items.len(),
        forall|k: int| 0 <= k < picked.len() ==> items.contains(#[trigger] picked[k]),
        items.no_duplicates() ==> picked.no_duplicates(),
{
    let at = choose|at: Seq<int>| selects(at, picked, items);
    assert forall|k: int| 0 <= k < picked.len() implies items.contains(#[trigger] picked[k]) by {
        assert(0 <= at[k] < items.len());
        assert(items[at[k]] == picked[k]);
    }
    if items.no_duplicates() {
        assert forall|i: int, j: int|
            0 <= i < picked.len() && 0 <= j < picked.len() && i != j implies picked[i]
            != picked[j] by {
            assert(0 <= at[i] < items.len());
            assert(0 <= at[j] < items.len());
            assert(at[i] != at[j]);
        }
    }
    let positions = at.to_set();
    let below = Set::new(|i: int| 0 <= i < items.len());
    at.unique_seq_to_set();
    assert forall|i: int| positions.contains(i) implies below.contains(i) by {
        let k = choose|k: int| 0 <= k < at.len() && at[k] == i;
        assert(0 <= at[k] < items.len());
    }
    assert(below =~= vstd::set_lib::set_int_range(0, items.len() as int));
    vstd::set_lib::lemma_int_range(0, items.len() as int);
    vstd::set_lib::lemma_len_subset(positions, below);
}

} // verus!
