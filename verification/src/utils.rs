use vstd::prelude::*;
use rand::seq::SliceRandom;
use vstd::set_lib::{set_int_range, lemma_int_range, lemma_subset_equality};

verus! {

/// `picked` is `n` items of `from`, taken at pairwise distinct positions.
pub open spec fn is_selection(picked: Seq<String>, from: Seq<String>, n: nat) -> bool {
    &&& picked.len() == n
    &&& exists|idx: Seq<int>| picks_at(picked, from, idx)
}

/// `idx` names, for each item of `picked`, a distinct position of `from` holding it.
pub open spec fn picks_at(picked: Seq<String>, from: Seq<String>, idx: Seq<int>) -> bool {
    &&& idx.len() == picked.len()
    &&& idx.no_duplicates()
    &&& forall|k: int| 0 <= k < idx.len() ==> 0 <= #[trigger] idx[k] < from.len()
    &&& forall|k: int| 0 <= k < idx.len() ==> #[trigger] picked[k] == from[idx[k]]
}

/// `rand`'s `SliceRandom::choose_multiple` over the thread-local generator, its items
/// cloned into a vector. rand 0.8 takes `min(amount, len)` distinct indices from
/// `index::sample` and yields the items at them; which indices, and their order,
/// is left to chance and is not stated here.
#[verifier::external_body]
fn choose_multiple_cloned(comments: &[String], amount: usize) -> (picked: Vec<String>)
    requires
        amount <= comments@.len(),
    ensures
        is_selection(picked@, comments@, amount as nat),
{
    comments.choose_multiple(&mut rand::thread_rng(), amount).cloned().collect()
}

/// Picks up to `count` of `comments` at random, none twice.
pub fn get_random_comments(comments: &[String], count: usize) -> (picked: Vec<String>)
    ensures
        is_selection(
            picked@,
            comments@,
            if count < comments@.len() { count as nat } else { comments@.len() },
        ),
{
    if comments.len() == 0 {
        let picked: Vec<String> = Vec::new();
        assert(picks_at(picked@, comments@, Seq::<int>::empty()));
        return picked;
    }
    let selected_count = if count < comments.len() { count } else { comments.len() };
    choose_multiple_cloned(comments, selected_count)
}

/// When at least as many comments are asked for as there are, every comment is
/// among those picked: the result is the whole list, in some order.
pub proof fn lemma_full_selection_covers(picked: Seq<String>, from: Seq<String>)
    requires
        is_selection(picked, from, from.len()),
    ensures
        forall|j: int| 0 <= j < from.len() ==> picked.contains(#[trigger] from[j]),
{
    let idx = choose|idx: Seq<int>| picks_at(picked, from, idx);
    let all = set_int_range(0, from.len() as int);
    idx.unique_seq_to_set();
    lemma_int_range(0, from.len() as int);
    assert(idx.to_set().subset_of(all)) by {
        assert forall|i: int| idx.to_set().contains(i) implies all.contains(i) by {
            let k = choose|k: int| 0 <= k < idx.len() && idx[k] == i;
            assert(0 <= idx[k] < from.len());
        }
    }
    lemma_subset_equality(idx.to_set(), all);
    assert forall|j: int| 0 <= j < from.len() implies picked.contains(#[trigger] from[j]) by {
        assert(all.contains(j));
        assert(idx.to_set().contains(j));
        let k = choose|k: int| 0 <= k < idx.len() && idx[k] == j;
        assert(picked[k] == from[idx[k]]);
    }
}

} // verus!
