//! The pool of candidate words that a session's 25-card deal is drawn from,
//! and the distinctness check a caller needs before dealing a board.
use vstd::prelude::*;

use rand::seq::SliceRandom;

verus! {

/// A word pool. The pool itself comes from outside (a word list read by the
/// surrounding program); the bank only draws from it.
pub struct WordBank {
    inner: Vec<String>,
}

impl View for WordBank {
    type V = Seq<Seq<char>>;

    closed spec fn view(&self) -> Seq<Seq<char>> {
        self.inner.deep_view()
    }
}

/// Relies on `rand::seq::SliceRandom::choose_multiple`: it yields
/// `min(count, words.len())` elements drawn at distinct indices (sampling
/// without repetition), in an order that depends on the random generator.
#[verifier::external_body]
fn sample_words(words: &Vec<String>, count: usize) -> (r: Vec<String>)
    ensures
        r.deep_view().len() == if count <= words.deep_view().len() {
            count as int
        } else {
            words.deep_view().len() as int
        },
        r.deep_view().to_multiset().subset_of(words.deep_view().to_multiset()),
{
    words.choose_multiple(&mut rand::thread_rng(), count).cloned().collect()
}

impl WordBank {
    /// Wraps an externally supplied word pool.
    pub fn new(words: Vec<String>) -> (r: WordBank)
        ensures
            r@ == words.deep_view(),
    {
        WordBank { inner: words }
    }

    /// Draws `count` words from the pool without repetition (fewer only when
    /// the pool itself is smaller). Every drawn word occurs in the pool at
    /// least as often as in the draw, so a duplicate-free pool yields a
    /// duplicate-free draw.
    pub fn get_word_set(&self, count: usize) -> (r: Vec<String>)
        ensures
            r.deep_view().len() == if count <= self@.len() {
                count as int
            } else {
                self@.len() as int
            },
            r.deep_view().to_multiset().subset_of(self@.to_multiset()),
    {
        sample_words(&self.inner, count)
    }
}

/// Whether the words are pairwise distinct: the caller-side check before a
/// deal, matching what [`crate::game_state::GameState::new`] requires.
pub fn words_distinct(words: &Vec<String>) -> (r: bool)
    ensures
        r == (forall|i: int, j: int|
            0 <= i < j < words.deep_view().len() ==> words.deep_view()[i] != words.deep_view()[j]),
{
    let ghost w = words.deep_view();
    let n = words.len();
    let mut i: usize = 0;
    while i < n
        invariant
            i <= n,
            n == w.len(),
            forall|p: int, q: int| 0 <= p < q < i ==> w[p] != w[q],
        decreases n - i,
    {
        let mut j: usize = 0;
        while j < i
            invariant
                j <= i < n,
                n == w.len(),
                forall|q: int| 0 <= q < j ==> w[q] != w[i as int],
            decreases i - j,
        {
            if words[j] == words[i] {
                proof {
                    assert(w[j as int] == w[i as int]);
                }
                return false;
            }
            j += 1;
        }
        i += 1;
    }
    true
}

} // verus!
