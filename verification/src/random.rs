//! Card drawing helper: shuffles a deck and draws two pairs of cards from
//! it. Not wired to any event handler today, but kept as part of the
//! library's public surface for future use.

use vstd::prelude::*;
use vstd::seq_lib::{to_multiset_insert, to_multiset_remove};
use rand::seq::SliceRandom;

verus! {

/// Relies on rand's `SliceRandom::shuffle`, driven by the thread-local
/// generator of `rand::rng`: it permutes the slice in place, so the cards
/// are kept, only reordered. Which order comes out is random, so no more
/// is stated.
#[verifier::external_body]
fn shuffle_cards(deck: &mut Vec<u8>)
    ensures
        final(deck)@.len() == old(deck)@.len(),
        final(deck)@.to_multiset() == old(deck)@.to_multiset(),
{
    deck.shuffle(&mut rand::rng());
}

/// One `swap_remove` step, seen through the deck's multiset: it removes
/// exactly the card that stood at the given position.
proof fn lemma_swap_remove_multiset<T>(s: Seq<T>, i: int)
    requires
        0 <= i < s.len(),
    ensures
        s.update(i, s.last()).drop_last().to_multiset() == s.to_multiset().remove(s[i]),
{
    let n = s.len() as int;
    if i == n - 1 {
        assert(s.update(i, s.last()) =~= s);
        assert(s.update(i, s.last()).drop_last() =~= s.remove(i));
        to_multiset_remove(s, i);
    } else {
        let prefix = s.subrange(0, i);
        let middle = s.subrange(i + 1, n - 1);
        let rest = prefix + middle;
        assert(s.update(i, s.last()).drop_last() =~= rest.insert(i, s.last()));
        to_multiset_insert(rest, i, s.last());
        assert(s.remove(i) =~= rest.insert(rest.len() as int, s.last()));
        to_multiset_insert(rest, rest.len() as int, s.last());
        to_multiset_remove(s, i);
    }
}

/// Shuffles the deck and draws two pairs: the first four cards of the
/// shuffled deck. Three of the drawn cards leave the deck; the rest of the
/// deck keeps exactly the other cards. The shuffle is random, so nothing
/// is said about which cards are drawn, only that they come from the deck.
pub fn sort_cards(deck: &mut Vec<u8>) -> (pairs: [u8; 4])
    requires
        old(deck)@.len() >= 5,
    ensures
        final(deck)@.len() == old(deck)@.len() - 3,
        final(deck)@.to_multiset().insert(pairs@[0]).insert(pairs@[1]).insert(pairs@[2]) == old(
            deck,
        )@.to_multiset(),
        forall|i: int| 0 <= i < 4 ==> old(deck)@.to_multiset().contains(#[trigger] pairs@[i]),
{
    shuffle_cards(deck);
    let pairs: [u8; 4] = [deck[0], deck[1], deck[2], deck[3]];
    let ghost shuffled = deck@;
    deck.swap_remove(0);
    let ghost after_first = deck@;
    deck.swap_remove(1);
    let ghost after_second = deck@;
    deck.swap_remove(2);
    proof {
        broadcast use vstd::multiset::group_multiset_axioms;

        lemma_swap_remove_multiset(shuffled, 0);
        lemma_swap_remove_multiset(after_first, 1);
        lemma_swap_remove_multiset(after_second, 2);
        assert(after_first[1] == shuffled[1]);
        assert(after_second[2] == shuffled[2]);
        shuffled.to_multiset_ensures();
        after_first.to_multiset_ensures();
        after_second.to_multiset_ensures();
        assert(pairs@ =~= seq![shuffled[0], shuffled[1], shuffled[2], shuffled[3]]);
        assert(shuffled.contains(shuffled[0]));
        assert(shuffled.contains(shuffled[1]));
        assert(shuffled.contains(shuffled[2]));
        assert(shuffled.contains(shuffled[3]));
        assert(after_first.contains(after_first[1]));
        assert(after_second.contains(after_second[2]));
        assert(deck@.to_multiset().insert(pairs@[0]).insert(pairs@[1]).insert(pairs@[2])
            =~= shuffled.to_multiset());
    }
    pairs
}

} // verus!
