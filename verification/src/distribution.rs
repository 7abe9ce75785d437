//! The selection of a card: a seed fixed at proving time, and a walk over
//! the cards' weights that the seed steers.

use vstd::prelude::*;
use vstd::bytes::{spec_u32_to_le_bytes, spec_u64_from_le_bytes, u32_to_le_bytes};
use crate::account::Key;
use crate::codec::read_u64;
use crate::error::PackError;
use crate::state::pack_card::{card_views, PackCard, PackCardView};
use crate::state::PROBABILITY_POOL;

verus! {

/// The SHA-256 digest of a message, as `solana_program::hash::hash` computes
/// it.
pub uninterp spec fn sha256(message: Seq<u8>) -> Seq<u8>;

/// Calls `solana_program::hash::hash`. The contract claims only that the
/// digest is a function of the message, named `sha256`.
#[verifier::external_body]
fn sha256_digest(message: &[u8]) -> (digest: [u8; 32])
    ensures
        digest@ == sha256(message@),
{
    solana_program::hash::hash(message).to_bytes()
}

/// The message that a seed is derived from: the ledger's entropy, the
/// holder's address, the proof's sequence number in little-endian order.
pub open spec fn seed_message(entropy: Seq<u8>, holder: Seq<u8>, sequence: u32) -> Seq<u8> {
    entropy + holder + spec_u32_to_le_bytes(sequence)
}

/// The seed that a digest gives: its first eight bytes, read in little-endian
/// order.
pub open spec fn seed_of_digest(digest: Seq<u8>) -> u64 {
    spec_u64_from_le_bytes(digest.subrange(0, 8))
}

/// The seed that a digest gives.
pub fn seed_from_digest(digest: &[u8; 32]) -> (seed: u64)
    ensures
        seed == seed_of_digest(digest@),
{
    read_u64(digest.as_slice(), 0)
}

/// The selection seed of a proof: the digest of the ledger's entropy, the
/// holder's address and the proof's sequence number, read as a number.
pub fn selection_seed(entropy: &[u8], holder: &Key, sequence: u32) -> (seed: u64)
    ensures
        seed == seed_of_digest(sha256(seed_message(entropy@, holder@, sequence))),
{
    let mut message: Vec<u8> = Vec::new();
    message.extend_from_slice(entropy);
    message.extend_from_slice(holder.to_vec().as_slice());
    message.extend_from_slice(u32_to_le_bytes(sequence).as_slice());
    assert(message@ =~= seed_message(entropy@, holder@, sequence));
    let digest = sha256_digest(message.as_slice());
    seed_from_digest(&digest)
}

/// The weights of the first `n` cards together.
pub open spec fn weight_sum(cards: Seq<PackCardView>, n: int) -> int
    decreases n,
{
    if n <= 0 {
        0
    } else {
        weight_sum(cards, n - 1) + cards[n - 1].probability
    }
}

/// The weights of all cards together.
pub open spec fn total_weight(cards: Seq<PackCardView>) -> int {
    weight_sum(cards, cards.len() as int)
}

/// Where the walk over the weights stops when it starts at position `from`:
/// at the first card whose running weight sum exceeds `target`, or past the
/// last card where none does.
pub open spec fn walk_stop(cards: Seq<PackCardView>, target: int, from: int) -> int
    decreases cards.len() - from,
{
    if from >= cards.len() {
        cards.len() as int
    } else if weight_sum(cards, from + 1) > target {
        from
    } else {
        walk_stop(cards, target, from + 1)
    }
}

/// The first card at a position from `from` up to, not including, `to` that
/// has supply left.
pub open spec fn first_available(cards: Seq<PackCardView>, from: int, to: int) -> Option<int>
    decreases to - from,
{
    if from >= to {
        None
    } else if !cards[from].is_exhausted() {
        Some(from)
    } else {
        first_available(cards, from + 1, to)
    }
}

/// The position of the card that a seed selects. The walk over the weights
/// stops at the first card whose running sum exceeds the seed reduced modulo
/// the probability pool; from there the first card with supply left is
/// taken, going forward and wrapping round once. `None` where every card is
/// exhausted.
pub open spec fn selection(cards: Seq<PackCardView>, seed: u64) -> Option<int> {
    let stop = walk_stop(cards, (seed % PROBABILITY_POOL) as int, 0);
    match first_available(cards, stop, cards.len() as int) {
        Some(k) => Some(k),
        None => first_available(cards, 0, stop),
    }
}

/// The walk stops within the cards or just past them; up to the stop no
/// running sum exceeds the target, and the sum that includes the card at the
/// stop does.
pub proof fn lemma_walk_stop(cards: Seq<PackCardView>, target: int, from: int)
    requires
        0 <= from <= cards.len(),
    ensures
        from <= walk_stop(cards, target, from) <= cards.len(),
        forall|n: int|
            from < n <= walk_stop(cards, target, from) ==> #[trigger] weight_sum(cards, n)
                <= target,
        walk_stop(cards, target, from) < cards.len() ==> weight_sum(
            cards,
            walk_stop(cards, target, from) + 1,
        ) > target,
    decreases cards.len() - from,
{
    if from < cards.len() && weight_sum(cards, from + 1) <= target {
        lemma_walk_stop(cards, target, from + 1);
    }
}

/// What `first_available` finds has supply left, lies in the range, and
/// follows only exhausted cards; it finds nothing only where the whole range
/// is exhausted.
pub proof fn lemma_first_available(cards: Seq<PackCardView>, from: int, to: int)
    requires
        0 <= from,
        to <= cards.len(),
    ensures
        first_available(cards, from, to) matches Some(k) ==> from <= k < to
            && !cards[k].is_exhausted() && forall|j: int|
            from <= j < k ==> cards[j].is_exhausted(),
        first_available(cards, from, to) is None ==> forall|j: int|
            from <= j < to ==> cards[j].is_exhausted(),
    decreases to - from,
{
    if from < to && cards[from].is_exhausted() {
        lemma_first_available(cards, from + 1, to);
    }
}

/// A claim never selects an exhausted card, and fails to select only where
/// every card is exhausted.
pub proof fn lemma_selection_has_supply(cards: Seq<PackCardView>, seed: u64)
    ensures
        selection(cards, seed) matches Some(k) ==> 0 <= k < cards.len()
            && !cards[k].is_exhausted(),
        selection(cards, seed) is None <==> forall|j: int|
            0 <= j < cards.len() ==> cards[j].is_exhausted(),
{
    let stop = walk_stop(cards, (seed % PROBABILITY_POOL) as int, 0);
    lemma_walk_stop(cards, (seed % PROBABILITY_POOL) as int, 0);
    lemma_first_available(cards, stop, cards.len() as int);
    lemma_first_available(cards, 0, stop);
}

/// The sum of the weights never shrinks as more cards are counted.
pub proof fn lemma_weight_sum_grows(cards: Seq<PackCardView>, m: int, n: int)
    requires
        0 <= m <= n,
    ensures
        0 <= weight_sum(cards, m) <= weight_sum(cards, n),
    decreases n,
{
    if m < n {
        lemma_weight_sum_grows(cards, m, n - 1);
    } else if n > 0 {
        lemma_weight_sum_grows(cards, m - 1, n - 1);
    }
}

/// The weights of the first `n` cards together do not depend on the cards
/// that follow.
pub proof fn lemma_weight_sum_of_prefix(a: Seq<PackCardView>, b: Seq<PackCardView>, n: int)
    requires
        0 <= n <= a.len(),
        n <= b.len(),
        forall|i: int| 0 <= i < n ==> a[i] == b[i],
    ensures
        weight_sum(a, n) == weight_sum(b, n),
    decreases n,
{
    if n > 0 {
        lemma_weight_sum_of_prefix(a, b, n - 1);
    }
}

/// Where the card at which the walk stops has supply left, that card is
/// selected: the probe moves on only past exhausted cards.
pub proof fn lemma_selection_prefers_the_walk(cards: Seq<PackCardView>, seed: u64)
    ensures
        ({
            let stop = walk_stop(cards, (seed % PROBABILITY_POOL) as int, 0);
            stop < cards.len() && !cards[stop].is_exhausted() ==> selection(cards, seed) == Some(
                stop,
            )
        }),
{
    lemma_walk_stop(cards, (seed % PROBABILITY_POOL) as int, 0);
}

/// How much of the probability pool the cards leave free, or `None` where
/// their weights together exceed the pool.
pub fn remaining_weight(cards: &Vec<PackCard>) -> (r: Option<u64>)
    ensures
        match r {
            Some(room) => total_weight(card_views(cards@)) + room == PROBABILITY_POOL,
            None => total_weight(card_views(cards@)) > PROBABILITY_POOL,
        },
{
    let ghost views = card_views(cards@);
    let mut running: u64 = 0;
    let mut i: usize = 0;
    while i < cards.len()
        invariant
            i <= cards@.len(),
            views == card_views(cards@),
            running == weight_sum(views, i as int),
            running <= PROBABILITY_POOL,
        decreases cards@.len() - i,
    {
        let weight = cards[i].probability;
        assert(views[i as int].probability == weight);
        if weight > PROBABILITY_POOL - running {
            proof {
                lemma_weight_sum_grows(views, i + 1, views.len() as int);
            }
            return None;
        }
        running = running + weight;
        i = i + 1;
    }
    Some(PROBABILITY_POOL - running)
}

/// Where the walk over the weights stops for `target`.
fn walk(cards: &Vec<PackCard>, target: u64) -> (stop: usize)
    ensures
        stop == walk_stop(card_views(cards@), target as int, 0),
        stop <= cards@.len(),
{
    let ghost views = card_views(cards@);
    let mut running: u64 = 0;
    let mut i: usize = 0;
    while i < cards.len()
        invariant
            i <= cards@.len(),
            views == card_views(cards@),
            running == weight_sum(views, i as int),
            running <= target,
            walk_stop(views, target as int, 0) == walk_stop(views, target as int, i as int),
        decreases cards@.len() - i,
    {
        let weight = cards[i].probability;
        assert(views[i as int].probability == weight);
        if weight > target - running {
            assert(weight_sum(views, i + 1) > target);
            return i;
        }
        running = running + weight;
        i = i + 1;
    }
    i
}

/// The first card with supply left at a position from `from` up to `to`.
fn probe(cards: &Vec<PackCard>, from: usize, to: usize) -> (found: Option<usize>)
    requires
        from <= to <= cards@.len(),
    ensures
        match found {
            Some(k) => first_available(card_views(cards@), from as int, to as int) == Some(
                k as int,
            ),
            None => first_available(card_views(cards@), from as int, to as int) is None,
        },
{
    let ghost views = card_views(cards@);
    let mut i: usize = from;
    while i < to
        invariant
            from <= i <= to <= cards@.len(),
            views == card_views(cards@),
            first_available(views, from as int, to as int) == first_available(
                views,
                i as int,
                to as int,
            ),
        decreases to - i,
    {
        assert(views[i as int] == cards@[i as int]@);
        if !cards[i].is_exhausted() {
            return Some(i);
        }
        i = i + 1;
    }
    None
}

/// Selects a card for a seed: the position of the selected card, or
/// `NoCardsLeft` where every card is exhausted.
pub fn select_card(cards: &Vec<PackCard>, seed: u64) -> (r: Result<usize, PackError>)
    ensures
        match r {
            Ok(k) => selection(card_views(cards@), seed) == Some(k as int),
            Err(e) => e == PackError::NoCardsLeft && selection(card_views(cards@), seed) is None,
        },
{
    let stop = walk(cards, seed % PROBABILITY_POOL);
    match probe(cards, stop, cards.len()) {
        Some(k) => Ok(k),
        None => match probe(cards, 0, stop) {
            Some(k) => Ok(k),
            None => Err(PackError::NoCardsLeft),
        },
    }
}

/// The position of the card that a claim resolves to. A claim that already
/// records a selected card keeps it, as long as that card exists and has
/// supply left; any other claim selects by its seed.
pub open spec fn resolution(cards: Seq<PackCardView>, seed: u64, selected: Option<u32>) -> Option<
    int,
> {
    match selected {
        Some(index) => if 1 <= index <= cards.len() && !cards[index - 1].is_exhausted() {
            Some(index - 1)
        } else {
            None
        },
        None => selection(cards, seed),
    }
}

/// Resolves a claim to the position of a card, or fails with `NoCardsLeft`.
pub fn resolve_card(cards: &Vec<PackCard>, seed: u64, selected: Option<u32>) -> (r: Result<
    usize,
    PackError,
>)
    ensures
        match r {
            Ok(k) => resolution(card_views(cards@), seed, selected) == Some(k as int) && k
                < cards@.len(),
            Err(e) => e == PackError::NoCardsLeft && resolution(card_views(cards@), seed, selected)
                is None,
        },
{
    proof {
        lemma_selection_has_supply(card_views(cards@), seed);
    }
    match selected {
        Some(index) => {
            if index >= 1 && index as usize <= cards.len() {
                let position: usize = (index - 1) as usize;
                assert(card_views(cards@)[position as int] == cards@[position as int]@);
                if !cards[position].is_exhausted() {
                    return Ok(position);
                }
            }
            Err(PackError::NoCardsLeft)
        },
        None => select_card(cards, seed),
    }
}

} // verus!
