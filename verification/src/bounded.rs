//! What this library takes on trust from the `arrayvec` and `rand` crates
//! and from the slice sort of the standard library. None of the contracts in
//! this file is proved: each says what the outside function is documented to
//! do.

use vstd::prelude::*;
use arrayvec::{ArrayVec, CapacityError};
use rand::seq::SliceRandom;
use crate::card::Card;
use crate::wire::WireCardServerOrigin;

verus! {

/// `arrayvec::ArrayVec`, a vector of at most `CAP` items that are kept
/// inline. Its inside is hidden: what it holds is named per use below.
#[verifier::external_type_specification]
#[verifier::external_body]
#[verifier::reject_recursive_types(T)]
pub struct ExArrayVec<T, const CAP: usize>(ArrayVec<T, CAP>);

/// `arrayvec::CapacityError`, which `ArrayVec::try_push` returns with the
/// item that a full vector did not take.
#[verifier::external_type_specification]
#[verifier::external_body]
#[verifier::reject_recursive_types(T)]
pub struct ExCapacityError<T>(CapacityError<T>);

/// The cards that a deck-sized `ArrayVec` holds, first to last.
pub uninterp spec fn deck_cards(store: ArrayVec<Card, 52>) -> Seq<Card>;

/// `ArrayVec::new`: the new vector holds nothing.
#[verifier::external_body]
pub(crate) fn deck_store_new() -> (store: ArrayVec<Card, 52>)
    ensures
        deck_cards(store) == Seq::<Card>::empty(),
{
    ArrayVec::new()
}

/// `ArrayVec::push`: the item is added behind the last one. The call
/// panics on a full vector, which the precondition rules out.
#[verifier::external_body]
pub(crate) fn deck_store_push(store: &mut ArrayVec<Card, 52>, card: Card)
    requires
        deck_cards(*old(store)).len() < 52,
    ensures
        deck_cards(*final(store)) == deck_cards(*old(store)).push(card),
{
    store.push(card)
}

/// `ArrayVec::as_slice`: a slice of all the items, first to last.
#[verifier::external_body]
pub(crate) fn deck_store_slice(store: &ArrayVec<Card, 52>) -> (cards: &[Card])
    ensures
        cards@ == deck_cards(*store),
{
    store.as_slice()
}

/// `sort_unstable_by_key` of the standard library, on the vector's slice
/// and with the identifier's byte as the key: afterwards the vector holds
/// the same cards, each as often as before, and no card stands before one
/// with a smaller key. Which of two cards with one key comes first is left
/// open.
#[verifier::external_body]
pub(crate) fn deck_store_sort(store: &mut ArrayVec<Card, 52>)
    ensures
        deck_cards(*final(store)).to_multiset() == deck_cards(*old(store)).to_multiset(),
        forall|i: int, j: int|
            0 <= i <= j < deck_cards(*final(store)).len() ==> deck_cards(*final(store))[i].spec_id()
                <= deck_cards(*final(store))[j].spec_id(),
{
    store.as_mut_slice().sort_unstable_by_key(|card| card.id_byte())
}

/// The cards that the `ArrayVec` of a deck to be sent holds, first to
/// last.
pub uninterp spec fn wire_deck_cards(store: ArrayVec<WireCardServerOrigin, 52>) -> Seq<
    WireCardServerOrigin,
>;

/// `ArrayVec::new`: the new vector holds nothing.
#[verifier::external_body]
pub(crate) fn wire_deck_store_new() -> (store: ArrayVec<WireCardServerOrigin, 52>)
    ensures
        wire_deck_cards(store) == Seq::<WireCardServerOrigin>::empty(),
{
    ArrayVec::new()
}

/// `ArrayVec::push`: the item is added behind the last one. The call
/// panics on a full vector, which the precondition rules out.
#[verifier::external_body]
pub(crate) fn wire_deck_store_push(
    store: &mut ArrayVec<WireCardServerOrigin, 52>,
    card: WireCardServerOrigin,
)
    requires
        wire_deck_cards(*old(store)).len() < 52,
    ensures
        wire_deck_cards(*final(store)) == wire_deck_cards(*old(store)).push(card),
{
    store.push(card)
}

/// `ArrayVec::as_slice`: a slice of all the items, first to last.
#[verifier::external_body]
pub(crate) fn wire_deck_store_slice(store: &ArrayVec<WireCardServerOrigin, 52>) -> (cards:
    &[WireCardServerOrigin])
    ensures
        cards@ == wire_deck_cards(*store),
{
    store.as_slice()
}

/// The cards that the `ArrayVec` of the stock or the waste pile holds, first
/// to last.
pub uninterp spec fn stock_cards(store: ArrayVec<Card, 21>) -> Seq<Card>;

/// `ArrayVec::new`: the new vector holds nothing.
#[verifier::external_body]
pub(crate) fn stock_store_new() -> (store: ArrayVec<Card, 21>)
    ensures
        stock_cards(store) == Seq::<Card>::empty(),
{
    ArrayVec::new()
}

/// `ArrayVec::try_push`: while the vector holds fewer items than its
/// capacity, the item is added behind the last one and the call returns
/// `Ok`; on a full vector nothing changes and the call returns an error.
/// The call never panics.
#[verifier::external_body]
pub(crate) fn stock_store_try_push(
    store: &mut ArrayVec<Card, 21>,
    card: Card,
) -> (pushed: Result<(), CapacityError<Card>>)
    ensures
        stock_cards(*old(store)).len() < 21 ==> (
            pushed.is_ok()
            && stock_cards(*final(store)) == stock_cards(*old(store)).push(card)
        ),
        stock_cards(*old(store)).len() >= 21 ==> (
            pushed.is_err()
            && stock_cards(*final(store)) == stock_cards(*old(store))
        ),
    no_unwind
{
    store.try_push(card)
}

/// `ArrayVec::as_slice`: a slice of all the items, first to last.
#[verifier::external_body]
pub(crate) fn stock_store_slice(store: &ArrayVec<Card, 21>) -> (cards: &[Card])
    ensures
        cards@ == stock_cards(*store),
{
    store.as_slice()
}

/// The cards that the `ArrayVec` of a foundation pile holds, first to last.
pub uninterp spec fn foundation_cards(store: ArrayVec<Card, 13>) -> Seq<Card>;

/// `ArrayVec::new`: the new vector holds nothing.
#[verifier::external_body]
pub(crate) fn foundation_store_new() -> (store: ArrayVec<Card, 13>)
    ensures
        foundation_cards(store) == Seq::<Card>::empty(),
{
    ArrayVec::new()
}

/// `ArrayVec::try_push`: while the vector holds fewer items than its
/// capacity, the item is added behind the last one and the call returns
/// `Ok`; on a full vector nothing changes and the call returns an error.
/// The call never panics.
#[verifier::external_body]
pub(crate) fn foundation_store_try_push(
    store: &mut ArrayVec<Card, 13>,
    card: Card,
) -> (pushed: Result<(), CapacityError<Card>>)
    ensures
        foundation_cards(*old(store)).len() < 13 ==> (
            pushed.is_ok()
            && foundation_cards(*final(store)) == foundation_cards(*old(store)).push(card)
        ),
        foundation_cards(*old(store)).len() >= 13 ==> (
            pushed.is_err()
            && foundation_cards(*final(store)) == foundation_cards(*old(store))
        ),
    no_unwind
{
    store.try_push(card)
}

/// `ArrayVec::as_slice`: a slice of all the items, first to last.
#[verifier::external_body]
pub(crate) fn foundation_store_slice(store: &ArrayVec<Card, 13>) -> (cards: &[Card])
    ensures
        cards@ == foundation_cards(*store),
{
    store.as_slice()
}

/// The cards that the `ArrayVec` of a tableau column holds, first to last.
pub uninterp spec fn tableau_cards(store: ArrayVec<Card, 19>) -> Seq<Card>;

/// `ArrayVec::new`: the new vector holds nothing.
#[verifier::external_body]
pub(crate) fn tableau_store_new() -> (store: ArrayVec<Card, 19>)
    ensures
        tableau_cards(store) == Seq::<Card>::empty(),
{
    ArrayVec::new()
}

/// `ArrayVec::try_push`: while the vector holds fewer items than its
/// capacity, the item is added behind the last one and the call returns
/// `Ok`; on a full vector nothing changes and the call returns an error.
/// The call never panics.
#[verifier::external_body]
pub(crate) fn tableau_store_try_push(
    store: &mut ArrayVec<Card, 19>,
    card: Card,
) -> (pushed: Result<(), CapacityError<Card>>)
    ensures
        tableau_cards(*old(store)).len() < 19 ==> (
            pushed.is_ok()
            && tableau_cards(*final(store)) == tableau_cards(*old(store)).push(card)
        ),
        tableau_cards(*old(store)).len() >= 19 ==> (
            pushed.is_err()
            && tableau_cards(*final(store)) == tableau_cards(*old(store))
        ),
    no_unwind
{
    store.try_push(card)
}

/// `ArrayVec::as_slice`: a slice of all the items, first to last.
#[verifier::external_body]
pub(crate) fn tableau_store_slice(store: &ArrayVec<Card, 19>) -> (cards: &[Card])
    ensures
        cards@ == tableau_cards(*store),
{
    store.as_slice()
}

/// `SliceRandom::shuffle` with the generator of `rand::rng`: the vector is
/// permuted in place, so it holds the same bytes afterwards, each as often
/// as before. Nothing is said of their order, which differs from call to
/// call. The call panics where the generator cannot be seeded.
#[verifier::external_body]
pub(crate) fn shuffle_bytes(bytes: &mut Vec<u8>)
    ensures
        final(bytes)@.to_multiset() == old(bytes)@.to_multiset(),
{
    bytes.shuffle(&mut rand::rng())
}

} // verus!
