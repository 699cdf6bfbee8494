//! The error of a push onto a full pile.

use vstd::prelude::*;
use crate::card::Card;

verus! {

/// A pile was full and did not take the card.
#[derive(Copy, Clone, Debug, PartialEq, Eq, Structural)]
pub struct StackFull {
    /// The card that was not taken.
    pub card: Card,
}

} // verus!
