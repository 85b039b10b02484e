//! The phases of a round and the decisions a player can take.

use crate::ids::PlayerId;
use vstd::prelude::*;

verus! {

#[derive(Clone, Copy, Debug, PartialEq, Eq, Structural)]
pub enum Phase {
    WaitingForBets,
    Dealing,
    PlayerTurn(PlayerId),
    DealerTurn,
    Payouts,
    Finished,
}

#[derive(Clone, Copy, Debug, PartialEq, Eq, Structural)]
pub enum PlayerDecision {
    Hit,
    Stand,
    Double,
}

} // verus!
