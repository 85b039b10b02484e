//! The events a command produces, and the result of a settled round.

use crate::cards::Card;
use crate::ids::{DealerId, PlayerId, Seat};
use crate::phase::{Phase, PlayerDecision};
use vstd::prelude::*;

verus! {

/// How a player's hand ended against the dealer's.
#[derive(Clone, Copy, Debug, PartialEq, Eq, Structural)]
pub enum Outcome {
    Win,
    Lose,
    Push,
    Blackjack,
}

/// One player's settlement: the outcome and what is paid back, stake
/// included.
#[derive(Clone, Copy, Debug, PartialEq, Eq, Structural)]
pub struct PlayerResult {
    pub player: PlayerId,
    pub outcome: Outcome,
    pub payout: u64,
}

#[derive(Clone, Debug)]
pub struct GameResult {
    pub dealer_value: u32,
    pub players: Vec<PlayerResult>,
}

#[derive(Clone, Debug)]
pub enum EventPayload {
    PlayerJoined { player: PlayerId, seat: Seat },
    PlayerLeft { player: PlayerId },
    ObserverJoined { player: PlayerId },
    ObserverLeft { player: PlayerId },
    PlayerAddedToWaitingList { player: PlayerId, seat: Seat },
    PlayerRemovedFromWaitingList { player: PlayerId },
    PlayerPlacedBet { player: PlayerId, amount: u32 },
    /// Player doubled their stake; `amount` is the additional bet, equal to the first stake.
    PlayerDoubledDown { player: PlayerId, amount: u32 },
    GameStarted,
    PhaseChanged { from: Phase, to: Phase },
    GameFinished { result: GameResult },
    PlayerCardDealt { player: PlayerId, card: Card },
    DealerCardDealt { dealer: DealerId, card: Card },
    /// Hole card dealt face-down during initial dealing — card value not broadcast.
    DealerHoleCardDealt { dealer: DealerId },
    /// Hole card revealed at the start of the dealer's turn.
    DealerHoleCardRevealed { dealer: DealerId, card: Card },
    PlayerDecisionTaken { player: PlayerId, action: PlayerDecision },
    PlayerBust { player: PlayerId },
    DealerBust { dealer: DealerId },
}

} // verus!
