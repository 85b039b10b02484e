//! Why a command is refused.

use crate::ids::{PlayerId, Seat};
use crate::phase::Phase;
use vstd::prelude::*;

verus! {

#[derive(Clone, Copy, Debug, PartialEq, Eq, Structural)]
pub enum CommandError {
    WrongPhase { actual: Phase },
    PlayerNotFound(PlayerId),
    NotPlayersTurn,
    BetBelowMinimum { min: u32, amount: u32 },
    BetAboveMaximum { max: u32, amount: u32 },
    InsufficientBalance { balance: u32, amount: u32 },
    AlreadyPlacedBet,
    CannotDoubleDown,
    ShoeEmpty,
    TableFull,
    ObserversFull,
    NoBettors,
    SeatOccupied(Seat),
    SeatNotAvailable(Seat, usize),
    NoSeatAvailable,
}

} // verus!
