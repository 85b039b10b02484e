//! Identifiers of players, dealers, games, tables and commands, and seats.

use vstd::prelude::*;

verus! {

/// What `ulid::Ulid::from_string` decodes a text into, if it is a valid
/// ULID (26 Crockford base-32 characters).
pub uninterp spec fn ulid_decode(text: Seq<char>) -> Option<u128>;

/// A fresh ULID from `ulid::Ulid::new()`: the current time and random bits.
/// Nothing is promised of the value.
#[verifier::external_body]
pub(crate) fn fresh_ulid() -> (id: u128) {
    ulid::Ulid::new().0
}

/// Decodes a ULID text with `ulid::Ulid::from_string`; the result is the
/// decoded value, or `None` where the crate reports a decode error.
#[verifier::external_body]
fn decode_ulid(text: &str) -> (r: Option<u128>)
    ensures
        r == ulid_decode(text@),
{
    match ulid::Ulid::from_string(text) {
        Ok(u) => Some(u.0),
        Err(_) => None,
    }
}

#[derive(Clone, Copy, Debug, PartialEq, Eq, Hash, Structural)]
pub struct PlayerId(pub u128);

impl PlayerId {
    /// A fresh identifier.
    pub fn new() -> (id: PlayerId) {
        PlayerId(fresh_ulid())
    }
}

#[derive(Clone, Copy, Debug, PartialEq, Eq, Hash, Structural)]
pub struct DealerId(pub u128);

impl DealerId {
    /// A fresh identifier.
    pub fn new() -> (id: DealerId) {
        DealerId(fresh_ulid())
    }
}

#[derive(Clone, Copy, Debug, PartialEq, Eq, Hash, Structural)]
pub struct GameId(pub u128);

impl GameId {
    /// A fresh identifier.
    pub fn new() -> (id: GameId) {
        GameId(fresh_ulid())
    }
}

#[derive(Clone, Copy, Debug, PartialEq, Eq, Hash, Structural)]
pub struct TableId(pub u128);

impl TableId {
    /// Parses a table identifier from its ULID text; `None` where the text
    /// is not a ULID.
    pub fn parse(text: &str) -> (r: Option<TableId>)
        ensures
            r == (match ulid_decode(text@) {
                Some(v) => Some(TableId(v)),
                None => None,
            }),
    {
        match decode_ulid(text) {
            Some(v) => Some(TableId(v)),
            None => None,
        }
    }
}

#[derive(Clone, Copy, Debug, PartialEq, Eq, Hash, Structural)]
pub struct CommandId(pub u64);

/// Lowest and highest seat number at a table.
pub const MIN_SEAT: u8 = 1;
pub const MAX_SEAT: u8 = 7;

/// A seat number, from `MIN_SEAT` to `MAX_SEAT`.
#[derive(Clone, Copy, Debug, PartialEq, Eq, Hash, Structural)]
pub struct Seat(u8);

impl Seat {
    pub open spec fn valid_number(n: u8) -> bool {
        MIN_SEAT <= n <= MAX_SEAT
    }

    pub closed spec fn spec_number(self) -> u8 {
        self.0
    }

    /// The seat numbered `n`.
    pub closed spec fn from_number(n: u8) -> Seat {
        Seat(n)
    }

    /// The seat with number `n`, or `None` where `n` is not a seat number.
    pub fn try_from_number(n: u8) -> (r: Option<Seat>)
        ensures
            r == (if Self::valid_number(n) { Some(Self::from_number(n)) } else { None }),
            r matches Some(s) ==> s.spec_number() == n,
    {
        if MIN_SEAT <= n && n <= MAX_SEAT {
            Some(Seat(n))
        } else {
            None
        }
    }

    pub fn number(&self) -> (n: u8)
        ensures
            n == self.spec_number(),
            Self::valid_number(n),
    {
        proof { use_type_invariant(self); }
        self.0
    }

    #[verifier::type_invariant]
    spec fn inv(self) -> bool {
        Self::valid_number(self.0)
    }
}

} // verus!
