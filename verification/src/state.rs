//! The state of a round: the shoe and how far it has been dealt, the seated
//! players with their balances, stakes and hands, the dealer's hand and the
//! phase; and how an event changes it.

use crate::cards::{Card, Hand};
use crate::event::{EventPayload, GameResult, PlayerResult};
use crate::ids::{DealerId, GameId, PlayerId};
use crate::phase::Phase;
use vstd::prelude::*;

verus! {

/// The limits of a table.
#[derive(Clone, Copy, Debug, PartialEq, Eq, Structural)]
pub struct TableSettings {
    pub min_bet: u32,
    pub max_bet: u32,
    pub max_players: usize,
    pub max_observers: usize,
}

pub struct PlayerState {
    pub id: PlayerId,
    pub balance: u32,
    pub bet: Option<u32>,
    pub hand: Hand,
}

pub struct DealerState {
    pub id: DealerId,
    pub hand: Hand,
}

pub struct GameState {
    pub game_id: GameId,
    pub shoe: Vec<Card>,
    /// How many cards of the shoe have been dealt; the next card is
    /// `shoe[dealt]`.
    pub dealt: usize,
    pub players: Vec<PlayerState>,
    pub dealer: DealerState,
    pub phase: Phase,
}

/// A player as the rules see them.
#[verifier::ext_equal]
pub struct PlayerModel {
    pub id: PlayerId,
    pub balance: u32,
    pub bet: Option<u32>,
    pub cards: Seq<Card>,
}

/// A round as the rules see it.
#[verifier::ext_equal]
pub struct RoundModel {
    pub game_id: GameId,
    pub shoe: Seq<Card>,
    pub dealt: int,
    pub players: Seq<PlayerModel>,
    pub dealer: DealerId,
    pub dealer_cards: Seq<Card>,
    pub phase: Phase,
}

impl View for PlayerState {
    type V = PlayerModel;

    open spec fn view(&self) -> PlayerModel {
        PlayerModel { id: self.id, balance: self.balance, bet: self.bet, cards: self.hand.cards@ }
    }
}

impl View for GameState {
    type V = RoundModel;

    open spec fn view(&self) -> RoundModel {
        RoundModel {
            game_id: self.game_id,
            shoe: self.shoe@,
            dealt: self.dealt as int,
            players: self.players@.map_values(|p: PlayerState| p@),
            dealer: self.dealer.id,
            dealer_cards: self.dealer.hand.cards@,
            phase: self.phase,
        }
    }
}

/// `i` is the first seat of the player `id`.
pub open spec fn is_first_seat(players: Seq<PlayerModel>, id: PlayerId, i: int) -> bool {
    &&& 0 <= i < players.len()
    &&& players[i].id == id
    &&& forall|j: int| 0 <= j < i ==> (#[trigger] players[j]).id != id
}

/// The first seat of the player `id`, if they are seated.
pub open spec fn seat_of(players: Seq<PlayerModel>, id: PlayerId) -> Option<int> {
    if exists|i: int| #[trigger] is_first_seat(players, id, i) {
        Some(choose|i: int| #[trigger] is_first_seat(players, id, i))
    } else {
        None
    }
}

/// `j` is the first seat after `k` whose player has a stake.
pub open spec fn is_next_bettor(players: Seq<PlayerModel>, k: int, j: int) -> bool {
    &&& k < j < players.len()
    &&& players[j].bet is Some
    &&& forall|m: int| k < m < j ==> (#[trigger] players[m]).bet is None
}

/// Whose turn follows the player `id`: the next player after their seat
/// who has a stake, or the dealer when there is none (or when `id` is not
/// seated).
pub open spec fn turn_after(players: Seq<PlayerModel>, id: PlayerId) -> Phase {
    match seat_of(players, id) {
        None => Phase::DealerTurn,
        Some(k) => if exists|j: int| #[trigger] is_next_bettor(players, k, j) {
            Phase::PlayerTurn(players[choose|j: int| #[trigger] is_next_bettor(players, k, j)].id)
        } else {
            Phase::DealerTurn
        },
    }
}

pub proof fn lemma_first_seat_unique(players: Seq<PlayerModel>, id: PlayerId, i: int, j: int)
    requires
        is_first_seat(players, id, i),
        is_first_seat(players, id, j),
    ensures
        i == j,
{
    if i < j {
        assert(players[i].id != id);
    } else if j < i {
        assert(players[j].id != id);
    }
}

/// The seat `seat_of` names is the first seat of that player.
pub proof fn lemma_seat_of(players: Seq<PlayerModel>, id: PlayerId)
    ensures
        seat_of(players, id) matches Some(i) ==> is_first_seat(players, id, i),
        seat_of(players, id) is None ==> forall|i: int| 0 <= i < players.len() ==> (#[trigger] players[i]).id != id,
{
    if seat_of(players, id) is None {
        assert forall|i: int| 0 <= i < players.len() implies (#[trigger] players[i]).id != id by {
            if players[i].id == id {
                lemma_first_seat_exists(players, id, i);
            }
        }
    }
}

/// A seated player has a first seat.
pub proof fn lemma_first_seat_exists(players: Seq<PlayerModel>, id: PlayerId, i: int)
    requires
        0 <= i < players.len(),
        players[i].id == id,
    ensures
        exists|f: int| #[trigger] is_first_seat(players, id, f),
    decreases i,
{
    if forall|j: int| 0 <= j < i ==> (#[trigger] players[j]).id != id {
        assert(is_first_seat(players, id, i));
    } else {
        let j = choose|j: int| 0 <= j < i && (#[trigger] players[j]).id == id;
        lemma_first_seat_exists(players, id, j);
    }
}

pub proof fn lemma_next_bettor_unique(players: Seq<PlayerModel>, k: int, i: int, j: int)
    requires
        is_next_bettor(players, k, i),
        is_next_bettor(players, k, j),
    ensures
        i == j,
{
    if i < j {
        assert(players[i].bet is None);
    } else if j < i {
        assert(players[j].bet is None);
    }
}

/// Changing a player's record but not their identifier keeps every seat.
pub proof fn lemma_seat_of_update(players: Seq<PlayerModel>, i: int, p: PlayerModel, id: PlayerId)
    requires
        0 <= i < players.len(),
        p.id == players[i].id,
    ensures
        seat_of(players.update(i, p), id) == seat_of(players, id),
{
    let q = players.update(i, p);
    assert forall|k: int| #[trigger] is_first_seat(q, id, k) <==> is_first_seat(players, id, k) by {
        if is_first_seat(q, id, k) {
            assert forall|j: int| 0 <= j < k implies (#[trigger] players[j]).id != id by {
                assert(q[j].id == players[j].id);
            }
        }
        if is_first_seat(players, id, k) {
            assert forall|j: int| 0 <= j < k implies (#[trigger] q[j]).id != id by {
                assert(q[j].id == players[j].id);
            }
        }
    }
    if exists|k: int| #[trigger] is_first_seat(players, id, k) {
        let a = choose|k: int| #[trigger] is_first_seat(q, id, k);
        let b = choose|k: int| #[trigger] is_first_seat(players, id, k);
        assert(is_first_seat(q, id, b));
        lemma_first_seat_unique(players, id, a, b);
    }
}

impl RoundModel {
    /// What any round held in memory satisfies: the shoe and the count of
    /// dealt cards fit a `usize`.
    pub open spec fn fits(self) -> bool {
        &&& self.shoe.len() <= usize::MAX
        &&& 0 <= self.dealt <= usize::MAX
    }

    /// The next card of the shoe, if any is left.
    pub open spec fn next_card(self) -> Option<Card> {
        if 0 <= self.dealt < self.shoe.len() {
            Some(self.shoe[self.dealt])
        } else {
            None
        }
    }

    pub open spec fn with_player(self, i: int, p: PlayerModel) -> RoundModel {
        RoundModel { players: self.players.update(i, p), ..self }
    }

    /// Credit one settlement; `None` where the balance would overflow.
    pub open spec fn credit_one(self, r: PlayerResult) -> Option<RoundModel> {
        match seat_of(self.players, r.player) {
            None => Some(self),
            Some(i) => {
                let p = self.players[i];
                if p.balance + r.payout > u32::MAX {
                    None
                } else {
                    Some(self.with_player(i, PlayerModel { balance: (p.balance + r.payout) as u32, ..p }))
                }
            },
        }
    }

    /// Credit settlements in order; `None` where a balance would overflow.
    pub open spec fn credited(self, results: Seq<PlayerResult>) -> Option<RoundModel>
        decreases results.len(),
    {
        if results.len() == 0 {
            Some(self)
        } else {
            match self.credited(results.drop_last()) {
                None => None,
                Some(m) => m.credit_one(results.last()),
            }
        }
    }

    /// The round after the event; `None` where the event cannot be applied
    /// (a stake larger than the balance, a balance or counter that would
    /// overflow, a hole card from an empty shoe).
    ///
    /// Seating and observers are kept by the table, not by the round, so
    /// the events about them leave the round as it is.
    pub open spec fn apply(self, e: EventPayload) -> Option<RoundModel> {
        match e {
            EventPayload::PlayerPlacedBet { player, amount } => match seat_of(self.players, player) {
                None => Some(self),
                Some(i) => {
                    let p = self.players[i];
                    if amount > p.balance {
                        None
                    } else {
                        Some(self.with_player(i, PlayerModel { balance: (p.balance - amount) as u32, bet: Some(amount), ..p }))
                    }
                },
            },
            EventPayload::PlayerDoubledDown { player, amount } => match seat_of(self.players, player) {
                None => Some(self),
                Some(i) => {
                    let p = self.players[i];
                    let staked: u32 = match p.bet { Some(b) => b, None => 0 };
                    if amount > p.balance || staked + amount > u32::MAX {
                        None
                    } else {
                        Some(self.with_player(i, PlayerModel {
                            balance: (p.balance - amount) as u32,
                            bet: Some((staked + amount) as u32),
                            ..p
                        }))
                    }
                },
            },
            EventPayload::PlayerCardDealt { player, card } => {
                if self.dealt >= usize::MAX {
                    None
                } else {
                    let m = RoundModel { dealt: self.dealt + 1, ..self };
                    match seat_of(self.players, player) {
                        None => Some(m),
                        Some(i) => Some(m.with_player(i, PlayerModel { cards: self.players[i].cards.push(card), ..self.players[i] })),
                    }
                }
            },
            EventPayload::DealerCardDealt { dealer, card } => {
                if self.dealt >= usize::MAX {
                    None
                } else {
                    Some(RoundModel { dealt: self.dealt + 1, dealer_cards: self.dealer_cards.push(card), ..self })
                }
            },
            EventPayload::DealerHoleCardDealt { dealer } => match self.next_card() {
                None => None,
                Some(card) => Some(RoundModel { dealt: self.dealt + 1, dealer_cards: self.dealer_cards.push(card), ..self }),
            },
            EventPayload::PhaseChanged { from, to } => Some(RoundModel { phase: to, ..self }),
            EventPayload::GameFinished { result } => self.credited(result.players@),
            _ => Some(self),
        }
    }

    /// The round after the events in order; `None` where one of them
    /// cannot be applied.
    pub open spec fn apply_all(self, events: Seq<EventPayload>) -> Option<RoundModel>
        decreases events.len(),
    {
        if events.len() == 0 {
            Some(self)
        } else {
            match self.apply(events[0]) {
                None => None,
                Some(m) => m.apply_all(events.drop_first()),
            }
        }
    }
}

pub proof fn lemma_credited_prefix(m: RoundModel, results: Seq<PlayerResult>, i: int)
    requires
        0 <= i <= results.len(),
        m.credited(results) is Some,
    ensures
        m.credited(results.take(i)) is Some,
    decreases results.len(),
{
    if i < results.len() {
        assert(results.drop_last().take(i) =~= results.take(i));
        lemma_credited_prefix(m, results.drop_last(), i);
    } else {
        assert(results.take(i) =~= results);
    }
}

impl GameState {
    /// Every round in memory fits.
    pub proof fn lemma_fits(&self)
        ensures
            self@.fits(),
    {
        assert(self.shoe@.len() == self.shoe.len());
    }

    /// A round in the betting phase with the given shoe, players (each with
    /// the given balance) and dealer; nothing dealt yet.
    pub fn new_with_balance(
        game_id: GameId,
        shoe: Vec<Card>,
        players: Vec<(PlayerId, u32)>,
        dealer: DealerId,
    ) -> (s: GameState)
        ensures
            s@.game_id == game_id,
            s@.shoe == shoe@,
            s@.dealt == 0,
            s@.players.len() == players.len(),
            forall|i: int| 0 <= i < players.len() ==> (#[trigger] s@.players[i]) == (PlayerModel {
                id: players@[i].0,
                balance: players@[i].1,
                bet: None,
                cards: Seq::empty(),
            }),
            s@.dealer == dealer,
            s@.dealer_cards == Seq::<Card>::empty(),
            s@.phase == Phase::WaitingForBets,
    {
        let mut seated: Vec<PlayerState> = Vec::new();
        let mut i: usize = 0;
        while i < players.len()
            invariant
                i <= players.len(),
                seated.len() == i,
                forall|j: int| 0 <= j < i ==> (#[trigger] seated@[j])@ == (PlayerModel {
                    id: players@[j].0,
                    balance: players@[j].1,
                    bet: None,
                    cards: Seq::empty(),
                }),
            decreases players.len() - i,
        {
            let (id, balance) = players[i];
            seated.push(PlayerState { id, balance, bet: None, hand: Hand::new() });
            i = i + 1;
        }
        GameState {
            game_id,
            shoe,
            dealt: 0,
            players: seated,
            dealer: DealerState { id: dealer, hand: Hand::new() },
            phase: Phase::WaitingForBets,
        }
    }

    /// A round in the betting phase whose players start with no chips.
    pub fn new(game_id: GameId, shoe: Vec<Card>, players: Vec<PlayerId>, dealer: DealerId) -> (s: GameState)
        ensures
            s@.game_id == game_id,
            s@.shoe == shoe@,
            s@.dealt == 0,
            s@.players.len() == players.len(),
            forall|i: int| 0 <= i < players.len() ==> (#[trigger] s@.players[i]) == (PlayerModel {
                id: players@[i],
                balance: 0,
                bet: None,
                cards: Seq::empty(),
            }),
            s@.dealer == dealer,
            s@.dealer_cards == Seq::<Card>::empty(),
            s@.phase == Phase::WaitingForBets,
    {
        let mut with_balance: Vec<(PlayerId, u32)> = Vec::new();
        let mut i: usize = 0;
        while i < players.len()
            invariant
                i <= players.len(),
                with_balance.len() == i,
                forall|j: int| 0 <= j < i ==> (#[trigger] with_balance@[j]) == (players@[j], 0u32),
            decreases players.len() - i,
        {
            with_balance.push((players[i], 0));
            i = i + 1;
        }
        Self::new_with_balance(game_id, shoe, with_balance, dealer)
    }

    /// The first seat of the player `id`.
    pub fn seat_index(&self, id: PlayerId) -> (r: Option<usize>)
        ensures
            match seat_of(self@.players, id) {
                None => r is None,
                Some(i) => r == Some(i as usize),
            },
    {
        let ghost ps = self@.players;
        let mut i: usize = 0;
        while i < self.players.len()
            invariant
                i <= self.players.len(),
                ps == self@.players,
                forall|j: int| 0 <= j < i ==> (#[trigger] ps[j]).id != id,
            decreases self.players.len() - i,
        {
            if self.players[i].id == id {
                assert(is_first_seat(ps, id, i as int));
                proof {
                    let c = choose|k: int| #[trigger] is_first_seat(ps, id, k);
                    lemma_first_seat_unique(ps, id, c, i as int);
                }
                return Some(i);
            }
            i = i + 1;
        }
        assert(!exists|k: int| #[trigger] is_first_seat(ps, id, k)) by {
            if exists|k: int| #[trigger] is_first_seat(ps, id, k) {
                let k = choose|k: int| #[trigger] is_first_seat(ps, id, k);
                assert(ps[k].id != id);
            }
        }
        None
    }

    /// The player seated as `id`.
    pub fn player(&self, id: PlayerId) -> (r: Option<&PlayerState>)
        ensures
            match seat_of(self@.players, id) {
                None => r is None,
                Some(i) => r matches Some(p) && p@ == self@.players[i],
            },
    {
        proof { lemma_seat_of(self@.players, id); }
        match self.seat_index(id) {
            Some(i) => {
                assert(self@.players.len() == self.players.len());
                Some(&self.players[i])
            },
            None => None,
        }
    }

    /// The next card of the shoe, if any is left.
    pub fn next_card(&self) -> (c: Option<Card>)
        ensures
            c == self@.next_card(),
    {
        if self.dealt < self.shoe.len() {
            Some(self.shoe[self.dealt])
        } else {
            None
        }
    }

    /// Whose turn follows the player `id`.
    pub fn next_player_after(&self, id: PlayerId) -> (p: Phase)
        ensures
            p == turn_after(self@.players, id),
    {
        let ghost ps = self@.players;
        proof { lemma_seat_of(ps, id); }
        match self.seat_index(id) {
            None => Phase::DealerTurn,
            Some(k) => {
                assert(ps.len() == self.players.len());
                let mut j: usize = k + 1;
                while j < self.players.len()
                    invariant
                        k < j <= self.players.len(),
                        ps == self@.players,
                        seat_of(ps, id) == Some(k as int),
                        forall|m: int| k < m < j ==> (#[trigger] ps[m]).bet is None,
                    decreases self.players.len() - j,
                {
                    if self.players[j].bet.is_some() {
                        assert(is_next_bettor(ps, k as int, j as int));
                        proof {
                            let c = choose|m: int| #[trigger] is_next_bettor(ps, k as int, m);
                            lemma_next_bettor_unique(ps, k as int, c, j as int);
                        }
                        return Phase::PlayerTurn(self.players[j].id);
                    }
                    j = j + 1;
                }
                assert(!exists|m: int| #[trigger] is_next_bettor(ps, k as int, m)) by {
                    if exists|m: int| #[trigger] is_next_bettor(ps, k as int, m) {
                        let m = choose|m: int| #[trigger] is_next_bettor(ps, k as int, m);
                        assert(ps[m].bet is None);
                    }
                }
                Phase::DealerTurn
            },
        }
    }

    /// Credits the settlements of a finished round.
    /// Applies an event to the round.
    pub fn apply_event(&mut self, e: &EventPayload)
        requires
            old(self)@.apply(*e) is Some,
        ensures
            final(self)@ == old(self)@.apply(*e)->Some_0,
    {
        let ghost before = self@;
        assert(before.players.len() == self.players.len());
        match e {
            EventPayload::PlayerPlacedBet { player, amount } => {
                proof { lemma_seat_of(before.players, *player); }
                match self.seat_index(*player) {
                    None => {},
                    Some(i) => {
                        assert(before.players[i as int] == self.players@[i as int]@);
                        let b = self.players[i].balance;
                        self.players[i].balance = b - *amount;
                        self.players[i].bet = Some(*amount);
                        assert(self@.players =~= before.players.update(i as int, PlayerModel {
                            balance: (b - *amount) as u32,
                            bet: Some(*amount),
                            ..before.players[i as int]
                        }));
                    },
                }
            },
            EventPayload::PlayerDoubledDown { player, amount } => {
                proof { lemma_seat_of(before.players, *player); }
                match self.seat_index(*player) {
                    None => {},
                    Some(i) => {
                        assert(before.players[i as int] == self.players@[i as int]@);
                        let b = self.players[i].balance;
                        let staked: u32 = match self.players[i].bet {
                            Some(x) => x,
                            None => 0,
                        };
                        self.players[i].balance = b - *amount;
                        self.players[i].bet = Some(staked + *amount);
                        assert(self@.players =~= before.players.update(i as int, PlayerModel {
                            balance: (b - *amount) as u32,
                            bet: Some((staked + *amount) as u32),
                            ..before.players[i as int]
                        }));
                    },
                }
            },
            EventPayload::PlayerCardDealt { player, card } => {
                proof { lemma_seat_of(before.players, *player); }
                let found = self.seat_index(*player);
                self.dealt = self.dealt + 1;
                match found {
                    None => {
                        assert(self@.players =~= before.players);
                    },
                    Some(i) => {
                        assert(before.players[i as int] == self.players@[i as int]@);
                        self.players[i].hand.add_card(*card);
                        assert(self@.players =~= before.players.update(i as int, PlayerModel {
                            cards: before.players[i as int].cards.push(*card),
                            ..before.players[i as int]
                        }));
                    },
                }
            },
            EventPayload::DealerCardDealt { dealer, card } => {
                self.dealt = self.dealt + 1;
                self.dealer.hand.add_card(*card);
                assert(self@.players =~= before.players);
            },
            EventPayload::DealerHoleCardDealt { dealer } => {
                assert(self.dealt < self.shoe.len());
                let card = self.shoe[self.dealt];
                self.dealt = self.dealt + 1;
                self.dealer.hand.add_card(card);
                assert(self@.players =~= before.players);
            },
            EventPayload::PhaseChanged { from, to } => {
                self.phase = *to;
                assert(self@.players =~= before.players);
            },
            EventPayload::GameFinished { result } => {
                self.credit_results(result);
            },
            _ => {},
        }
    }

    fn credit_results(&mut self, result: &GameResult)
        requires
            old(self)@.credited(result.players@) is Some,
        ensures
            final(self)@ == old(self)@.credited(result.players@)->Some_0,
    {
        let ghost start = self@;
        let mut i: usize = 0;
        while i < result.players.len()
            invariant
                i <= result.players.len(),
                start.credited(result.players@) is Some,
                start.credited(result.players@.take(i as int)) == Some(self@),
            decreases result.players.len() - i,
        {
            let r = result.players[i];
            proof {
                lemma_credited_prefix(start, result.players@, i as int + 1);
                let pre = result.players@.take(i as int + 1);
                assert(pre.drop_last() =~= result.players@.take(i as int));
                assert(pre.last() == r);
            }
            self.credit_one(r);
            i = i + 1;
        }
        assert(result.players@.take(i as int) =~= result.players@);
    }

    fn credit_one(&mut self, r: PlayerResult)
        requires
            old(self)@.credit_one(r) is Some,
        ensures
            final(self)@ == old(self)@.credit_one(r)->Some_0,
    {
        let ghost before = self@;
        proof { lemma_seat_of(before.players, r.player); }
        let found = self.seat_index(r.player);
        assert(before.players.len() == self.players.len());
        match found {
            None => {},
            Some(k) => {
                assert(before.players[k as int] == self.players@[k as int]@);
                let b = self.players[k].balance;
                self.players[k].balance = (b as u64 + r.payout) as u32;
                assert(self@.players =~= before.players.update(k as int, PlayerModel { balance: (b + r.payout) as u32, ..before.players[k as int] }));
            },
        }
    }
}

} // verus!
