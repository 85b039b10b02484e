//! The commands of a round: what each asks, when it is refused, and the
//! events it produces when it is accepted. A command never changes the
//! state itself; the events do, through `GameState::apply_event`.

use crate::cards::{best_total, hard_total, is_bust_cards, is_natural, Card, HandValue};
use crate::error::CommandError;
use crate::event::{EventPayload, GameResult, Outcome, PlayerResult};
use crate::ids::{CommandId, GameId, PlayerId};
use crate::phase::{Phase, PlayerDecision};
use crate::state::{lemma_seat_of, seat_of, turn_after, GameState, PlayerModel, RoundModel, TableSettings};
use vstd::prelude::*;

verus! {

/// The command's result is the one the rules give: the same error, or
/// events equal to the rules' sequence.
pub open spec fn same_outcome(
    r: Result<Vec<EventPayload>, CommandError>,
    rules: Result<Seq<EventPayload>, CommandError>,
) -> bool {
    match r {
        Ok(v) => rules == Ok::<Seq<EventPayload>, CommandError>(v@),
        Err(e) => rules == Err::<Seq<EventPayload>, CommandError>(e),
    }
}

/// The event that hands the turn from `player` to whoever follows.
pub open spec fn turn_passes(s: RoundModel, player: PlayerId) -> EventPayload {
    EventPayload::PhaseChanged { from: Phase::PlayerTurn(player), to: turn_after(s.players, player) }
}

/// Hit: one more card. A bust ends the turn; reaching 21 stands on its own.
pub open spec fn hit_events(s: RoundModel, player: PlayerId) -> Result<Seq<EventPayload>, CommandError> {
    if s.phase != Phase::PlayerTurn(player) {
        Err(CommandError::NotPlayersTurn)
    } else {
        match s.next_card() {
            None => Err(CommandError::ShoeEmpty),
            Some(card) => match seat_of(s.players, player) {
                None => Err(CommandError::PlayerNotFound(player)),
                Some(i) => {
                    let cards = s.players[i].cards.push(card);
                    let dealt = seq![EventPayload::PlayerCardDealt { player, card }];
                    if is_bust_cards(cards) {
                        Ok(dealt + seq![EventPayload::PlayerBust { player }, turn_passes(s, player)])
                    } else if best_total(cards) == 21 {
                        Ok(dealt + seq![
                            EventPayload::PlayerDecisionTaken { player, action: PlayerDecision::Stand },
                            turn_passes(s, player),
                        ])
                    } else {
                        Ok(dealt)
                    }
                },
            },
        }
    }
}

/// Stand: the player keeps their hand and the turn passes on.
pub open spec fn stand_events(s: RoundModel, player: PlayerId) -> Result<Seq<EventPayload>, CommandError> {
    if s.phase != Phase::PlayerTurn(player) {
        Err(CommandError::NotPlayersTurn)
    } else {
        match seat_of(s.players, player) {
            None => Err(CommandError::PlayerNotFound(player)),
            Some(i) => Ok(seq![
                EventPayload::PlayerDecisionTaken { player, action: PlayerDecision::Stand },
                turn_passes(s, player),
            ]),
        }
    }
}

/// Double down: on the first two cards only, the stake is matched from the
/// balance, exactly one card is dealt and the turn passes on.
pub open spec fn double_down_events(s: RoundModel, player: PlayerId) -> Result<Seq<EventPayload>, CommandError> {
    if s.phase != Phase::PlayerTurn(player) {
        Err(CommandError::NotPlayersTurn)
    } else {
        match seat_of(s.players, player) {
            None => Err(CommandError::PlayerNotFound(player)),
            Some(i) => {
                let p = s.players[i];
                if p.cards.len() != 2 {
                    Err(CommandError::CannotDoubleDown)
                } else {
                    match p.bet {
                        None => Err(CommandError::CannotDoubleDown),
                        Some(bet) => if p.balance < bet {
                            Err(CommandError::InsufficientBalance { balance: p.balance, amount: bet })
                        } else {
                            match s.next_card() {
                                None => Err(CommandError::ShoeEmpty),
                                Some(card) => {
                                    let opening = seq![
                                        EventPayload::PlayerDoubledDown { player, amount: bet },
                                        EventPayload::PlayerCardDealt { player, card },
                                        EventPayload::PlayerDecisionTaken { player, action: PlayerDecision::Double },
                                    ];
                                    let bust = if is_bust_cards(p.cards.push(card)) {
                                        seq![EventPayload::PlayerBust { player }]
                                    } else {
                                        Seq::empty()
                                    };
                                    Ok(opening + bust + seq![turn_passes(s, player)])
                                },
                            }
                        },
                    }
                }
            },
        }
    }
}

/// Place a bet: only while bets are open, once per round, within the
/// table's limits and the player's balance.
pub open spec fn place_bet_events(
    s: RoundModel,
    settings: TableSettings,
    player: PlayerId,
    amount: u32,
) -> Result<Seq<EventPayload>, CommandError> {
    if s.phase != Phase::WaitingForBets {
        Err(CommandError::WrongPhase { actual: s.phase })
    } else {
        match seat_of(s.players, player) {
            None => Err(CommandError::PlayerNotFound(player)),
            Some(i) => {
                let p = s.players[i];
                if p.bet is Some {
                    Err(CommandError::AlreadyPlacedBet)
                } else if amount < settings.min_bet {
                    Err(CommandError::BetBelowMinimum { min: settings.min_bet, amount })
                } else if amount > settings.max_bet {
                    Err(CommandError::BetAboveMaximum { max: settings.max_bet, amount })
                } else if amount > p.balance {
                    Err(CommandError::InsufficientBalance { balance: p.balance, amount })
                } else {
                    Ok(seq![EventPayload::PlayerPlacedBet { player, amount }])
                }
            },
        }
    }
}

#[derive(Clone, Copy, Debug)]
pub struct Hit {
    pub player_id: PlayerId,
}

#[derive(Clone, Copy, Debug)]
pub struct Stand {
    pub player_id: PlayerId,
}

#[derive(Clone, Copy, Debug)]
pub struct DoubleDown {
    pub player_id: PlayerId,
}

#[derive(Clone, Copy, Debug)]
pub struct PlaceBet {
    pub player_id: PlayerId,
    pub amount: u32,
}

impl Hit {
    pub fn handle(&self, state: &GameState, _settings: &TableSettings) -> (r: Result<Vec<EventPayload>, CommandError>)
        ensures
            same_outcome(r, hit_events(state@, self.player_id)),
    {
        let pid = self.player_id;
        match &state.phase {
            Phase::PlayerTurn(id) if *id == pid => {},
            _ => return Err(CommandError::NotPlayersTurn),
        }
        let card = match state.next_card() {
            Some(c) => c,
            None => return Err(CommandError::ShoeEmpty),
        };
        let player = match state.player(pid) {
            Some(p) => p,
            None => return Err(CommandError::PlayerNotFound(pid)),
        };
        let ghost cards = player.hand.cards@.push(card);
        let mut events = vec![EventPayload::PlayerCardDealt { player: pid, card }];
        let value = player.hand.value().with_card(card);
        assert(value.counts(cards));
        if value.is_bust() {
            events.push(EventPayload::PlayerBust { player: pid });
            events.push(EventPayload::PhaseChanged { from: Phase::PlayerTurn(pid), to: state.next_player_after(pid) });
        } else if value.best_value() == 21 {
            events.push(EventPayload::PlayerDecisionTaken { player: pid, action: PlayerDecision::Stand });
            events.push(EventPayload::PhaseChanged { from: Phase::PlayerTurn(pid), to: state.next_player_after(pid) });
        }
        proof {
            let rules = hit_events(state@, pid)->Ok_0;
            assert(events@ =~= rules);
        }
        Ok(events)
    }
}

impl Stand {
    pub fn handle(&self, state: &GameState, _settings: &TableSettings) -> (r: Result<Vec<EventPayload>, CommandError>)
        ensures
            same_outcome(r, stand_events(state@, self.player_id)),
    {
        let pid = self.player_id;
        match &state.phase {
            Phase::PlayerTurn(id) if *id == pid => {},
            _ => return Err(CommandError::NotPlayersTurn),
        }
        if state.player(pid).is_none() {
            return Err(CommandError::PlayerNotFound(pid));
        }
        let events = vec![
            EventPayload::PlayerDecisionTaken { player: pid, action: PlayerDecision::Stand },
            EventPayload::PhaseChanged { from: Phase::PlayerTurn(pid), to: state.next_player_after(pid) },
        ];
        assert(events@ =~= stand_events(state@, pid)->Ok_0);
        Ok(events)
    }
}

impl DoubleDown {
    pub fn handle(&self, state: &GameState, _settings: &TableSettings) -> (r: Result<Vec<EventPayload>, CommandError>)
        ensures
            same_outcome(r, double_down_events(state@, self.player_id)),
    {
        let pid = self.player_id;
        match &state.phase {
            Phase::PlayerTurn(id) if *id == pid => {},
            _ => return Err(CommandError::NotPlayersTurn),
        }
        let player = match state.player(pid) {
            Some(p) => p,
            None => return Err(CommandError::PlayerNotFound(pid)),
        };
        // Double down is only allowed on the initial two-card hand.
        if player.hand.cards.len() != 2 {
            return Err(CommandError::CannotDoubleDown);
        }
        let bet = match player.bet {
            Some(b) => b,
            None => return Err(CommandError::CannotDoubleDown),
        };
        if player.balance < bet {
            return Err(CommandError::InsufficientBalance { balance: player.balance, amount: bet });
        }
        let card = match state.next_card() {
            Some(c) => c,
            None => return Err(CommandError::ShoeEmpty),
        };
        let mut events = vec![
            EventPayload::PlayerDoubledDown { player: pid, amount: bet },
            EventPayload::PlayerCardDealt { player: pid, card },
            EventPayload::PlayerDecisionTaken { player: pid, action: PlayerDecision::Double },
        ];
        let value = player.hand.value().with_card(card);
        assert(value.counts(player.hand.cards@.push(card)));
        if value.is_bust() {
            events.push(EventPayload::PlayerBust { player: pid });
        }
        events.push(EventPayload::PhaseChanged { from: Phase::PlayerTurn(pid), to: state.next_player_after(pid) });
        assert(events@ =~= double_down_events(state@, pid)->Ok_0);
        Ok(events)
    }
}

impl PlaceBet {
    pub fn handle(&self, state: &GameState, settings: &TableSettings) -> (r: Result<Vec<EventPayload>, CommandError>)
        ensures
            same_outcome(r, place_bet_events(state@, *settings, self.player_id, self.amount)),
    {
        let pid = self.player_id;
        if !matches!(state.phase, Phase::WaitingForBets) {
            return Err(CommandError::WrongPhase { actual: state.phase });
        }
        let player = match state.player(pid) {
            Some(p) => p,
            None => return Err(CommandError::PlayerNotFound(pid)),
        };
        if player.bet.is_some() {
            return Err(CommandError::AlreadyPlacedBet);
        }
        if self.amount < settings.min_bet {
            return Err(CommandError::BetBelowMinimum { min: settings.min_bet, amount: self.amount });
        }
        if self.amount > settings.max_bet {
            return Err(CommandError::BetAboveMaximum { max: settings.max_bet, amount: self.amount });
        }
        if self.amount > player.balance {
            return Err(CommandError::InsufficientBalance { balance: player.balance, amount: self.amount });
        }
        let events = vec![EventPayload::PlayerPlacedBet { player: pid, amount: self.amount }];
        assert(events@ =~= place_bet_events(state@, *settings, pid, self.amount)->Ok_0);
        Ok(events)
    }
}

} // verus!

verus! {

/// How a player's hand ends against the dealer's: a bust loses; a natural
/// beats anything but a dealer's natural; a dealer's bust loses to every
/// standing hand; a dealer's natural beats any other hand; otherwise the
/// higher value wins and equal values push.
pub open spec fn outcome_of(player: Seq<Card>, dealer: Seq<Card>) -> Outcome {
    if is_bust_cards(player) {
        Outcome::Lose
    } else if is_natural(player) && !is_natural(dealer) {
        Outcome::Blackjack
    } else if is_bust_cards(dealer) {
        Outcome::Win
    } else if is_natural(dealer) && !is_natural(player) {
        Outcome::Lose
    } else if best_total(player) > best_total(dealer) {
        Outcome::Win
    } else if best_total(player) == best_total(dealer) {
        Outcome::Push
    } else {
        Outcome::Lose
    }
}

/// What is paid back on a stake, stake included: a win pays even money, a
/// natural three to two (rounded down), a push returns the stake.
pub open spec fn payout_of(outcome: Outcome, bet: u32) -> u64 {
    (match outcome {
        Outcome::Win => 2 * bet,
        Outcome::Push => bet as int,
        Outcome::Blackjack => bet + (3 * bet) / 2,
        Outcome::Lose => 0,
    }) as u64
}

/// The settlements of every player with a stake, in seat order.
pub open spec fn settlements(players: Seq<PlayerModel>, dealer: Seq<Card>) -> Seq<PlayerResult>
    decreases players.len(),
{
    if players.len() == 0 {
        Seq::empty()
    } else {
        let rest = settlements(players.drop_last(), dealer);
        let p = players.last();
        match p.bet {
            None => rest,
            Some(bet) => {
                let o = outcome_of(p.cards, dealer);
                rest.push(PlayerResult { player: p.id, outcome: o, payout: payout_of(o, bet) })
            },
        }
    }
}

/// The dealer's best value as reported, saturated at `u32::MAX`.
pub open spec fn dealer_value(dealer: Seq<Card>) -> u32 {
    if hard_total(dealer) <= u32::MAX {
        best_total(dealer) as u32
    } else {
        u32::MAX
    }
}

/// The result settling the round `s` reports.
pub open spec fn settles(r: Result<Vec<EventPayload>, CommandError>, s: RoundModel) -> bool {
    match r {
        Err(e) => s.phase != Phase::Payouts && e == CommandError::WrongPhase { actual: s.phase },
        Ok(v) => {
            &&& s.phase == Phase::Payouts
            &&& v@.len() == 2
            &&& v@[0] matches EventPayload::GameFinished { result }
            &&& result.players@ == settlements(s.players, s.dealer_cards)
            &&& result.dealer_value == dealer_value(s.dealer_cards)
            &&& v@[1] == (EventPayload::PhaseChanged { from: Phase::Payouts, to: Phase::Finished })
        },
    }
}

fn is_natural_value(len: usize, v: HandValue) -> (b: bool)
    ensures
        forall|cards: Seq<Card>| v.counts(cards) && cards.len() == len ==> (b <==> is_natural(cards)),
{
    let b = if len == 2 && !v.is_bust() {
        v.best_value() == 21
    } else {
        false
    };
    assert forall|cards: Seq<Card>| v.counts(cards) && cards.len() == len implies (b <==> is_natural(cards)) by {
        if !is_bust_cards(cards) {
            assert(hard_total(cards) <= u32::MAX);
        }
    }
    b
}

fn outcome_for(p: HandValue, p_len: usize, d: HandValue, d_len: usize) -> (o: Outcome)
    ensures
        forall|pc: Seq<Card>, dc: Seq<Card>|
            p.counts(pc) && pc.len() == p_len && d.counts(dc) && dc.len() == d_len ==> o == outcome_of(pc, dc),
{
    let pn = is_natural_value(p_len, p);
    let dn = is_natural_value(d_len, d);
    if p.is_bust() {
        Outcome::Lose
    } else if pn && !dn {
        Outcome::Blackjack
    } else if d.is_bust() {
        Outcome::Win
    } else if dn && !pn {
        Outcome::Lose
    } else if p.best_value() > d.best_value() {
        Outcome::Win
    } else if p.best_value() == d.best_value() {
        Outcome::Push
    } else {
        Outcome::Lose
    }
}

fn payout_for(o: Outcome, bet: u32) -> (p: u64)
    ensures
        p == payout_of(o, bet),
{
    let b = bet as u64;
    match o {
        Outcome::Win => 2 * b,
        Outcome::Push => b,
        Outcome::Blackjack => b + (3 * b) / 2,
        Outcome::Lose => 0,
    }
}

/// Settle the round: every player with a stake is paid against the dealer.
#[derive(Clone, Copy, Debug)]
pub struct SettleRound;

impl SettleRound {
    pub fn handle(&self, state: &GameState, _settings: &TableSettings) -> (r: Result<Vec<EventPayload>, CommandError>)
        ensures
            settles(r, state@),
    {
        if !matches!(state.phase, Phase::Payouts) {
            return Err(CommandError::WrongPhase { actual: state.phase });
        }
        let ghost ps = state@.players;
        let ghost dc = state@.dealer_cards;
        let dv = state.dealer.hand.value();
        let d_len = state.dealer.hand.cards.len();
        let mut results: Vec<PlayerResult> = Vec::new();
        let mut i: usize = 0;
        assert(ps.len() == state.players.len());
        while i < state.players.len()
            invariant
                i <= state.players.len(),
                ps == state@.players,
                ps.len() == state.players.len(),
                dc == state@.dealer_cards,
                dv.counts(dc),
                d_len == dc.len(),
                results@ == settlements(ps.take(i as int), dc),
            decreases state.players.len() - i,
        {
            let p = &state.players[i];
            assert(ps[i as int] == p@);
            assert(ps.take(i as int + 1).drop_last() =~= ps.take(i as int));
            assert(ps.take(i as int + 1).last() == p@);
            match p.bet {
                None => {},
                Some(bet) => {
                    let o = outcome_for(p.hand.value(), p.hand.cards.len(), dv, d_len);
                    results.push(PlayerResult { player: p.id, outcome: o, payout: payout_for(o, bet) });
                },
            }
            i = i + 1;
        }
        assert(ps.take(i as int) =~= ps);
        let dealer_value = if dv.is_bust() { dv.hard } else { dv.best_value() };
        let events = vec![
            EventPayload::GameFinished { result: GameResult { dealer_value, players: results } },
            EventPayload::PhaseChanged { from: Phase::Payouts, to: Phase::Finished },
        ];
        Ok(events)
    }
}

#[derive(Clone, Copy, Debug)]
pub enum PlayerAction {
    DoubleDown(DoubleDown),
    Hit(Hit),
    PlaceBet(PlaceBet),
    Stand(Stand),
}

/// The events the rules give for a player's action.
pub open spec fn player_action_events(
    a: PlayerAction,
    s: RoundModel,
    settings: TableSettings,
) -> Result<Seq<EventPayload>, CommandError> {
    match a {
        PlayerAction::DoubleDown(c) => double_down_events(s, c.player_id),
        PlayerAction::Hit(c) => hit_events(s, c.player_id),
        PlayerAction::PlaceBet(c) => place_bet_events(s, settings, c.player_id, c.amount),
        PlayerAction::Stand(c) => stand_events(s, c.player_id),
    }
}

impl PlayerAction {
    pub fn handle(&self, state: &GameState, settings: &TableSettings) -> (r: Result<Vec<EventPayload>, CommandError>)
        ensures
            same_outcome(r, player_action_events(*self, state@, *settings)),
    {
        match self {
            PlayerAction::DoubleDown(h) => h.handle(state, settings),
            PlayerAction::Hit(h) => h.handle(state, settings),
            PlayerAction::PlaceBet(h) => h.handle(state, settings),
            PlayerAction::Stand(h) => h.handle(state, settings),
        }
    }
}

#[derive(Clone, Copy, Debug)]
pub struct PlayerCommand {
    pub game_id: GameId,
    pub command_id: CommandId,
    pub action: PlayerAction,
}

impl PlayerCommand {
    pub fn handle(&self, state: &GameState, settings: &TableSettings) -> (r: Result<Vec<EventPayload>, CommandError>)
        ensures
            same_outcome(r, player_action_events(self.action, state@, *settings)),
    {
        self.action.handle(state, settings)
    }
}

#[derive(Clone, Copy, Debug)]
pub enum DealerAction {
    SettleRound(SettleRound),
}

#[derive(Clone, Copy, Debug)]
pub struct DealerCommand {
    pub game_id: GameId,
    pub command_id: CommandId,
    pub action: DealerAction,
}

#[derive(Clone, Copy, Debug)]
pub enum GameCommand {
    Player(PlayerCommand),
    Dealer(DealerCommand),
}

/// What the rules say of a command's result on a round.
pub open spec fn command_result(
    r: Result<Vec<EventPayload>, CommandError>,
    cmd: GameCommand,
    s: RoundModel,
    settings: TableSettings,
) -> bool {
    match cmd {
        GameCommand::Player(c) => same_outcome(r, player_action_events(c.action, s, settings)),
        GameCommand::Dealer(c) => match c.action {
            DealerAction::SettleRound(_) => settles(r, s),
        },
    }
}

/// Routes commands to their handlers.
pub struct GameEngine;

impl GameEngine {
    pub fn handle(state: &GameState, settings: &TableSettings, cmd: &GameCommand) -> (r: Result<Vec<EventPayload>, CommandError>)
        ensures
            command_result(r, *cmd, state@, *settings),
    {
        match cmd {
            GameCommand::Player(c) => c.handle(state, settings),
            GameCommand::Dealer(c) => match &c.action {
                DealerAction::SettleRound(h) => h.handle(state, settings),
            },
        }
    }
}

} // verus!
