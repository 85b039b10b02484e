//! Laws that relate the commands to the events they produce and to the
//! state those events lead to.

use crate::cards::{best_total, hard_total, holds_ace, is_bust_cards, Card};
use crate::commands::{double_down_events, hit_events, place_bet_events, stand_events};
use crate::event::EventPayload;
use crate::ids::PlayerId;
use crate::phase::Phase;
use crate::state::{lemma_seat_of, lemma_seat_of_update, seat_of, turn_after, PlayerModel, RoundModel, TableSettings};
use vstd::prelude::*;

verus! {

/// A one-event sequence applies as the event does.
proof fn lemma_apply_one(s: RoundModel, e: EventPayload)
    ensures
        s.apply_all(seq![e]) == s.apply(e),
{
    assert(seq![e].drop_first() =~= Seq::<EventPayload>::empty());
    match s.apply(e) {
        None => {},
        Some(t) => {
            assert(t.apply_all(Seq::<EventPayload>::empty()) == Some(t));
        },
    }
}

/// Applying `a` then the rest is applying `a + rest`.
proof fn lemma_apply_cons(s: RoundModel, e: EventPayload, rest: Seq<EventPayload>)
    ensures
        s.apply_all(seq![e] + rest) == (match s.apply(e) {
            None => None,
            Some(t) => t.apply_all(rest),
        }),
{
    let all = seq![e] + rest;
    assert(all[0] == e);
    assert(all.drop_first() =~= rest);
}

/// Placing a bet moves exactly the stake from the balance to the bet and
/// changes nothing else: once the accepted bet's events are applied, the
/// player's balance is lower by `amount`, the stake is `amount`, and the
/// balance plus the stake equal the balance before.
pub proof fn law_place_bet_moves_stake(s: RoundModel, settings: TableSettings, player: PlayerId, amount: u32)
    requires
        place_bet_events(s, settings, player, amount) is Ok,
    ensures
        ({
            let i = seat_of(s.players, player)->Some_0;
            let p = s.players[i];
            let t = s.apply_all(place_bet_events(s, settings, player, amount)->Ok_0);
            &&& t is Some
            &&& t->Some_0 == s.with_player(i, PlayerModel { balance: (p.balance - amount) as u32, bet: Some(amount), ..p })
            &&& t->Some_0.players[i].balance + amount == p.balance
        }),
{
    lemma_seat_of(s.players, player);
    lemma_apply_one(s, EventPayload::PlayerPlacedBet { player, amount });
}

} // verus!

verus! {

/// Doubling down matches the stake from the balance, deals exactly the next
/// card of the shoe, and passes the turn on: once the accepted command's
/// events are applied, the stake is twice what it was, the balance is lower
/// by the original stake, the hand holds one more card (the shoe's next),
/// one more card is dealt, and the turn is whoever follows the player.
/// (A stake over half of `u32::MAX` cannot be doubled in a `u32`.)
pub proof fn law_double_down_doubles_stake(s: RoundModel, player: PlayerId)
    requires
        s.fits(),
        double_down_events(s, player) is Ok,
        seat_of(s.players, player) matches Some(i) && s.players[i].bet matches Some(b) && 2 * b <= u32::MAX,
    ensures
        ({
            let i = seat_of(s.players, player)->Some_0;
            let p = s.players[i];
            let bet = p.bet->Some_0;
            let card = s.next_card()->Some_0;
            let t = s.apply_all(double_down_events(s, player)->Ok_0);
            &&& t is Some
            &&& t->Some_0 == (RoundModel {
                dealt: s.dealt + 1,
                phase: turn_after(s.players, player),
                ..s.with_player(i, PlayerModel {
                    balance: (p.balance - bet) as u32,
                    bet: Some((2 * bet) as u32),
                    cards: p.cards.push(card),
                    ..p
                })
            })
            &&& t->Some_0.players[i].bet->Some_0 == 2 * bet
            &&& t->Some_0.players[i].balance + bet == p.balance
        }),
{
    lemma_seat_of(s.players, player);
    let i = seat_of(s.players, player)->Some_0;
    let p = s.players[i];
    let bet = p.bet->Some_0;
    let card = s.next_card()->Some_0;
    let events = double_down_events(s, player)->Ok_0;
    let e0 = EventPayload::PlayerDoubledDown { player, amount: bet };
    let e1 = EventPayload::PlayerCardDealt { player, card };
    let e2 = EventPayload::PlayerDecisionTaken { player, action: crate::phase::PlayerDecision::Double };
    let e_last = EventPayload::PhaseChanged { from: Phase::PlayerTurn(player), to: turn_after(s.players, player) };
    let p1 = PlayerModel { balance: (p.balance - bet) as u32, bet: Some((2 * bet) as u32), ..p };
    let s1 = s.with_player(i, p1);
    lemma_seat_of_update(s.players, i, p1, player);
    assert(s.apply(e0) == Some(s1));
    let p2 = PlayerModel { cards: p.cards.push(card), ..p1 };
    let s2 = RoundModel { dealt: s.dealt + 1, ..s1 }.with_player(i, p2);
    assert(s1.apply(e1) == Some(s2));
    assert(s2.apply(e2) == Some(s2));
    let s3 = RoundModel { phase: turn_after(s.players, player), ..s2 };
    assert(s2.apply(e_last) == Some(s3));
    let tail = seq![e_last];
    lemma_apply_one(s2, e_last);
    if is_bust_cards(p.cards.push(card)) {
        let eb = EventPayload::PlayerBust { player };
        assert(s2.apply(eb) == Some(s2));
        lemma_apply_cons(s2, eb, tail);
        lemma_apply_cons(s2, e2, seq![eb] + tail);
        lemma_apply_cons(s1, e1, seq![e2] + (seq![eb] + tail));
        lemma_apply_cons(s, e0, seq![e1] + (seq![e2] + (seq![eb] + tail)));
        assert(events =~= seq![e0] + (seq![e1] + (seq![e2] + (seq![eb] + tail))));
    } else {
        lemma_apply_cons(s2, e2, tail);
        lemma_apply_cons(s1, e1, seq![e2] + tail);
        lemma_apply_cons(s, e0, seq![e1] + (seq![e2] + tail));
        assert(events =~= seq![e0] + (seq![e1] + (seq![e2] + tail)));
    }
    assert(s3 =~= RoundModel {
        dealt: s.dealt + 1,
        phase: turn_after(s.players, player),
        ..s.with_player(i, PlayerModel { balance: (p.balance - bet) as u32, bet: Some((2 * bet) as u32), cards: p.cards.push(card), ..p })
    });
}

} // verus!

verus! {

/// Hitting deals exactly the next card of the shoe to the player, and the
/// turn ends exactly when the new hand is bust or worth 21: once the
/// accepted command's events are applied, the hand holds one more card,
/// one more card is dealt, the stake and balance are unchanged, and the
/// phase is whoever follows the player if the hand is bust or 21, and
/// still the player's turn otherwise.
pub proof fn law_hit_deals_one_card(s: RoundModel, player: PlayerId)
    requires
        s.fits(),
        hit_events(s, player) is Ok,
    ensures
        ({
            let i = seat_of(s.players, player)->Some_0;
            let p = s.players[i];
            let card = s.next_card()->Some_0;
            let cards = p.cards.push(card);
            let ends = is_bust_cards(cards) || best_total(cards) == 21;
            let t = s.apply_all(hit_events(s, player)->Ok_0);
            &&& t is Some
            &&& t->Some_0 == (RoundModel {
                dealt: s.dealt + 1,
                phase: if ends { turn_after(s.players, player) } else { Phase::PlayerTurn(player) },
                ..s.with_player(i, PlayerModel { cards, ..p })
            })
        }),
{
    lemma_seat_of(s.players, player);
    let i = seat_of(s.players, player)->Some_0;
    let p = s.players[i];
    let card = s.next_card()->Some_0;
    let cards = p.cards.push(card);
    let events = hit_events(s, player)->Ok_0;
    let e0 = EventPayload::PlayerCardDealt { player, card };
    let e_last = EventPayload::PhaseChanged { from: Phase::PlayerTurn(player), to: turn_after(s.players, player) };
    let s1 = RoundModel { dealt: s.dealt + 1, ..s }.with_player(i, PlayerModel { cards, ..p });
    assert(s.apply(e0) == Some(s1));
    let s2 = RoundModel { phase: turn_after(s.players, player), ..s1 };
    assert(s1.apply(e_last) == Some(s2));
    lemma_apply_one(s1, e_last);
    if is_bust_cards(cards) {
        let e1 = EventPayload::PlayerBust { player };
        assert(s1.apply(e1) == Some(s1));
        lemma_apply_cons(s1, e1, seq![e_last]);
        lemma_apply_cons(s, e0, seq![e1] + seq![e_last]);
        assert(events =~= seq![e0] + (seq![e1] + seq![e_last]));
        assert(s2 =~= s.apply_all(events)->Some_0);
    } else if best_total(cards) == 21 {
        let e1 = EventPayload::PlayerDecisionTaken { player, action: crate::phase::PlayerDecision::Stand };
        assert(s1.apply(e1) == Some(s1));
        lemma_apply_cons(s1, e1, seq![e_last]);
        lemma_apply_cons(s, e0, seq![e1] + seq![e_last]);
        assert(events =~= seq![e0] + (seq![e1] + seq![e_last]));
    } else {
        lemma_apply_one(s, e0);
        assert(events =~= seq![e0]);
        assert(s1 =~= RoundModel { dealt: s.dealt + 1, phase: Phase::PlayerTurn(player), ..s.with_player(i, PlayerModel { cards, ..p }) });
    }
}

/// Standing changes nothing but whose turn it is: once the accepted
/// command's events are applied, the round is the same but for the phase,
/// which is whoever follows the player.
pub proof fn law_stand_passes_turn(s: RoundModel, player: PlayerId)
    requires
        stand_events(s, player) is Ok,
    ensures
        s.apply_all(stand_events(s, player)->Ok_0) == Some(RoundModel { phase: turn_after(s.players, player), ..s }),
{
    let e0 = EventPayload::PlayerDecisionTaken { player, action: crate::phase::PlayerDecision::Stand };
    let e1 = EventPayload::PhaseChanged { from: Phase::PlayerTurn(player), to: turn_after(s.players, player) };
    lemma_apply_one(s, e1);
    lemma_apply_cons(s, e0, seq![e1]);
    assert(stand_events(s, player)->Ok_0 =~= seq![e0] + seq![e1]);
}

/// The best value counts at most one ace as eleven: it lies between the
/// hard total and ten more, and a hand that is not bust is never reported
/// over 21.
pub proof fn law_best_value_bounds(cards: Seq<Card>)
    ensures
        hard_total(cards) <= best_total(cards) <= hard_total(cards) + 10,
        !is_bust_cards(cards) ==> best_total(cards) <= 21,
        best_total(cards) > hard_total(cards) ==> holds_ace(cards),
{
}

} // verus!

verus! {

use crate::session::{session_step, table_named, touches_table, ClientMessage, Effect, Reason, Reply, Session, SessionEvent, SessionState};

/// The session's invariant holds from the start and is kept by every step:
/// events are forwarded exactly while the session has a current table, and
/// only an authenticated session has one.
pub proof fn law_session_invariant(s: Session, e: SessionEvent)
    requires
        s.wf(),
    ensures
        Session::new_spec().wf(),
        session_step(s, e).0.wf(),
{
}

/// Nothing reaches a table or a wallet before the client has
/// authenticated: from a session awaiting or checking credentials, no step
/// sends a command, subscribes, fetches a snapshot, forwards events, or
/// touches a wallet.
pub proof fn law_no_table_before_auth(s: Session, e: SessionEvent)
    requires
        s.wf(),
        s.state is AwaitingAuth || s.state is Authenticating,
        !(s.state is Authenticating && e is Authenticated),
    ensures
        forall|i: int| 0 <= i < session_step(s, e).1.len() ==> !touches_table(#[trigger] session_step(s, e).1[i]),
{
}

/// A request that names no table is refused with its request identifier,
/// and nothing else happens.
pub proof fn law_unknown_table_refused(s: Session, player: PlayerId, table_id: String, request_id: u64)
    requires
        s.state == SessionState::Ready(player),
        table_named(table_id@) is None,
    ensures
        session_step(s, SessionEvent::Message(ClientMessage::Hit { table_id, request_id })).1
            == seq![Effect::Send(Reply::CommandError(request_id, Reason::InvalidTableId))],
        session_step(s, SessionEvent::Message(ClientMessage::Hit { table_id, request_id })).0 == s,
        session_step(s, SessionEvent::Message(ClientMessage::JoinTable { table_id, request_id })).1
            == seq![Effect::Send(Reply::CommandError(request_id, Reason::InvalidTableId))],
        session_step(s, SessionEvent::Message(ClientMessage::JoinTable { table_id, request_id })).0 == s,
        session_step(s, SessionEvent::Message(ClientMessage::LeaveTable { table_id, request_id })).1
            == seq![Effect::Send(Reply::CommandError(request_id, Reason::InvalidTableId))],
        session_step(s, SessionEvent::Message(ClientMessage::LeaveTable { table_id, request_id })).0 == s,
{
}

/// A request sent to a table is answered exactly once, under its own
/// request identifier: with an acknowledgement when the table accepts it,
/// with the table's refusal otherwise.
pub proof fn law_request_answered(s: Session, player: PlayerId, request_id: u64, outcome: Result<(), String>)
    requires
        s.state == (SessionState::Commanding { player, request_id }),
    ensures
        session_step(s, SessionEvent::CommandDone(outcome)).1 == seq![Effect::Send(match outcome {
            Ok(()) => Reply::CommandAck(request_id),
            Err(why) => Reply::CommandError(request_id, Reason::Refused(why)),
        })],
        session_step(s, SessionEvent::CommandDone(outcome)).0.state == SessionState::Ready(player),
{
}

/// A session that ends while following a table leaves it: the last effect
/// of a disconnection is leaving the current table, and the session ends
/// with no table.
pub proof fn law_disconnect_leaves_table(s: Session)
    requires
        s.wf(),
        s.current_table is Some,
    ensures
        ({
            let effects = session_step(s, SessionEvent::Disconnected).1;
            &&& effects.len() > 0
            &&& effects.last() == (Effect::SendCommand {
                table: s.current_table->Some_0,
                request_id: 0,
                command: crate::session::TableCommand::LeaveTable,
                report: false,
            })
            &&& session_step(s, SessionEvent::Disconnected).0.current_table is None
            &&& session_step(s, SessionEvent::Disconnected).0.state is Closed
        }),
{
}

} // verus!

verus! {

use crate::client::{betting_step, key_step, lobby_step, raise_overflows, AppModel, ClientEffect, Key, LobbyModel, ScreenModel};

/// The bet being chosen never leaves the table's limits: from a bet between
/// the minimum and the maximum, any key keeps it between them.
pub proof fn law_bet_stays_within_limits(m: AppModel, key: Key)
    requires
        m.betting matches Some(b) && b.min_bet <= b.current_bet <= b.max_bet,
        key == Key::Right ==> m.betting->Some_0.current_bet + m.betting->Some_0.step <= u32::MAX,
    ensures
        betting_step(m, key).0.betting matches Some(b2) && b2.min_bet <= b2.current_bet <= b2.max_bet,
{
}

/// The lobby's selection never leaves the list: from a selected table,
/// any key keeps the selection on a table.
pub proof fn law_selection_stays_in_lobby(m: AppModel, l: LobbyModel, key: Key)
    requires
        m.screen == ScreenModel::Lobby(l),
        l.selected < l.tables.len(),
    ensures
        lobby_step(m, l, key).0.screen matches ScreenModel::Lobby(l2) ==> l2.selected < l2.tables.len(),
        lobby_step(m, l, key).0.screen matches ScreenModel::Lobby(l2) ==> l2.tables == l.tables,
{
}

/// Every request the client sends carries a request identifier it has not
/// handed out just before: the identifier of each request sent is the one
/// that follows the previous last identifier, and the client records it.
pub proof fn law_requests_take_fresh_ids(m: AppModel, key: Key)
    requires
        !raise_overflows(m, key),
    ensures
        forall|i: int| 0 <= i < key_step(m, key).1.len() ==>
            (#[trigger] key_step(m, key).1[i] matches ClientEffect::Send(o) ==> {
                &&& o.request_id == crate::client::following_id(m.last_request_id)
                &&& key_step(m, key).0.last_request_id == o.request_id
            }),
{
}

/// 'q' quits from the lobby and from a table, and sends nothing.
pub proof fn law_q_quits_outside_login(m: AppModel)
    requires
        !(m.screen is Login),
    ensures
        key_step(m, Key::Char('q')).0.should_quit,
        key_step(m, Key::Char('q')).1.len() == 0,
{
}

} // verus!

verus! {

use crate::commands::{outcome_of, payout_of, settlements};
use crate::event::{Outcome, PlayerResult};

/// A player's settlement against the dealer's cards.
pub open spec fn settlement_of(p: PlayerModel, dealer: Seq<Card>) -> PlayerResult {
    let o = outcome_of(p.cards, dealer);
    PlayerResult { player: p.id, outcome: o, payout: payout_of(o, p.bet->Some_0) }
}

/// Settling a round settles exactly the players with a stake, each once, in
/// seat order.
pub proof fn law_settles_every_stake_once(players: Seq<PlayerModel>, dealer: Seq<Card>)
    ensures
        settlements(players, dealer) == players.filter(|p: PlayerModel| p.bet is Some).map_values(
            |p: PlayerModel| settlement_of(p, dealer),
        ),
    decreases players.len(),
{
    reveal(Seq::filter);
    let pred = |p: PlayerModel| p.bet is Some;
    let f = |p: PlayerModel| settlement_of(p, dealer);
    if players.len() > 0 {
        law_settles_every_stake_once(players.drop_last(), dealer);
        let rest = players.drop_last().filter(pred);
        if pred(players.last()) {
            assert(rest.push(players.last()).map_values(f) =~= rest.map_values(f).push(f(players.last())));
        }
    } else {
        assert(players.filter(pred).map_values(f) =~= Seq::<PlayerResult>::empty());
    }
}

/// A bust hand is paid nothing whatever the dealer holds; a win pays back
/// twice the stake, a push the stake, a natural the stake and one and a
/// half times it (rounded down).
pub proof fn law_payouts(cards: Seq<Card>, dealer: Seq<Card>, bet: u32)
    ensures
        is_bust_cards(cards) ==> payout_of(outcome_of(cards, dealer), bet) == 0,
        payout_of(Outcome::Win, bet) == 2 * bet,
        payout_of(Outcome::Push, bet) == bet,
        payout_of(Outcome::Blackjack, bet) == bet + (3 * bet) / 2,
        payout_of(Outcome::Lose, bet) == 0,
{
}

} // verus!

verus! {

use crate::client::{login_step, Betting, LoginModel, LoginStatus};
use crate::commands::{DoubleDown, Hit, PlaceBet, PlayerAction, Stand};
use crate::error::CommandError;
use crate::ids::TableId;
use crate::session::TableCommand;

/// Doubling down needs the balance to cover the stake once more, no more:
/// a player in their turn, seated, with a two-card hand, a stake `b`, a
/// balance of at least `b` and a card left in the shoe is accepted, and the
/// events match `b` from the balance, deal the next card, record the
/// decision and pass the turn. The refusal for the balance comes exactly
/// when the balance is below the stake.
pub proof fn law_double_down_needs_the_stake_once_more(s: RoundModel, player: PlayerId)
    requires
        s.phase == Phase::PlayerTurn(player),
        seat_of(s.players, player) matches Some(i) && s.players[i].cards.len() == 2 && s.players[i].bet is Some,
        s.next_card() is Some,
    ensures
        ({
            let p = s.players[seat_of(s.players, player)->Some_0];
            let b = p.bet->Some_0;
            let card = s.next_card()->Some_0;
            let r = double_down_events(s, player);
            &&& (r is Err <==> p.balance < b)
            &&& (p.balance < b ==> r == Err::<Seq<EventPayload>, CommandError>(
                CommandError::InsufficientBalance { balance: p.balance, amount: b },
            ))
            &&& (p.balance >= b ==> {
                let ev = r->Ok_0;
                &&& ev[0] == (EventPayload::PlayerDoubledDown { player, amount: b })
                &&& ev[1] == (EventPayload::PlayerCardDealt { player, card })
                &&& ev[2] == (EventPayload::PlayerDecisionTaken { player, action: crate::phase::PlayerDecision::Double })
                &&& ev.last() == (EventPayload::PhaseChanged {
                    from: Phase::PlayerTurn(player),
                    to: turn_after(s.players, player),
                })
                &&& (ev.len() == 5 <==> is_bust_cards(p.cards.push(card)))
                &&& (ev.len() == 4 <==> !is_bust_cards(p.cards.push(card)))
            })
        }),
{
}

/// Bets are taken only while the round waits for them: in any other phase a
/// bet is refused with that phase, whatever the amount, the player or the
/// limits.
pub proof fn law_bets_only_while_waiting(s: RoundModel, settings: TableSettings, player: PlayerId, amount: u32)
    ensures
        place_bet_events(s, settings, player, amount) is Ok ==> s.phase == Phase::WaitingForBets,
        s.phase != Phase::WaitingForBets ==> place_bet_events(s, settings, player, amount)
            == Err::<Seq<EventPayload>, CommandError>(CommandError::WrongPhase { actual: s.phase }),
{
}

/// Each player message is sent to the table it names as its own action, on
/// the sender's behalf and under its request identifier: a stand as a
/// stand, a hit as a hit, a double down as a double down, a bet as a bet
/// of the amount asked.
pub proof fn law_player_messages_keep_their_action(
    s: Session,
    player: PlayerId,
    table_id: String,
    request_id: u64,
    amount: u32,
    t: TableId,
)
    requires
        s.state == SessionState::Ready(player),
        table_named(table_id@) == Some(t),
    ensures
        session_step(s, SessionEvent::Message(ClientMessage::Stand { table_id, request_id })).1 == seq![
            Effect::SendCommand { table: t, request_id, command: TableCommand::Play(PlayerAction::Stand(Stand { player_id: player })), report: true },
        ],
        session_step(s, SessionEvent::Message(ClientMessage::Hit { table_id, request_id })).1 == seq![
            Effect::SendCommand { table: t, request_id, command: TableCommand::Play(PlayerAction::Hit(Hit { player_id: player })), report: true },
        ],
        session_step(s, SessionEvent::Message(ClientMessage::DoubleDown { table_id, request_id })).1 == seq![
            Effect::SendCommand { table: t, request_id, command: TableCommand::Play(PlayerAction::DoubleDown(DoubleDown { player_id: player })), report: true },
        ],
        session_step(s, SessionEvent::Message(ClientMessage::PlaceBet { table_id, request_id, amount })).1 == seq![
            Effect::SendCommand {
                table: t,
                request_id,
                command: TableCommand::Play(PlayerAction::PlaceBet(PlaceBet { player_id: player, amount })),
                report: true,
            },
        ],
{
}

/// The arrow keys move the bet by one step, clamped at the limits: left
/// lowers it by the step but not below the minimum, right raises it by the
/// step but not above the maximum; nothing else of the bet or the client
/// changes and nothing is sent.
pub proof fn law_arrows_move_bet_by_one_step(m: AppModel, b: Betting)
    requires
        m.betting == Some(b),
    ensures
        ({
            let (l, sent) = betting_step(m, Key::Left);
            let want = if b.current_bet - b.step >= b.min_bet { b.current_bet - b.step } else { b.min_bet as int };
            &&& l.betting matches Some(nb) && nb.current_bet == want
            &&& l == AppModel { betting: Some(Betting { current_bet: want as u32, ..b }), ..m }
            &&& sent.len() == 0
        }),
        ({
            let (r, sent) = betting_step(m, Key::Right);
            let want = if b.current_bet + b.step <= b.max_bet { b.current_bet + b.step } else { b.max_bet as int };
            &&& r.betting matches Some(nb) && nb.current_bet == want
            &&& r == AppModel { betting: Some(Betting { current_bet: want as u32, ..b }), ..m }
            &&& sent.len() == 0
        }),
{
}

/// Enter on the login screen connects only with both fields filled: with
/// an empty user name or password nothing changes and nothing is sent;
/// with both filled the client connects once, with those credentials.
pub proof fn law_login_needs_both_fields(m: AppModel, l: LoginModel)
    requires
        m.screen == ScreenModel::Login(l),
    ensures
        (l.username.len() == 0 || l.password.len() == 0) ==> key_step(m, Key::Enter) == (m, Seq::<ClientEffect>::empty()),
        (l.username.len() > 0 && l.password.len() > 0) ==> {
            let (n, sent) = key_step(m, Key::Enter);
            &&& sent == seq![ClientEffect::Connect]
            &&& n.username == l.username
            &&& n.password == l.password
            &&& n.screen == ScreenModel::Login(LoginModel { status: LoginStatus::Connecting, ..l })
        },
        key_step(m, Key::Enter).1.contains(ClientEffect::Connect) ==> l.username.len() > 0 && l.password.len() > 0,
{
    if key_step(m, Key::Enter).1.contains(ClientEffect::Connect) {
        if l.username.len() == 0 || l.password.len() == 0 {
            assert(key_step(m, Key::Enter).1 =~= Seq::<ClientEffect>::empty());
        }
    }
}

} // verus!
