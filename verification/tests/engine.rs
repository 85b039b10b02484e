use blackjack::cards::{Card, DeckId, Hand, Rank, Suit};
use blackjack::commands::{
    DealerAction, DealerCommand, DoubleDown, GameCommand, GameEngine, Hit, PlaceBet, PlayerAction, PlayerCommand,
    SettleRound, Stand,
};
use blackjack::error::CommandError;
use blackjack::event::{EventPayload, GameResult, Outcome, PlayerResult};
use blackjack::ids::{CommandId, DealerId, GameId, PlayerId, Seat, TableId};
use blackjack::phase::{Phase, PlayerDecision};
use blackjack::shoe::{Shoe, SHOE_SIZE};
use blackjack::state::{GameState, TableSettings};

fn settings() -> TableSettings {
    TableSettings { min_bet: 10, max_bet: 500, max_players: 5, max_observers: 10 }
}

fn card(rank: Rank) -> Card {
    Card { deck_id: DeckId::One, rank, suit: Suit::Hearts }
}

fn hand(ranks: &[Rank]) -> Hand {
    let mut h = Hand::new();
    for r in ranks {
        h.add_card(card(*r));
    }
    h
}

fn player_cmd(action: PlayerAction) -> GameCommand {
    GameCommand::Player(PlayerCommand { game_id: GameId::new(), command_id: CommandId(1), action })
}

fn settle_cmd() -> GameCommand {
    GameCommand::Dealer(DealerCommand {
        game_id: GameId::new(),
        command_id: CommandId(2),
        action: DealerAction::SettleRound(SettleRound),
    })
}

/// One player in their turn with the given hand and stake; the shoe starts
/// with `next`.
fn turn_state(pid: PlayerId, ranks: &[Rank], next: &[Rank], bet: u32, balance: u32) -> GameState {
    let shoe: Vec<Card> = next.iter().map(|r| card(*r)).collect();
    let mut s = GameState::new_with_balance(GameId::new(), shoe, vec![(pid, balance)], DealerId::new());
    s.players[0].bet = Some(bet);
    s.players[0].hand = hand(ranks);
    s.phase = Phase::PlayerTurn(pid);
    s
}

#[test]
fn hand_values_count_one_ace_as_eleven_when_it_fits() {
    assert_eq!(hand(&[Rank::Ace, Rank::King]).value().best_value(), 21);
    assert_eq!(hand(&[Rank::Ace, Rank::Ace, Rank::Nine]).value().best_value(), 21);
    assert_eq!(hand(&[Rank::Ace, Rank::Six, Rank::King]).value().best_value(), 17);
    assert_eq!(hand(&[Rank::Ace, Rank::Six, Rank::King]).value().hard, 17);
    assert_eq!(hand(&[Rank::Seven, Rank::Eight]).value().best_value(), 15);
    assert!(!hand(&[Rank::King, Rank::Queen, Rank::Ace]).value().is_bust());
    assert!(hand(&[Rank::King, Rank::Queen, Rank::Two]).value().is_bust());
    assert_eq!(hand(&[]).value().best_value(), 0);
}

#[test]
fn with_card_adds_the_card() {
    let v = hand(&[Rank::Five]).value().with_card(card(Rank::Ace));
    assert_eq!(v.hard, 6);
    assert!(v.has_ace);
    assert_eq!(v.best_value(), 16);
}

#[test]
fn table_id_parses_ulid_text() {
    assert_eq!(TableId::parse("00000000000000000000000001"), Some(TableId(1)));
    assert_eq!(TableId::parse("0000000000000000000000000Z"), Some(TableId(31)));
    assert_eq!(TableId::parse("not-a-table"), None);
    assert_eq!(TableId::parse(""), None);
}

#[test]
fn fresh_ids_differ() {
    assert_ne!(PlayerId::new(), PlayerId::new());
    assert_ne!(GameId::new(), GameId::new());
}

#[test]
fn seats_run_from_one_to_seven() {
    assert!(Seat::try_from_number(0).is_none());
    assert_eq!(Seat::try_from_number(1).map(|s| s.number()), Some(1));
    assert_eq!(Seat::try_from_number(7).map(|s| s.number()), Some(7));
    assert!(Seat::try_from_number(8).is_none());
}

fn count(cards: &[Card], c: &Card) -> usize {
    cards.iter().filter(|x| *x == c).count()
}

#[test]
fn ordered_shoe_holds_six_decks() {
    let shoe = Shoe::ordered();
    assert_eq!(shoe.len(), SHOE_SIZE);
    assert_eq!(shoe[0], Card { deck_id: DeckId::One, rank: Rank::Ace, suit: Suit::Clubs });
    assert_eq!(shoe[51], Card { deck_id: DeckId::One, rank: Rank::King, suit: Suit::Spades });
    assert_eq!(shoe[311], Card { deck_id: DeckId::Six, rank: Rank::King, suit: Suit::Spades });
    for c in &shoe {
        assert_eq!(count(&shoe, c), 1);
    }
}

#[test]
fn shuffled_shoe_holds_the_same_cards() {
    let ordered = Shoe::ordered();
    let shuffled = Shoe::shuffled();
    assert_eq!(shuffled.len(), SHOE_SIZE);
    for c in &ordered {
        assert_eq!(count(&shuffled, c), 1);
    }
}

#[test]
fn new_state_has_players_without_chips() {
    let p = PlayerId::new();
    let s = GameState::new(GameId::new(), Shoe::ordered(), vec![p], DealerId::new());
    assert_eq!(s.players.len(), 1);
    assert_eq!(s.players[0].balance, 0);
    assert_eq!(s.players[0].bet, None);
    assert_eq!(s.phase, Phase::WaitingForBets);
    assert_eq!(s.dealt, 0);
    assert_eq!(s.next_card(), Some(Shoe::ordered()[0]));
}

#[test]
fn turn_passes_to_next_bettor_then_dealer() {
    let (a, b, c) = (PlayerId::new(), PlayerId::new(), PlayerId::new());
    let mut s = GameState::new_with_balance(GameId::new(), vec![], vec![(a, 10), (b, 10), (c, 10)], DealerId::new());
    s.players[0].bet = Some(10);
    s.players[2].bet = Some(10);
    // b has no stake, so it is skipped
    assert_eq!(s.next_player_after(a), Phase::PlayerTurn(c));
    assert_eq!(s.next_player_after(c), Phase::DealerTurn);
    assert_eq!(s.next_player_after(PlayerId::new()), Phase::DealerTurn);
    assert!(s.player(b).is_some());
    assert_eq!(s.seat_index(c), Some(2));
}

#[test]
fn stand_passes_the_turn() {
    let pid = PlayerId::new();
    let mut s = turn_state(pid, &[Rank::Ten, Rank::Seven], &[Rank::Two], 50, 500);
    let events = GameEngine::handle(&s, &settings(), &player_cmd(PlayerAction::Stand(Stand { player_id: pid }))).unwrap();
    assert_eq!(events.len(), 2);
    assert!(matches!(events[0], EventPayload::PlayerDecisionTaken { action: PlayerDecision::Stand, player } if player == pid));
    assert!(matches!(events[1], EventPayload::PhaseChanged { from: Phase::PlayerTurn(p), to: Phase::DealerTurn } if p == pid));
    for e in &events {
        s.apply_event(e);
    }
    assert_eq!(s.phase, Phase::DealerTurn);
    assert_eq!(s.players[0].hand.cards.len(), 2);
    assert_eq!(s.players[0].balance, 500);
}

#[test]
fn hit_with_empty_shoe_is_refused() {
    let pid = PlayerId::new();
    let s = turn_state(pid, &[Rank::Two, Rank::Three], &[], 50, 500);
    assert!(matches!(
        GameEngine::handle(&s, &settings(), &player_cmd(PlayerAction::Hit(Hit { player_id: pid }))),
        Err(CommandError::ShoeEmpty)
    ));
    assert!(matches!(
        GameEngine::handle(&s, &settings(), &player_cmd(PlayerAction::DoubleDown(DoubleDown { player_id: pid }))),
        Err(CommandError::ShoeEmpty)
    ));
}

#[test]
fn turn_of_unseated_player_is_refused() {
    let pid = PlayerId::new();
    let ghost = PlayerId::new();
    let mut s = turn_state(pid, &[Rank::Two, Rank::Three], &[Rank::Four], 50, 500);
    s.phase = Phase::PlayerTurn(ghost);
    assert!(matches!(
        GameEngine::handle(&s, &settings(), &player_cmd(PlayerAction::Hit(Hit { player_id: ghost }))),
        Err(CommandError::PlayerNotFound(p)) if p == ghost
    ));
    assert!(matches!(
        GameEngine::handle(&s, &settings(), &player_cmd(PlayerAction::Stand(Stand { player_id: ghost }))),
        Err(CommandError::PlayerNotFound(p)) if p == ghost
    ));
}

#[test]
fn hit_applied_deals_the_next_card() {
    let pid = PlayerId::new();
    let mut s = turn_state(pid, &[Rank::Two, Rank::Three], &[Rank::Four, Rank::King], 50, 500);
    let events = GameEngine::handle(&s, &settings(), &player_cmd(PlayerAction::Hit(Hit { player_id: pid }))).unwrap();
    for e in &events {
        s.apply_event(e);
    }
    assert_eq!(s.dealt, 1);
    assert_eq!(s.players[0].hand.cards.len(), 3);
    assert_eq!(s.players[0].hand.cards[2], card(Rank::Four));
    assert_eq!(s.phase, Phase::PlayerTurn(pid));
    assert_eq!(s.next_card(), Some(card(Rank::King)));
}

#[test]
fn bet_applied_moves_stake_from_balance() {
    let pid = PlayerId::new();
    let mut s = GameState::new_with_balance(GameId::new(), vec![], vec![(pid, 300)], DealerId::new());
    let events = GameEngine::handle(
        &s,
        &settings(),
        &player_cmd(PlayerAction::PlaceBet(PlaceBet { player_id: pid, amount: 120 })),
    )
    .unwrap();
    for e in &events {
        s.apply_event(e);
    }
    assert_eq!(s.players[0].bet, Some(120));
    assert_eq!(s.players[0].balance, 180);
    assert_eq!(s.players[0].balance + s.players[0].bet.unwrap(), 300);
}

#[test]
fn bet_limits_are_inclusive() {
    let pid = PlayerId::new();
    let s = GameState::new_with_balance(GameId::new(), vec![], vec![(pid, 1000)], DealerId::new());
    for amount in [10, 500] {
        let r = GameEngine::handle(&s, &settings(), &player_cmd(PlayerAction::PlaceBet(PlaceBet { player_id: pid, amount })));
        assert!(r.is_ok());
    }
    let poor = GameState::new_with_balance(GameId::new(), vec![], vec![(pid, 100)], DealerId::new());
    let r = GameEngine::handle(&poor, &settings(), &player_cmd(PlayerAction::PlaceBet(PlaceBet { player_id: pid, amount: 100 })));
    assert!(r.is_ok());
}

#[test]
fn double_on_bust_hand_reports_the_bust_before_passing() {
    let pid = PlayerId::new();
    let mut s = turn_state(pid, &[Rank::Nine, Rank::Eight], &[Rank::Seven], 40, 100);
    let events =
        GameEngine::handle(&s, &settings(), &player_cmd(PlayerAction::DoubleDown(DoubleDown { player_id: pid }))).unwrap();
    assert_eq!(events.len(), 5);
    for e in &events {
        s.apply_event(e);
    }
    assert_eq!(s.players[0].bet, Some(80));
    assert_eq!(s.players[0].balance, 60);
    assert_eq!(s.phase, Phase::DealerTurn);
}

fn settle_one(player: &[Rank], dealer: &[Rank], bet: u32) -> (Outcome, u64, u32) {
    let pid = PlayerId::new();
    let mut s = turn_state(pid, player, &[], bet, 1000);
    s.dealer.hand = hand(dealer);
    s.phase = Phase::Payouts;
    let events = GameEngine::handle(&s, &settings(), &settle_cmd()).unwrap();
    assert_eq!(events.len(), 2);
    let (outcome, payout, dealer_value) = match &events[0] {
        EventPayload::GameFinished { result } => {
            assert_eq!(result.players.len(), 1);
            (result.players[0].outcome, result.players[0].payout, result.dealer_value)
        },
        other => panic!("unexpected {:?}", other),
    };
    assert!(matches!(events[1], EventPayload::PhaseChanged { from: Phase::Payouts, to: Phase::Finished }));
    for e in &events {
        s.apply_event(e);
    }
    assert_eq!(s.players[0].balance as u64, 1000 + payout);
    assert_eq!(s.phase, Phase::Finished);
    let _ = dealer_value;
    (outcome, payout, dealer_value)
}

#[test]
fn settlement_outcomes_and_payouts() {
    assert_eq!(settle_one(&[Rank::King, Rank::Nine], &[Rank::King, Rank::Eight], 100), (Outcome::Win, 200, 18));
    assert_eq!(settle_one(&[Rank::King, Rank::Eight], &[Rank::King, Rank::Nine], 100), (Outcome::Lose, 0, 19));
    assert_eq!(settle_one(&[Rank::King, Rank::Eight], &[Rank::Queen, Rank::Eight], 100), (Outcome::Push, 100, 18));
    assert_eq!(settle_one(&[Rank::Ace, Rank::King], &[Rank::Queen, Rank::Nine], 100), (Outcome::Blackjack, 250, 19));
    assert_eq!(settle_one(&[Rank::Ace, Rank::King], &[Rank::Ace, Rank::Queen], 100), (Outcome::Push, 100, 21));
    assert_eq!(
        settle_one(&[Rank::Nine, Rank::Two, Rank::King], &[Rank::Ace, Rank::Queen], 100),
        (Outcome::Lose, 0, 21)
    );
    // a bust loses even against a bust dealer
    assert_eq!(
        settle_one(&[Rank::King, Rank::Queen, Rank::Two], &[Rank::King, Rank::Six, Rank::Nine], 100),
        (Outcome::Lose, 0, 25)
    );
    assert_eq!(
        settle_one(&[Rank::King, Rank::Two], &[Rank::King, Rank::Six, Rank::Nine], 100),
        (Outcome::Win, 200, 25)
    );
    // three to two rounds down
    assert_eq!(settle_one(&[Rank::Ace, Rank::Jack], &[Rank::Nine, Rank::Nine], 15), (Outcome::Blackjack, 37, 18));
}

#[test]
fn settle_skips_players_without_stake_and_needs_payouts_phase() {
    let (a, b) = (PlayerId::new(), PlayerId::new());
    let mut s = GameState::new_with_balance(GameId::new(), vec![], vec![(a, 0), (b, 0)], DealerId::new());
    s.players[1].bet = Some(20);
    s.players[1].hand = hand(&[Rank::Ten, Rank::Ten]);
    s.dealer.hand = hand(&[Rank::Ten, Rank::Seven]);
    assert!(matches!(
        GameEngine::handle(&s, &settings(), &settle_cmd()),
        Err(CommandError::WrongPhase { actual: Phase::WaitingForBets })
    ));
    s.phase = Phase::Payouts;
    let events = GameEngine::handle(&s, &settings(), &settle_cmd()).unwrap();
    match &events[0] {
        EventPayload::GameFinished { result } => {
            assert_eq!(result.players.len(), 1);
            assert_eq!(result.players[0], PlayerResult { player: b, outcome: Outcome::Win, payout: 40 });
        },
        other => panic!("unexpected {:?}", other),
    }
}

#[test]
fn events_about_seating_leave_the_round_alone() {
    let pid = PlayerId::new();
    let mut s = GameState::new_with_balance(GameId::new(), vec![], vec![(pid, 70)], DealerId::new());
    s.apply_event(&EventPayload::ObserverJoined { player: PlayerId::new() });
    s.apply_event(&EventPayload::GameStarted);
    s.apply_event(&EventPayload::PlayerBust { player: pid });
    assert_eq!(s.players.len(), 1);
    assert_eq!(s.players[0].balance, 70);
    assert_eq!(s.phase, Phase::WaitingForBets);
}

#[test]
fn dealer_cards_are_dealt_from_the_shoe() {
    let did = DealerId::new();
    let mut s = GameState::new_with_balance(GameId::new(), vec![card(Rank::Five), card(Rank::Six)], vec![], did);
    s.apply_event(&EventPayload::DealerCardDealt { dealer: did, card: card(Rank::Five) });
    s.apply_event(&EventPayload::DealerHoleCardDealt { dealer: did });
    assert_eq!(s.dealt, 2);
    assert_eq!(s.dealer.hand.cards, vec![card(Rank::Five), card(Rank::Six)]);
    assert_eq!(s.next_card(), None);
}

#[test]
fn finished_round_credits_each_result() {
    let (a, b) = (PlayerId::new(), PlayerId::new());
    let mut s = GameState::new_with_balance(GameId::new(), vec![], vec![(a, 5), (b, 7)], DealerId::new());
    let result = GameResult {
        dealer_value: 20,
        players: vec![
            PlayerResult { player: a, outcome: Outcome::Win, payout: 10 },
            PlayerResult { player: b, outcome: Outcome::Lose, payout: 0 },
            PlayerResult { player: PlayerId::new(), outcome: Outcome::Win, payout: 99 },
        ],
    };
    s.apply_event(&EventPayload::GameFinished { result });
    assert_eq!(s.players[0].balance, 15);
    assert_eq!(s.players[1].balance, 7);
}
