use blackjack::commands::PlayerAction;
use blackjack::event::{EventPayload, GameResult};
use blackjack::ids::{PlayerId, TableId};
use blackjack::session::{
    ends_round, lagged_reply, ClientMessage, Effect, Reason, Reply, Session, SessionEvent, SessionState, TableCommand,
    NEW_PLAYER_CHIPS,
};

const TABLE: &str = "00000000000000000000000005";

fn ready(player: PlayerId) -> Session {
    let mut s = Session::new();
    s.step(SessionEvent::Message(ClientMessage::Auth { username: "qa".into(), password: "pw".into() }));
    s.step(SessionEvent::Authenticated { player, has_wallet: true });
    s
}

fn joined(player: PlayerId) -> Session {
    let mut s = ready(player);
    s.step(SessionEvent::Message(ClientMessage::JoinTable { table_id: TABLE.into(), request_id: 3 }));
    s.step(SessionEvent::Subscribed(Ok(())));
    s.step(SessionEvent::Joined(Ok(())));
    s.step(SessionEvent::SnapshotSent(Ok(())));
    s
}

#[test]
fn messages_before_auth_are_refused() {
    let mut s = Session::new();
    let fx = s.step(SessionEvent::Message(ClientMessage::Hit { table_id: TABLE.into(), request_id: 1 }));
    assert_eq!(fx.len(), 1);
    assert!(matches!(fx[0], Effect::Send(Reply::AuthError(Reason::SendAuthFirst))));
    let fx = s.step(SessionEvent::Unparsable("bad".into()));
    assert!(matches!(fx[0], Effect::Send(Reply::AuthError(Reason::SendAuthFirst))));
    assert_eq!(s.state, SessionState::AwaitingAuth);
}

#[test]
fn first_login_grants_chips() {
    let p = PlayerId::new();
    let mut s = Session::new();
    let fx = s.step(SessionEvent::Message(ClientMessage::Auth { username: "new".into(), password: "pw".into() }));
    assert!(matches!(&fx[0], Effect::Authenticate { username, password } if username == "new" && password == "pw"));
    assert_eq!(s.state, SessionState::Authenticating);
    let fx = s.step(SessionEvent::Authenticated { player: p, has_wallet: false });
    assert_eq!(fx.len(), 3);
    assert!(matches!(fx[0], Effect::GrantChips { player, amount } if player == p && amount == NEW_PLAYER_CHIPS));
    assert!(matches!(fx[1], Effect::Send(Reply::AuthOk(player)) if player == p));
    assert!(matches!(fx[2], Effect::SendBalance(player) if player == p));
    assert_eq!(NEW_PLAYER_CHIPS, 1000);
    assert_eq!(s.state, SessionState::Ready(p));
}

#[test]
fn known_player_gets_no_chips() {
    let p = PlayerId::new();
    let mut s = Session::new();
    s.step(SessionEvent::Message(ClientMessage::Auth { username: "qa".into(), password: "pw".into() }));
    let fx = s.step(SessionEvent::Authenticated { player: p, has_wallet: true });
    assert_eq!(fx.len(), 2);
    assert!(matches!(fx[0], Effect::Send(Reply::AuthOk(_))));
}

#[test]
fn failed_auth_closes_the_session() {
    let mut s = Session::new();
    s.step(SessionEvent::Message(ClientMessage::Auth { username: "qa".into(), password: "no".into() }));
    let fx = s.step(SessionEvent::AuthFailed("wrong password".into()));
    assert!(matches!(&fx[0], Effect::Send(Reply::AuthError(Reason::Refused(w))) if w == "wrong password"));
    assert_eq!(s.state, SessionState::Closed);
}

#[test]
fn join_subscribes_joins_sends_snapshot_and_forwards() {
    let p = PlayerId::new();
    let mut s = ready(p);
    let fx = s.step(SessionEvent::Message(ClientMessage::JoinTable { table_id: TABLE.into(), request_id: 3 }));
    assert_eq!(fx.len(), 1);
    assert!(matches!(fx[0], Effect::Subscribe(TableId(5))));
    let fx = s.step(SessionEvent::Subscribed(Ok(())));
    assert!(matches!(fx[0], Effect::SendCommand { table: TableId(5), request_id: 3, command: TableCommand::JoinTable, report: true }));
    let fx = s.step(SessionEvent::Joined(Ok(())));
    assert!(matches!(fx[0], Effect::SendSnapshot(TableId(5))));
    let fx = s.step(SessionEvent::SnapshotSent(Ok(())));
    assert_eq!(fx.len(), 2);
    assert!(matches!(fx[0], Effect::StartForwarding(TableId(5))));
    assert!(matches!(fx[1], Effect::Send(Reply::CommandAck(3))));
    assert_eq!(s.current_table, Some(TableId(5)));
    assert!(s.forwarding);
}

#[test]
fn joining_another_table_leaves_the_first() {
    let p = PlayerId::new();
    let mut s = joined(p);
    let fx = s.step(SessionEvent::Message(ClientMessage::JoinTable { table_id: "00000000000000000000000006".into(), request_id: 4 }));
    assert_eq!(fx.len(), 3);
    assert!(matches!(fx[0], Effect::StopForwarding));
    assert!(matches!(fx[1], Effect::SendCommand { table: TableId(5), request_id: 0, command: TableCommand::LeaveTable, report: false }));
    assert!(matches!(fx[2], Effect::Subscribe(TableId(6))));
    assert_eq!(s.current_table, None);
}

#[test]
fn failed_snapshot_undoes_the_join() {
    let p = PlayerId::new();
    let mut s = ready(p);
    s.step(SessionEvent::Message(ClientMessage::JoinTable { table_id: TABLE.into(), request_id: 3 }));
    s.step(SessionEvent::Subscribed(Ok(())));
    s.step(SessionEvent::Joined(Ok(())));
    let fx = s.step(SessionEvent::SnapshotSent(Err("gone".into())));
    assert_eq!(fx.len(), 2);
    assert!(matches!(fx[0], Effect::SendCommand { table: TableId(5), command: TableCommand::LeaveTable, .. }));
    assert!(matches!(&fx[1], Effect::Send(Reply::CommandError(3, Reason::Refused(w))) if w == "gone"));
    assert_eq!(s.state, SessionState::Ready(p));
    assert_eq!(s.current_table, None);
}

#[test]
fn refused_join_is_reported() {
    let p = PlayerId::new();
    let mut s = ready(p);
    s.step(SessionEvent::Message(ClientMessage::JoinTable { table_id: TABLE.into(), request_id: 8 }));
    s.step(SessionEvent::Subscribed(Ok(())));
    let fx = s.step(SessionEvent::Joined(Err("table is full".into())));
    assert!(matches!(&fx[0], Effect::Send(Reply::CommandError(8, Reason::Refused(w))) if w == "table is full"));
    assert_eq!(s.state, SessionState::Ready(p));
}

#[test]
fn invalid_table_id_is_refused() {
    let p = PlayerId::new();
    let mut s = ready(p);
    let fx = s.step(SessionEvent::Message(ClientMessage::PlaceBet { table_id: "zzz".into(), request_id: 9, amount: 10 }));
    assert_eq!(fx.len(), 1);
    assert!(matches!(fx[0], Effect::Send(Reply::CommandError(9, Reason::InvalidTableId))));
    assert_eq!(s.state, SessionState::Ready(p));
}

#[test]
fn player_commands_are_sent_and_acknowledged() {
    let p = PlayerId::new();
    let mut s = joined(p);
    let fx = s.step(SessionEvent::Message(ClientMessage::PlaceBet { table_id: TABLE.into(), request_id: 11, amount: 40 }));
    match &fx[0] {
        Effect::SendCommand { table, request_id, command: TableCommand::Play(PlayerAction::PlaceBet(b)), report } => {
            assert_eq!(*table, TableId(5));
            assert_eq!(*request_id, 11);
            assert_eq!(b.player_id, p);
            assert_eq!(b.amount, 40);
            assert!(*report);
        },
        _ => panic!("expected a bet"),
    }
    let fx = s.step(SessionEvent::CommandDone(Ok(())));
    assert!(matches!(fx[0], Effect::Send(Reply::CommandAck(11))));
    s.step(SessionEvent::Message(ClientMessage::Hit { table_id: TABLE.into(), request_id: 12 }));
    let fx = s.step(SessionEvent::CommandDone(Err("not this player's turn".into())));
    assert!(matches!(&fx[0], Effect::Send(Reply::CommandError(12, Reason::Refused(w))) if w == "not this player's turn"));
}

#[test]
fn take_seat_checks_the_seat_number() {
    let p = PlayerId::new();
    let mut s = joined(p);
    let fx = s.step(SessionEvent::Message(ClientMessage::TakeSeat { table_id: TABLE.into(), request_id: 2, seat: Some(9) }));
    assert!(matches!(fx[0], Effect::Send(Reply::CommandError(2, Reason::InvalidSeat(9)))));
    let fx = s.step(SessionEvent::Message(ClientMessage::TakeSeat { table_id: TABLE.into(), request_id: 3, seat: Some(4) }));
    assert!(matches!(&fx[0], Effect::SendCommand { command: TableCommand::TakeSeat(Some(seat)), .. } if seat.number() == 4));
    s.step(SessionEvent::CommandDone(Ok(())));
    let fx = s.step(SessionEvent::Message(ClientMessage::TakeSeat { table_id: TABLE.into(), request_id: 4, seat: None }));
    assert!(matches!(fx[0], Effect::SendCommand { command: TableCommand::TakeSeat(None), .. }));
}

#[test]
fn dealer_commands_and_second_auth_are_refused() {
    let p = PlayerId::new();
    let mut s = ready(p);
    let fx = s.step(SessionEvent::Message(ClientMessage::DealerSettle { table_id: TABLE.into(), request_id: 5 }));
    assert!(matches!(fx[0], Effect::Send(Reply::CommandError(5, Reason::DealerCommandsUnsupported))));
    let fx = s.step(SessionEvent::Message(ClientMessage::Auth { username: "a".into(), password: "b".into() }));
    assert!(matches!(fx[0], Effect::Send(Reply::CommandError(0, Reason::AlreadyAuthenticated))));
    let fx = s.step(SessionEvent::Unparsable("eof".into()));
    assert!(matches!(&fx[0], Effect::Send(Reply::CommandError(0, Reason::Unparsable(w))) if w == "eof"));
}

#[test]
fn leaving_the_table_stops_forwarding() {
    let p = PlayerId::new();
    let mut s = joined(p);
    let fx = s.step(SessionEvent::Message(ClientMessage::LeaveTable { table_id: TABLE.into(), request_id: 21 }));
    assert!(matches!(fx[0], Effect::SendCommand { command: TableCommand::LeaveTable, report: true, .. }));
    let fx = s.step(SessionEvent::Left(Ok(())));
    assert_eq!(fx.len(), 2);
    assert!(matches!(fx[0], Effect::StopForwarding));
    assert!(matches!(fx[1], Effect::Send(Reply::CommandAck(21))));
    assert_eq!(s.current_table, None);
    assert!(!s.forwarding);
}

#[test]
fn disconnect_leaves_the_current_table() {
    let p = PlayerId::new();
    let mut s = joined(p);
    let fx = s.step(SessionEvent::Disconnected);
    assert_eq!(fx.len(), 2);
    assert!(matches!(fx[0], Effect::StopForwarding));
    assert!(matches!(fx[1], Effect::SendCommand { table: TableId(5), request_id: 0, command: TableCommand::LeaveTable, report: false }));
    assert_eq!(s.state, SessionState::Closed);
    assert!(s.step(SessionEvent::Unparsable("late".into())).is_empty());
}

#[test]
fn disconnect_before_a_table_does_nothing_else() {
    let mut s = ready(PlayerId::new());
    assert!(s.step(SessionEvent::Disconnected).is_empty());
    assert_eq!(s.state, SessionState::Closed);
}

#[test]
fn round_end_and_lag() {
    assert!(ends_round(&EventPayload::GameFinished { result: GameResult { dealer_value: 20, players: vec![] } }));
    assert!(!ends_round(&EventPayload::GameStarted));
    assert!(matches!(lagged_reply(), Reply::CommandError(0, Reason::StreamLagged)));
}
