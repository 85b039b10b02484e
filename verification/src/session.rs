//! The WebSocket session of one client, as a state machine: from the
//! session's state and what just happened (a message from the client, the
//! answer of the authenticator or of the table service, the end of the
//! connection) to the next state and the effects the server performs, in
//! order.

use crate::commands::{DoubleDown, Hit, PlaceBet, PlayerAction, Stand};
use crate::event::EventPayload;
use crate::ids::{ulid_decode, PlayerId, Seat, TableId};
use vstd::prelude::*;

verus! {

/// Chips granted to a first-time player on their initial login.
pub const NEW_PLAYER_CHIPS: u32 = 1_000;

/// A message from the client.
pub enum ClientMessage {
    Auth { username: String, password: String },
    JoinTable { table_id: String, request_id: u64 },
    LeaveSeat { table_id: String, request_id: u64 },
    LeaveTable { table_id: String, request_id: u64 },
    PlaceBet { table_id: String, request_id: u64, amount: u32 },
    Hit { table_id: String, request_id: u64 },
    Stand { table_id: String, request_id: u64 },
    DoubleDown { table_id: String, request_id: u64 },
    TakeSeat { table_id: String, request_id: u64, seat: Option<u8> },
    DealerOpenBetting { table_id: String, request_id: u64 },
    DealerDealCards { table_id: String, request_id: u64 },
    DealerPlayHand { table_id: String, request_id: u64 },
    DealerSettle { table_id: String, request_id: u64 },
}

/// What the session asks of a table on the player's behalf.
#[derive(Clone, Copy, Debug)]
pub enum TableCommand {
    Play(PlayerAction),
    JoinTable,
    LeaveTable,
    LeaveSeat,
    TakeSeat(Option<Seat>),
}

/// Why a request is refused.
pub enum Reason {
    InvalidTableId,
    /// The seat number given is not one of the table's seats.
    InvalidSeat(u8),
    DealerCommandsUnsupported,
    AlreadyAuthenticated,
    SendAuthFirst,
    /// The client's text is not a message; the parser's words.
    Unparsable(String),
    /// The events of the table came too fast to be forwarded.
    StreamLagged,
    /// The authenticator or the table service refused; its words.
    Refused(String),
}

/// A message to the client.
pub enum Reply {
    AuthOk(PlayerId),
    AuthError(Reason),
    CommandAck(u64),
    CommandError(u64, Reason),
}

/// What the server does, in order.
pub enum Effect {
    /// Check the credentials; answer with `Authenticated` or `AuthFailed`.
    Authenticate { username: String, password: String },
    /// Credit a new player's wallet.
    GrantChips { player: PlayerId, amount: u32 },
    Send(Reply),
    /// Send the player's balance as the wallet holds it.
    SendBalance(PlayerId),
    /// Send a command to a table. Where `report` holds, answer with the
    /// outcome (`Subscribed`, `Joined`, `Left` or `CommandDone`, whichever
    /// the session waits for); otherwise its outcome is not looked at.
    SendCommand { table: TableId, request_id: u64, command: TableCommand, report: bool },
    /// Subscribe to the table's events; answer with `Subscribed`.
    Subscribe(TableId),
    /// Fetch the table's snapshot for the player and, when there is one,
    /// send it; answer with `SnapshotSent`.
    SendSnapshot(TableId),
    /// Forward the events of the subscribed table to the client.
    StartForwarding(TableId),
    StopForwarding,
}

#[derive(Clone, Copy, Debug, PartialEq, Eq, Structural)]
pub enum JoinStage {
    Subscribing,
    Joining,
    Snapshotting,
}

#[derive(Clone, Copy, Debug, PartialEq, Eq, Structural)]
pub enum SessionState {
    AwaitingAuth,
    Authenticating,
    Ready(PlayerId),
    Joining { player: PlayerId, table: TableId, request_id: u64, stage: JoinStage },
    Leaving { player: PlayerId, request_id: u64 },
    Commanding { player: PlayerId, request_id: u64 },
    Closed,
}

/// What the session knows.
#[derive(Clone, Copy, Debug, PartialEq, Eq, Structural)]
pub struct Session {
    pub state: SessionState,
    /// The table whose events are being forwarded.
    pub current_table: Option<TableId>,
    pub forwarding: bool,
}

impl Session {
    /// Whether the client has not (or no longer) authenticated.
    pub open spec fn unauthenticated(self) -> bool {
        self.state is AwaitingAuth || self.state is Authenticating || self.state is Closed
    }

    /// What every session reached from `new` satisfies: events are
    /// forwarded exactly while there is a current table, and there is none
    /// outside an authenticated session.
    pub open spec fn wf(self) -> bool {
        &&& self.forwarding <==> self.current_table is Some
        &&& self.unauthenticated() ==> self.current_table is None
    }
}

/// Whether an effect acts on a table or on the player's wallet.
pub open spec fn touches_table(e: Effect) -> bool {
    ||| e is SendCommand
    ||| e is Subscribe
    ||| e is SendSnapshot
    ||| e is StartForwarding
    ||| e is GrantChips
    ||| e is SendBalance
}

/// What just happened.
pub enum SessionEvent {
    Message(ClientMessage),
    /// A text from the client that is not a message; the parser's words.
    Unparsable(String),
    Authenticated { player: PlayerId, has_wallet: bool },
    AuthFailed(String),
    Subscribed(Result<(), String>),
    Joined(Result<(), String>),
    SnapshotSent(Result<(), String>),
    Left(Result<(), String>),
    CommandDone(Result<(), String>),
    /// The client went away, or the connection failed.
    Disconnected,
}

/// The table a text names, if it is a table identifier.
pub open spec fn table_named(text: Seq<char>) -> Option<TableId> {
    match ulid_decode(text) {
        Some(v) => Some(TableId(v)),
        None => None,
    }
}

/// Stop forwarding, where events are forwarded.
pub open spec fn stop_forwarding(s: Session) -> Seq<Effect> {
    if s.forwarding { seq![Effect::StopForwarding] } else { Seq::empty() }
}

/// A command for the table `text` names: refused where the text is not a
/// table identifier, sent (and waited for) otherwise.
pub open spec fn table_request(
    s: Session,
    player: PlayerId,
    text: Seq<char>,
    request_id: u64,
    command: TableCommand,
) -> (Session, Seq<Effect>) {
    match table_named(text) {
        None => (s, seq![Effect::Send(Reply::CommandError(request_id, Reason::InvalidTableId))]),
        Some(t) => (
            Session { state: SessionState::Commanding { player, request_id }, ..s },
            seq![Effect::SendCommand { table: t, request_id, command, report: true }],
        ),
    }
}

/// What an authenticated session does with a message.
pub open spec fn on_message(s: Session, player: PlayerId, m: ClientMessage) -> (Session, Seq<Effect>) {
    match m {
        ClientMessage::JoinTable { table_id, request_id } => match table_named(table_id@) {
            None => (s, seq![Effect::Send(Reply::CommandError(request_id, Reason::InvalidTableId))]),
            Some(t) => {
                // Leave the old table before joining a new one.
                let leave = match s.current_table {
                    None => Seq::empty(),
                    Some(old) => stop_forwarding(s) + seq![Effect::SendCommand {
                        table: old,
                        request_id: 0,
                        command: TableCommand::LeaveTable,
                        report: false,
                    }],
                };
                let s1 = match s.current_table {
                    None => s,
                    Some(old) => Session { current_table: None, forwarding: false, ..s },
                };
                (
                    Session { state: SessionState::Joining { player, table: t, request_id, stage: JoinStage::Subscribing }, ..s1 },
                    leave + seq![Effect::Subscribe(t)],
                )
            },
        },
        ClientMessage::LeaveTable { table_id, request_id } => match table_named(table_id@) {
            None => (s, seq![Effect::Send(Reply::CommandError(request_id, Reason::InvalidTableId))]),
            Some(t) => (
                Session { state: SessionState::Leaving { player, request_id }, ..s },
                seq![Effect::SendCommand { table: t, request_id, command: TableCommand::LeaveTable, report: true }],
            ),
        },
        ClientMessage::PlaceBet { table_id, request_id, amount } =>
            table_request(s, player, table_id@, request_id, TableCommand::Play(PlayerAction::PlaceBet(PlaceBet { player_id: player, amount }))),
        ClientMessage::Hit { table_id, request_id } =>
            table_request(s, player, table_id@, request_id, TableCommand::Play(PlayerAction::Hit(Hit { player_id: player }))),
        ClientMessage::Stand { table_id, request_id } =>
            table_request(s, player, table_id@, request_id, TableCommand::Play(PlayerAction::Stand(Stand { player_id: player }))),
        ClientMessage::DoubleDown { table_id, request_id } =>
            table_request(s, player, table_id@, request_id, TableCommand::Play(PlayerAction::DoubleDown(DoubleDown { player_id: player }))),
        ClientMessage::LeaveSeat { table_id, request_id } =>
            table_request(s, player, table_id@, request_id, TableCommand::LeaveSeat),
        ClientMessage::TakeSeat { table_id, request_id, seat } => match seat {
            Some(n) => if Seat::valid_number(n) {
                table_request(s, player, table_id@, request_id, TableCommand::TakeSeat(Some(Seat::from_number(n))))
            } else {
                (s, seq![Effect::Send(Reply::CommandError(request_id, Reason::InvalidSeat(n)))])
            },
            None => table_request(s, player, table_id@, request_id, TableCommand::TakeSeat(None)),
        },
        ClientMessage::DealerOpenBetting { table_id, request_id }
        | ClientMessage::DealerDealCards { table_id, request_id }
        | ClientMessage::DealerPlayHand { table_id, request_id }
        | ClientMessage::DealerSettle { table_id, request_id } =>
            (s, seq![Effect::Send(Reply::CommandError(request_id, Reason::DealerCommandsUnsupported))]),
        ClientMessage::Auth { .. } => (s, seq![Effect::Send(Reply::CommandError(0, Reason::AlreadyAuthenticated))]),
    }
}

/// Leaving the connection: stop forwarding and leave the current table.
pub open spec fn on_disconnect(s: Session) -> (Session, Seq<Effect>) {
    let leave = match s.current_table {
        None => Seq::empty(),
        Some(t) => seq![Effect::SendCommand { table: t, request_id: 0, command: TableCommand::LeaveTable, report: false }],
    };
    (Session { state: SessionState::Closed, current_table: None, forwarding: false }, stop_forwarding(s) + leave)
}

/// The session's rules: the next state and the effects, in order.
pub open spec fn session_step(s: Session, e: SessionEvent) -> (Session, Seq<Effect>) {
    match s.state {
        SessionState::AwaitingAuth => match e {
            SessionEvent::Message(ClientMessage::Auth { username, password }) =>
                (Session { state: SessionState::Authenticating, ..s }, seq![Effect::Authenticate { username, password }]),
            SessionEvent::Message(_) | SessionEvent::Unparsable(_) =>
                (s, seq![Effect::Send(Reply::AuthError(Reason::SendAuthFirst))]),
            SessionEvent::Disconnected => on_disconnect(s),
            _ => (s, Seq::empty()),
        },
        SessionState::Authenticating => match e {
            SessionEvent::Authenticated { player, has_wallet } => {
                let grant = if has_wallet {
                    Seq::empty()
                } else {
                    seq![Effect::GrantChips { player, amount: NEW_PLAYER_CHIPS }]
                };
                (
                    Session { state: SessionState::Ready(player), ..s },
                    grant + seq![Effect::Send(Reply::AuthOk(player)), Effect::SendBalance(player)],
                )
            },
            SessionEvent::AuthFailed(reason) =>
                (Session { state: SessionState::Closed, ..s }, seq![Effect::Send(Reply::AuthError(Reason::Refused(reason)))]),
            SessionEvent::Disconnected => on_disconnect(s),
            _ => (s, Seq::empty()),
        },
        SessionState::Ready(player) => match e {
            SessionEvent::Message(m) => on_message(s, player, m),
            SessionEvent::Unparsable(words) => (s, seq![Effect::Send(Reply::CommandError(0, Reason::Unparsable(words)))]),
            SessionEvent::Disconnected => on_disconnect(s),
            _ => (s, Seq::empty()),
        },
        SessionState::Joining { player, table, request_id, stage } => {
            let ready = Session { state: SessionState::Ready(player), ..s };
            match (stage, e) {
                (JoinStage::Subscribing, SessionEvent::Subscribed(Ok(()))) => (
                    Session { state: SessionState::Joining { player, table, request_id, stage: JoinStage::Joining }, ..s },
                    seq![Effect::SendCommand { table, request_id, command: TableCommand::JoinTable, report: true }],
                ),
                (JoinStage::Joining, SessionEvent::Joined(Ok(()))) => (
                    Session { state: SessionState::Joining { player, table, request_id, stage: JoinStage::Snapshotting }, ..s },
                    seq![Effect::SendSnapshot(table)],
                ),
                (JoinStage::Snapshotting, SessionEvent::SnapshotSent(Ok(()))) => (
                    Session { state: SessionState::Ready(player), current_table: Some(table), forwarding: true },
                    stop_forwarding(s) + seq![Effect::StartForwarding(table), Effect::Send(Reply::CommandAck(request_id))],
                ),
                (JoinStage::Subscribing, SessionEvent::Subscribed(Err(why)))
                | (JoinStage::Joining, SessionEvent::Joined(Err(why))) =>
                    (ready, seq![Effect::Send(Reply::CommandError(request_id, Reason::Refused(why)))]),
                // Undo the join so the table and the session agree.
                (JoinStage::Snapshotting, SessionEvent::SnapshotSent(Err(why))) => (
                    ready,
                    seq![
                        Effect::SendCommand { table, request_id: 0, command: TableCommand::LeaveTable, report: false },
                        Effect::Send(Reply::CommandError(request_id, Reason::Refused(why))),
                    ],
                ),
                (_, SessionEvent::Disconnected) => on_disconnect(s),
                _ => (s, Seq::empty()),
            }
        },
        SessionState::Leaving { player, request_id } => match e {
            SessionEvent::Left(Ok(())) => (
                Session { state: SessionState::Ready(player), current_table: None, forwarding: false },
                stop_forwarding(s) + seq![Effect::Send(Reply::CommandAck(request_id))],
            ),
            SessionEvent::Left(Err(why)) => (
                Session { state: SessionState::Ready(player), ..s },
                seq![Effect::Send(Reply::CommandError(request_id, Reason::Refused(why)))],
            ),
            SessionEvent::Disconnected => on_disconnect(s),
            _ => (s, Seq::empty()),
        },
        SessionState::Commanding { player, request_id } => match e {
            SessionEvent::CommandDone(Ok(())) => (
                Session { state: SessionState::Ready(player), ..s },
                seq![Effect::Send(Reply::CommandAck(request_id))],
            ),
            SessionEvent::CommandDone(Err(why)) => (
                Session { state: SessionState::Ready(player), ..s },
                seq![Effect::Send(Reply::CommandError(request_id, Reason::Refused(why)))],
            ),
            SessionEvent::Disconnected => on_disconnect(s),
            _ => (s, Seq::empty()),
        },
        SessionState::Closed => (s, Seq::empty()),
    }
}

} // verus!

verus! {

fn stop_forwarding_effects(s: &Session) -> (v: Vec<Effect>)
    ensures
        v@ == stop_forwarding(*s),
{
    let mut v: Vec<Effect> = Vec::new();
    if s.forwarding {
        v.push(Effect::StopForwarding);
    }
    assert(v@ =~= stop_forwarding(*s));
    v
}

fn one(e: Effect) -> (v: Vec<Effect>)
    ensures
        v@ == seq![e],
{
    let mut v: Vec<Effect> = Vec::new();
    v.push(e);
    assert(v@ =~= seq![e]);
    v
}

fn table_request_exec(s: &mut Session, player: PlayerId, text: &String, request_id: u64, command: TableCommand) -> (v: Vec<Effect>)
    ensures
        (*final(s), v@) == table_request(*old(s), player, text@, request_id, command),
{
    match TableId::parse(text.as_str()) {
        None => one(Effect::Send(Reply::CommandError(request_id, Reason::InvalidTableId))),
        Some(t) => {
            s.state = SessionState::Commanding { player, request_id };
            one(Effect::SendCommand { table: t, request_id, command, report: true })
        },
    }
}

fn on_message_exec(s: &mut Session, player: PlayerId, m: ClientMessage) -> (v: Vec<Effect>)
    ensures
        (*final(s), v@) == on_message(*old(s), player, m),
{
    match m {
        ClientMessage::JoinTable { table_id, request_id } => match TableId::parse(table_id.as_str()) {
            None => one(Effect::Send(Reply::CommandError(request_id, Reason::InvalidTableId))),
            Some(t) => {
                let ghost s0 = *s;
                let mut v: Vec<Effect> = Vec::new();
                match s.current_table {
                    None => {},
                    Some(old_table) => {
                        v = stop_forwarding_effects(s);
                        v.push(Effect::SendCommand {
                            table: old_table,
                            request_id: 0,
                            command: TableCommand::LeaveTable,
                            report: false,
                        });
                        s.current_table = None;
                        s.forwarding = false;
                    },
                }
                v.push(Effect::Subscribe(t));
                s.state = SessionState::Joining { player, table: t, request_id, stage: JoinStage::Subscribing };
                assert(v@ =~= on_message(s0, player, m).1);
                v
            },
        },
        ClientMessage::LeaveTable { table_id, request_id } => match TableId::parse(table_id.as_str()) {
            None => one(Effect::Send(Reply::CommandError(request_id, Reason::InvalidTableId))),
            Some(t) => {
                s.state = SessionState::Leaving { player, request_id };
                one(Effect::SendCommand { table: t, request_id, command: TableCommand::LeaveTable, report: true })
            },
        },
        ClientMessage::PlaceBet { table_id, request_id, amount } =>
            table_request_exec(s, player, &table_id, request_id, TableCommand::Play(PlayerAction::PlaceBet(PlaceBet { player_id: player, amount }))),
        ClientMessage::Hit { table_id, request_id } =>
            table_request_exec(s, player, &table_id, request_id, TableCommand::Play(PlayerAction::Hit(Hit { player_id: player }))),
        ClientMessage::Stand { table_id, request_id } =>
            table_request_exec(s, player, &table_id, request_id, TableCommand::Play(PlayerAction::Stand(Stand { player_id: player }))),
        ClientMessage::DoubleDown { table_id, request_id } =>
            table_request_exec(s, player, &table_id, request_id, TableCommand::Play(PlayerAction::DoubleDown(DoubleDown { player_id: player }))),
        ClientMessage::LeaveSeat { table_id, request_id } =>
            table_request_exec(s, player, &table_id, request_id, TableCommand::LeaveSeat),
        ClientMessage::TakeSeat { table_id, request_id, seat } => match seat {
            Some(n) => match Seat::try_from_number(n) {
                Some(st) => table_request_exec(s, player, &table_id, request_id, TableCommand::TakeSeat(Some(st))),
                None => one(Effect::Send(Reply::CommandError(request_id, Reason::InvalidSeat(n)))),
            },
            None => table_request_exec(s, player, &table_id, request_id, TableCommand::TakeSeat(None)),
        },
        ClientMessage::DealerOpenBetting { table_id, request_id }
        | ClientMessage::DealerDealCards { table_id, request_id }
        | ClientMessage::DealerPlayHand { table_id, request_id }
        | ClientMessage::DealerSettle { table_id, request_id } =>
            one(Effect::Send(Reply::CommandError(request_id, Reason::DealerCommandsUnsupported))),
        ClientMessage::Auth { .. } => one(Effect::Send(Reply::CommandError(0, Reason::AlreadyAuthenticated))),
    }
}

fn on_disconnect_exec(s: &mut Session) -> (v: Vec<Effect>)
    ensures
        (*final(s), v@) == on_disconnect(*old(s)),
{
    let ghost s0 = *s;
    let mut v = stop_forwarding_effects(s);
    match s.current_table {
        None => {},
        Some(t) => {
            v.push(Effect::SendCommand { table: t, request_id: 0, command: TableCommand::LeaveTable, report: false });
        },
    }
    *s = Session { state: SessionState::Closed, current_table: None, forwarding: false };
    assert(v@ =~= on_disconnect(s0).1);
    v
}

impl Session {
    pub open spec fn new_spec() -> Session {
        Session { state: SessionState::AwaitingAuth, current_table: None, forwarding: false }
    }

    /// A session that waits for the client to authenticate.
    pub fn new() -> (s: Session)
        ensures
            s == Session::new_spec(),
    {
        Session { state: SessionState::AwaitingAuth, current_table: None, forwarding: false }
    }

    /// Takes what happened; gives the effects to perform, in order.
    pub fn step(&mut self, e: SessionEvent) -> (v: Vec<Effect>)
        ensures
            (*final(self), v@) == session_step(*old(self), e),
    {
        let ghost s0 = *self;
        match self.state {
            SessionState::AwaitingAuth => match e {
                SessionEvent::Message(ClientMessage::Auth { username, password }) => {
                    self.state = SessionState::Authenticating;
                    one(Effect::Authenticate { username, password })
                },
                SessionEvent::Message(_) | SessionEvent::Unparsable(_) => one(Effect::Send(Reply::AuthError(Reason::SendAuthFirst))),
                SessionEvent::Disconnected => on_disconnect_exec(self),
                _ => Vec::new(),
            },
            SessionState::Authenticating => match e {
                SessionEvent::Authenticated { player, has_wallet } => {
                    let mut v: Vec<Effect> = Vec::new();
                    if !has_wallet {
                        v.push(Effect::GrantChips { player, amount: NEW_PLAYER_CHIPS });
                    }
                    v.push(Effect::Send(Reply::AuthOk(player)));
                    v.push(Effect::SendBalance(player));
                    self.state = SessionState::Ready(player);
                    assert(v@ =~= session_step(s0, e).1);
                    v
                },
                SessionEvent::AuthFailed(reason) => {
                    self.state = SessionState::Closed;
                    one(Effect::Send(Reply::AuthError(Reason::Refused(reason))))
                },
                SessionEvent::Disconnected => on_disconnect_exec(self),
                _ => Vec::new(),
            },
            SessionState::Ready(player) => match e {
                SessionEvent::Message(m) => on_message_exec(self, player, m),
                SessionEvent::Unparsable(words) => one(Effect::Send(Reply::CommandError(0, Reason::Unparsable(words)))),
                SessionEvent::Disconnected => on_disconnect_exec(self),
                _ => Vec::new(),
            },
            SessionState::Joining { player, table, request_id, stage } => match (stage, e) {
                (JoinStage::Subscribing, SessionEvent::Subscribed(Ok(()))) => {
                    self.state = SessionState::Joining { player, table, request_id, stage: JoinStage::Joining };
                    one(Effect::SendCommand { table, request_id, command: TableCommand::JoinTable, report: true })
                },
                (JoinStage::Joining, SessionEvent::Joined(Ok(()))) => {
                    self.state = SessionState::Joining { player, table, request_id, stage: JoinStage::Snapshotting };
                    one(Effect::SendSnapshot(table))
                },
                (JoinStage::Snapshotting, SessionEvent::SnapshotSent(Ok(()))) => {
                    let mut v = stop_forwarding_effects(self);
                    v.push(Effect::StartForwarding(table));
                    v.push(Effect::Send(Reply::CommandAck(request_id)));
                    *self = Session { state: SessionState::Ready(player), current_table: Some(table), forwarding: true };
                    assert(v@ =~= session_step(s0, e).1);
                    v
                },
                (JoinStage::Subscribing, SessionEvent::Subscribed(Err(why)))
                | (JoinStage::Joining, SessionEvent::Joined(Err(why))) => {
                    self.state = SessionState::Ready(player);
                    one(Effect::Send(Reply::CommandError(request_id, Reason::Refused(why))))
                },
                (JoinStage::Snapshotting, SessionEvent::SnapshotSent(Err(why))) => {
                    self.state = SessionState::Ready(player);
                    let mut v: Vec<Effect> = Vec::new();
                    v.push(Effect::SendCommand { table, request_id: 0, command: TableCommand::LeaveTable, report: false });
                    v.push(Effect::Send(Reply::CommandError(request_id, Reason::Refused(why))));
                    assert(v@ =~= session_step(s0, e).1);
                    v
                },
                (_, SessionEvent::Disconnected) => on_disconnect_exec(self),
                _ => Vec::new(),
            },
            SessionState::Leaving { player, request_id } => match e {
                SessionEvent::Left(Ok(())) => {
                    let mut v = stop_forwarding_effects(self);
                    v.push(Effect::Send(Reply::CommandAck(request_id)));
                    *self = Session { state: SessionState::Ready(player), current_table: None, forwarding: false };
                    assert(v@ =~= session_step(s0, e).1);
                    v
                },
                SessionEvent::Left(Err(why)) => {
                    self.state = SessionState::Ready(player);
                    one(Effect::Send(Reply::CommandError(request_id, Reason::Refused(why))))
                },
                SessionEvent::Disconnected => on_disconnect_exec(self),
                _ => Vec::new(),
            },
            SessionState::Commanding { player, request_id } => match e {
                SessionEvent::CommandDone(Ok(())) => {
                    self.state = SessionState::Ready(player);
                    one(Effect::Send(Reply::CommandAck(request_id)))
                },
                SessionEvent::CommandDone(Err(why)) => {
                    self.state = SessionState::Ready(player);
                    one(Effect::Send(Reply::CommandError(request_id, Reason::Refused(why))))
                },
                SessionEvent::Disconnected => on_disconnect_exec(self),
                _ => Vec::new(),
            },
            SessionState::Closed => Vec::new(),
        }
    }
}

/// Whether the event ends a round; after forwarding it the server sends the
/// player's balance, which the settlement may have changed.
pub fn ends_round(e: &EventPayload) -> (b: bool)
    ensures
        b <==> e is GameFinished,
{
    matches!(e, EventPayload::GameFinished { .. })
}

/// What is sent when the forwarding of events falls behind; forwarding
/// then stops.
pub fn lagged_reply() -> (r: Reply)
    ensures
        r == Reply::CommandError(0, Reason::StreamLagged),
{
    Reply::CommandError(0, Reason::StreamLagged)
}

} // verus!
