//! The terminal client's key handling: from the client's state and a key to
//! the next state and the requests to send, in order.

use crate::cards::Card;
use crate::event::Outcome;
use vstd::prelude::*;

verus! {

/// Appends a character with `String::push`.
#[verifier::external_body]
fn push_char(s: &mut String, c: char)
    ensures
        final(s)@ == old(s)@.push(c),
{
    s.push(c);
}

/// Removes the last character, if any, with `String::pop`.
#[verifier::external_body]
fn pop_char(s: &mut String)
    ensures
        final(s)@ == (if old(s)@.len() == 0 { old(s)@ } else { old(s)@.drop_last() }),
{
    s.pop();
}

#[derive(Clone, Copy, Debug, PartialEq, Eq, Structural)]
pub enum Key {
    Char(char),
    Tab,
    BackTab,
    Backspace,
    Enter,
    Esc,
    Up,
    Down,
    Left,
    Right,
    Other,
}

#[derive(Clone, Copy, Debug, PartialEq, Eq, Structural)]
pub enum LoginField {
    Username,
    Password,
}

#[derive(Clone, Copy, Debug, PartialEq, Eq, Structural)]
pub enum LoginStatus {
    Idle,
    Connecting,
}

pub struct LoginScreen {
    pub username: String,
    pub password: String,
    pub active_field: LoginField,
    pub status: LoginStatus,
}

/// A table as the lobby lists it.
pub struct LobbyTable {
    pub id: String,
    pub is_joinable: bool,
    pub min_bet: u32,
    pub max_bet: u32,
}

pub struct LobbyScreen {
    pub selected: usize,
    pub tables: Vec<LobbyTable>,
}

#[derive(Clone, Copy, Debug, PartialEq, Eq, Structural)]
pub enum GamePhase {
    Waiting,
    Betting,
    Dealing,
    PlayerTurn,
    DealerTurn,
    Payouts,
}

/// A seat as the table screen shows it.
pub struct SeatLine {
    /// Whether this is the player whose turn it is.
    pub active: bool,
    pub cards: Vec<Card>,
    pub is_bust: bool,
    pub hand_value: u32,
}

pub struct TableScreen {
    pub phase: GamePhase,
    pub is_observer: bool,
    pub is_my_turn: bool,
    /// The outcome of the last round, shown until a key is pressed.
    pub round_result: Option<Outcome>,
    pub players: Vec<SeatLine>,
}

pub enum Screen {
    Login(LoginScreen),
    Lobby(LobbyScreen),
    Table(TableScreen),
}

/// The bet being chosen.
#[derive(Clone, Copy, Debug, PartialEq, Eq, Structural)]
pub struct Betting {
    pub current_bet: u32,
    pub step: u32,
    pub min_bet: u32,
    pub max_bet: u32,
    pub confirmed: bool,
}

pub struct ClientApp {
    pub screen: Screen,
    pub betting: Option<Betting>,
    pub should_quit: bool,
    pub username: String,
    pub password: String,
    pub table_min_bet: u32,
    pub table_max_bet: u32,
    pub current_table_id: Option<String>,
    /// Whether the connection to the server is up.
    pub connected: bool,
    /// The last request identifier handed out.
    pub last_request_id: u64,
}

#[derive(Clone, Copy, Debug, PartialEq, Eq, Structural)]
pub enum RequestKind {
    JoinTable,
    LeaveTable,
    LeaveSeat,
    TakeSeat,
    Hit,
    Stand,
    DoubleDown,
    PlaceBet(u32),
}

/// A request to the server.
pub struct Outgoing {
    pub kind: RequestKind,
    pub table_id: String,
    pub request_id: u64,
}

pub enum ClientEffect {
    /// Open the connection to the server with the entered credentials.
    Connect,
    Send(Outgoing),
}

pub struct LoginModel {
    pub username: Seq<char>,
    pub password: Seq<char>,
    pub active_field: LoginField,
    pub status: LoginStatus,
}

pub struct LobbyModel {
    pub selected: usize,
    pub tables: Seq<LobbyTable>,
}

pub struct TableModel {
    pub phase: GamePhase,
    pub is_observer: bool,
    pub is_my_turn: bool,
    pub round_result: Option<Outcome>,
    pub players: Seq<SeatLine>,
}

pub enum ScreenModel {
    Login(LoginModel),
    Lobby(LobbyModel),
    Table(TableModel),
}

pub struct AppModel {
    pub screen: ScreenModel,
    pub betting: Option<Betting>,
    pub should_quit: bool,
    pub username: Seq<char>,
    pub password: Seq<char>,
    pub table_min_bet: u32,
    pub table_max_bet: u32,
    pub current_table_id: Option<String>,
    pub connected: bool,
    pub last_request_id: u64,
}

impl View for Screen {
    type V = ScreenModel;

    open spec fn view(&self) -> ScreenModel {
        match self {
            Screen::Login(l) => ScreenModel::Login(LoginModel {
                username: l.username@,
                password: l.password@,
                active_field: l.active_field,
                status: l.status,
            }),
            Screen::Lobby(l) => ScreenModel::Lobby(LobbyModel { selected: l.selected, tables: l.tables@ }),
            Screen::Table(t) => ScreenModel::Table(TableModel {
                phase: t.phase,
                is_observer: t.is_observer,
                is_my_turn: t.is_my_turn,
                round_result: t.round_result,
                players: t.players@,
            }),
        }
    }
}

impl View for ClientApp {
    type V = AppModel;

    open spec fn view(&self) -> AppModel {
        AppModel {
            screen: self.screen@,
            betting: self.betting,
            should_quit: self.should_quit,
            username: self.username@,
            password: self.password@,
            table_min_bet: self.table_min_bet,
            table_max_bet: self.table_max_bet,
            current_table_id: self.current_table_id,
            connected: self.connected,
            last_request_id: self.last_request_id,
        }
    }
}

/// The identifier after `last`, wrapping after `u64::MAX`.
pub open spec fn following_id(last: u64) -> u64 {
    if last == u64::MAX { 0 } else { (last + 1) as u64 }
}

/// The request for the current table, where the client is connected and at
/// a table.
pub open spec fn to_current_table(m: AppModel, kind: RequestKind, request_id: u64) -> Seq<ClientEffect> {
    if m.connected {
        match m.current_table_id {
            Some(t) => seq![ClientEffect::Send(Outgoing { kind, table_id: t, request_id })],
            None => Seq::empty(),
        }
    } else {
        Seq::empty()
    }
}

/// Spend the next request identifier on a request for the current table.
pub open spec fn request(m: AppModel, kind: RequestKind) -> (AppModel, Seq<ClientEffect>) {
    let id = following_id(m.last_request_id);
    let m1 = AppModel { last_request_id: id, ..m };
    (m1, to_current_table(m1, kind, id))
}

/// Backspace: the field without its last character.
pub open spec fn erased(field: Seq<char>) -> Seq<char> {
    if field.len() == 0 { field } else { field.drop_last() }
}

pub open spec fn login_step(m: AppModel, l: LoginModel, key: Key) -> (AppModel, Seq<ClientEffect>) {
    let with = |l2: LoginModel| AppModel { screen: ScreenModel::Login(l2), ..m };
    match key {
        Key::Tab | Key::BackTab => (with(LoginModel {
            active_field: match l.active_field {
                LoginField::Username => LoginField::Password,
                LoginField::Password => LoginField::Username,
            },
            ..l
        }), Seq::empty()),
        Key::Char(c) => (with(match l.active_field {
            LoginField::Username => LoginModel { username: l.username.push(c), ..l },
            LoginField::Password => LoginModel { password: l.password.push(c), ..l },
        }), Seq::empty()),
        Key::Backspace => (with(match l.active_field {
            LoginField::Username => LoginModel { username: erased(l.username), ..l },
            LoginField::Password => LoginModel { password: erased(l.password), ..l },
        }), Seq::empty()),
        Key::Enter => if l.username.len() > 0 && l.password.len() > 0 {
            (AppModel {
                screen: ScreenModel::Login(LoginModel { status: LoginStatus::Connecting, ..l }),
                username: l.username,
                password: l.password,
                ..m
            }, seq![ClientEffect::Connect])
        } else {
            (m, Seq::empty())
        },
        Key::Esc => (AppModel { should_quit: true, ..m }, Seq::empty()),
        _ => (m, Seq::empty()),
    }
}

pub open spec fn lobby_step(m: AppModel, l: LobbyModel, key: Key) -> (AppModel, Seq<ClientEffect>) {
    match key {
        Key::Up => if l.selected > 0 {
            (AppModel { screen: ScreenModel::Lobby(LobbyModel { selected: (l.selected - 1) as usize, ..l }), ..m }, Seq::empty())
        } else {
            (m, Seq::empty())
        },
        Key::Down => if l.selected + 1 < l.tables.len() {
            (AppModel { screen: ScreenModel::Lobby(LobbyModel { selected: (l.selected + 1) as usize, ..l }), ..m }, Seq::empty())
        } else {
            (m, Seq::empty())
        },
        Key::Enter => if l.selected < l.tables.len() && l.tables[l.selected as int].is_joinable {
            let t = l.tables[l.selected as int];
            let id = following_id(m.last_request_id);
            let m1 = AppModel {
                table_min_bet: t.min_bet,
                table_max_bet: t.max_bet,
                current_table_id: Some(t.id),
                last_request_id: id,
                ..m
            };
            (m1, if m.connected {
                seq![ClientEffect::Send(Outgoing { kind: RequestKind::JoinTable, table_id: t.id, request_id: id })]
            } else {
                Seq::empty()
            })
        } else {
            (m, Seq::empty())
        },
        _ => (m, Seq::empty()),
    }
}

/// The lobby as it is when the client leaves a table.
pub open spec fn back_to_lobby(m: AppModel) -> AppModel {
    AppModel { screen: ScreenModel::Lobby(LobbyModel { selected: 0, tables: Seq::empty() }), betting: None, ..m }
}

pub open spec fn betting_step(m: AppModel, key: Key) -> (AppModel, Seq<ClientEffect>) {
    match m.betting {
        None => (m, Seq::empty()),
        Some(b) => match key {
            Key::Left => {
                let lowered = if b.current_bet >= b.step { (b.current_bet - b.step) as u32 } else { 0u32 };
                let bet = if lowered >= b.min_bet { lowered } else { b.min_bet };
                (AppModel { betting: Some(Betting { current_bet: bet, ..b }), ..m }, Seq::empty())
            },
            Key::Right => {
                let raised = b.current_bet + b.step;
                let bet = if raised <= b.max_bet { raised as u32 } else { b.max_bet };
                (AppModel { betting: Some(Betting { current_bet: bet, ..b }), ..m }, Seq::empty())
            },
            Key::Enter => request(
                AppModel { betting: Some(Betting { confirmed: true, ..b }), ..m },
                RequestKind::PlaceBet(b.current_bet),
            ),
            _ => (m, Seq::empty()),
        },
    }
}

pub open spec fn table_step(m: AppModel, t: TableModel, key: Key) -> (AppModel, Seq<ClientEffect>) {
    if t.round_result is Some {
        // Any key dismisses the outcome.
        (AppModel { screen: ScreenModel::Table(TableModel { round_result: None, ..t }), ..m }, Seq::empty())
    } else if key == Key::Char('l') {
        if t.is_observer {
            // An observer leaves the table and goes back to the lobby.
            let (m1, sent) = request(m, RequestKind::LeaveTable);
            (back_to_lobby(AppModel { current_table_id: None, ..m1 }), sent)
        } else {
            // A seated or waiting player goes back to observing.
            request(m, RequestKind::LeaveSeat)
        }
    } else if t.is_observer {
        if key == Key::Char('t') {
            request(m, RequestKind::TakeSeat)
        } else {
            (m, Seq::empty())
        }
    } else if t.phase == GamePhase::Betting {
        betting_step(m, key)
    } else if t.phase == GamePhase::PlayerTurn {
        match key {
            Key::Char('h') => request(m, RequestKind::Hit),
            Key::Char('s') => request(m, RequestKind::Stand),
            Key::Char('d') => request(m, RequestKind::DoubleDown),
            _ => (m, Seq::empty()),
        }
    } else {
        (m, Seq::empty())
    }
}

/// Raising the bet past `u32::MAX` is the one key that cannot be handled.
pub open spec fn raise_overflows(m: AppModel, key: Key) -> bool {
    &&& key == Key::Right
    &&& m.screen matches ScreenModel::Table(t)
    &&& t.round_result is None
    &&& !t.is_observer
    &&& t.phase == GamePhase::Betting
    &&& m.betting matches Some(b)
    &&& b.current_bet + b.step > u32::MAX
}

/// The key handler's rules: 'q' quits everywhere but on the login screen,
/// where it is typed.
pub open spec fn key_step(m: AppModel, key: Key) -> (AppModel, Seq<ClientEffect>) {
    match m.screen {
        ScreenModel::Login(l) => login_step(m, l, key),
        ScreenModel::Lobby(l) => if key == Key::Char('q') {
            (AppModel { should_quit: true, ..m }, Seq::empty())
        } else {
            lobby_step(m, l, key)
        },
        ScreenModel::Table(t) => if key == Key::Char('q') {
            (AppModel { should_quit: true, ..m }, Seq::empty())
        } else {
            table_step(m, t, key)
        },
    }
}

} // verus!

verus! {

impl ClientApp {
    /// Hands out the next request identifier.
    pub fn next_request_id(&mut self) -> (id: u64)
        ensures
            id == following_id(old(self).last_request_id),
            final(self)@ == (AppModel { last_request_id: id, ..old(self)@ }),
    {
        self.last_request_id = if self.last_request_id == u64::MAX { 0 } else { self.last_request_id + 1 };
        self.last_request_id
    }
}

fn send_to_current(app: &ClientApp, kind: RequestKind, request_id: u64) -> (v: Vec<ClientEffect>)
    ensures
        v@ == to_current_table(app@, kind, request_id),
{
    let mut v: Vec<ClientEffect> = Vec::new();
    if app.connected {
        match &app.current_table_id {
            Some(t) => {
                v.push(ClientEffect::Send(Outgoing { kind, table_id: t.clone(), request_id }));
            },
            None => {},
        }
    }
    assert(v@ =~= to_current_table(app@, kind, request_id));
    v
}

fn request_exec(app: &mut ClientApp, kind: RequestKind) -> (v: Vec<ClientEffect>)
    ensures
        (final(app)@, v@) == request(old(app)@, kind),
{
    let id = app.next_request_id();
    send_to_current(app, kind, id)
}

fn login_key(app: &mut ClientApp, key: Key) -> (v: Vec<ClientEffect>)
    requires
        old(app)@.screen is Login,
    ensures
        (final(app)@, v@) == login_step(old(app)@, old(app)@.screen->Login_0, key),
{
    let ghost m = app@;
    match key {
        Key::Tab | Key::BackTab => {
            if let Screen::Login(l) = &mut app.screen {
                l.active_field = match l.active_field {
                    LoginField::Username => LoginField::Password,
                    LoginField::Password => LoginField::Username,
                };
            }
            Vec::new()
        },
        Key::Char(c) => {
            if let Screen::Login(l) = &mut app.screen {
                match l.active_field {
                    LoginField::Username => push_char(&mut l.username, c),
                    LoginField::Password => push_char(&mut l.password, c),
                }
            }
            Vec::new()
        },
        Key::Backspace => {
            if let Screen::Login(l) = &mut app.screen {
                match l.active_field {
                    LoginField::Username => pop_char(&mut l.username),
                    LoginField::Password => pop_char(&mut l.password),
                }
            }
            Vec::new()
        },
        Key::Enter => {
            let filled = match &app.screen {
                Screen::Login(l) => !l.username.as_str().is_empty() && !l.password.as_str().is_empty(),
                _ => false,
            };
            if filled {
                if let Screen::Login(l) = &mut app.screen {
                    app.username = l.username.clone();
                    app.password = l.password.clone();
                    l.status = LoginStatus::Connecting;
                }
                let mut v: Vec<ClientEffect> = Vec::new();
                v.push(ClientEffect::Connect);
                assert(v@ =~= seq![ClientEffect::Connect]);
                v
            } else {
                Vec::new()
            }
        },
        Key::Esc => {
            app.should_quit = true;
            Vec::new()
        },
        _ => Vec::new(),
    }
}

} // verus!

verus! {

fn lobby_key(app: &mut ClientApp, key: Key) -> (v: Vec<ClientEffect>)
    requires
        old(app)@.screen is Lobby,
    ensures
        (final(app)@, v@) == lobby_step(old(app)@, old(app)@.screen->Lobby_0, key),
{
    let ghost m = app@;
    match key {
        Key::Up => {
            if let Screen::Lobby(l) = &mut app.screen {
                if l.selected > 0 {
                    l.selected = l.selected - 1;
                }
            }
            Vec::new()
        },
        Key::Down => {
            if let Screen::Lobby(l) = &mut app.screen {
                if l.selected < l.tables.len() && l.selected + 1 < l.tables.len() {
                    l.selected = l.selected + 1;
                }
            }
            Vec::new()
        },
        Key::Enter => {
            let chosen = match &app.screen {
                Screen::Lobby(l) => if l.selected < l.tables.len() && l.tables[l.selected].is_joinable {
                    let t = &l.tables[l.selected];
                    Some((t.id.clone(), t.min_bet, t.max_bet))
                } else {
                    None
                },
                _ => None,
            };
            match chosen {
                None => Vec::new(),
                Some((table_id, min_bet, max_bet)) => {
                    app.table_min_bet = min_bet;
                    app.table_max_bet = max_bet;
                    app.current_table_id = Some(table_id.clone());
                    let id = app.next_request_id();
                    let mut v: Vec<ClientEffect> = Vec::new();
                    if app.connected {
                        v.push(ClientEffect::Send(Outgoing { kind: RequestKind::JoinTable, table_id, request_id: id }));
                    }
                    assert(v@ =~= lobby_step(m, m.screen->Lobby_0, key).1);
                    v
                },
            }
        },
        _ => Vec::new(),
    }
}

fn betting_key(app: &mut ClientApp, key: Key) -> (v: Vec<ClientEffect>)
    requires
        key == Key::Right ==> (old(app).betting matches Some(b) ==> b.current_bet + b.step <= u32::MAX),
    ensures
        (final(app)@, v@) == betting_step(old(app)@, key),
{
    let b = match app.betting {
        Some(b) => b,
        None => return Vec::new(),
    };
    match key {
        Key::Left => {
            let lowered = b.current_bet.saturating_sub(b.step);
            let bet = if lowered >= b.min_bet { lowered } else { b.min_bet };
            app.betting = Some(Betting { current_bet: bet, ..b });
            Vec::new()
        },
        Key::Right => {
            let raised = b.current_bet + b.step;
            let bet = if raised <= b.max_bet { raised } else { b.max_bet };
            app.betting = Some(Betting { current_bet: bet, ..b });
            Vec::new()
        },
        Key::Enter => {
            let amount = b.current_bet;
            app.betting = Some(Betting { confirmed: true, ..b });
            request_exec(app, RequestKind::PlaceBet(amount))
        },
        _ => Vec::new(),
    }
}

/// Back to an empty lobby.
fn go_to_lobby(app: &mut ClientApp)
    ensures
        final(app)@ == back_to_lobby(old(app)@),
{
    app.screen = Screen::Lobby(LobbyScreen { selected: 0, tables: Vec::new() });
    app.betting = None;
    assert(app@.screen == ScreenModel::Lobby(LobbyModel { selected: 0, tables: Seq::empty() }));
}

fn table_key(app: &mut ClientApp, key: Key) -> (v: Vec<ClientEffect>)
    requires
        old(app)@.screen is Table,
        !raise_overflows(old(app)@, key),
    ensures
        (final(app)@, v@) == table_step(old(app)@, old(app)@.screen->Table_0, key),
{
    let (phase, is_observer, showing) = match &app.screen {
        Screen::Table(t) => (t.phase, t.is_observer, t.round_result.is_some()),
        _ => (GamePhase::Waiting, false, false),
    };
    // If the outcome is shown, any key dismisses it.
    if showing {
        if let Screen::Table(t) = &mut app.screen {
            t.round_result = None;
        }
        return Vec::new();
    }
    if key == Key::Char('l') {
        if is_observer {
            // An observer leaves the table and goes back to the lobby.
            let v = request_exec(app, RequestKind::LeaveTable);
            app.current_table_id = None;
            go_to_lobby(app);
            return v;
        } else {
            // A seated or waiting player goes back to observing.
            return request_exec(app, RequestKind::LeaveSeat);
        }
    }
    if is_observer {
        if key == Key::Char('t') {
            return request_exec(app, RequestKind::TakeSeat);
        }
        return Vec::new();
    }
    if phase == GamePhase::Betting {
        return betting_key(app, key);
    }
    if phase == GamePhase::PlayerTurn {
        match key {
            Key::Char('h') => request_exec(app, RequestKind::Hit),
            Key::Char('s') => request_exec(app, RequestKind::Stand),
            Key::Char('d') => request_exec(app, RequestKind::DoubleDown),
            _ => Vec::new(),
        }
    } else {
        Vec::new()
    }
}

/// Handles a key press; gives the requests to send, in order.
pub fn handle_key(app: &mut ClientApp, key: Key) -> (v: Vec<ClientEffect>)
    requires
        !raise_overflows(old(app)@, key),
    ensures
        (final(app)@, v@) == key_step(old(app)@, key),
{
    if key == Key::Char('q') {
        // 'q' is typed, not obeyed, in the login fields.
        if let Screen::Login(_) = &app.screen {
            return login_key(app, key);
        }
        app.should_quit = true;
        return Vec::new();
    }
    match &app.screen {
        Screen::Login(_) => login_key(app, key),
        Screen::Lobby(_) => lobby_key(app, key),
        Screen::Table(_) => table_key(app, key),
    }
}

} // verus!
