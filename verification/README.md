# blackjack

A multiplayer blackjack table, verified with Verus.

`src/` is the verified library:

- `cards` — ranks, suits, cards, hands and their values (aces count one or eleven).
- `shoe` — the six-deck shoe, ordered or shuffled (the shuffle keeps every card).
- `ids` — player, dealer, game, table and command identifiers (ULIDs), seats.
- `phase`, `error`, `event` — round phases, refusals, and the events commands produce.
- `state` — the round: shoe, players, dealer, phase; how each event changes it.
- `commands` — hit, stand, double down, place a bet, settle; each with the rule it follows.
- `laws` — what holds across commands and events (stakes move from balance to bet,
  a hit deals exactly the next card, settlement pays each stake once, the session
  never touches a table before authentication, ...).
- `session` — the server side of one WebSocket connection as a state machine.
- `client`, `popup` — the terminal client's key handling and its "your turn" popup.

`app/` holds what Verus does not see: the axum WebSocket endpoint that runs the
session, the serde forms of the protocol, crossterm key codes, and ratatui drawing.
