# poker_domain

The domain logic of an event-sourced poker system, written in Verus and
proved against its contracts: the player bankroll aggregate, the
reservation aggregate and process manager that drive buy-ins, rebuys and
tournament registrations, the hand-flow state machine and process manager,
the player-to-table saga, and the projections that render events as log
lines.

The player aggregate handles only the bankroll primitives (register,
deposit, withdraw, reserve, release, deduct, transfer, and the answer to a
rejected join). The buy-in, rebuy and registration lifecycles belong to the
reservation aggregate and its process manager, which turn each lifecycle
step into a reserve, deduct or release on the player's bankroll; there are
no lifecycle handlers on the player aggregate.

## Layout

- `src/` — the verified library.
  - `messages.rs`, `hand_messages.rs`, `flow_messages.rs`, `envelope.rs` —
    commands, events and the books that carry them.
  - `player_state.rs`, `player_handlers.rs`, `player_aggregate.rs`,
    `player_errors.rs`, `player_laws.rs` — the bankroll aggregate, its
    rejections, and the invariant every accepted command keeps.
  - `reservation_agg.rs`, `reservation_pm.rs`, `aggregate_views.rs`,
    `flow_pms.rs` — reservations and the flows that reserve, deduct and
    release funds.
  - `hand_machine.rs`, `hand_process.rs`, `hand_flow_pm.rs` — seats, betting
    rounds and the hand's progress from deal to award.
  - `player_saga.rs` — table facts raised from player events.
  - `pretty.rs`, `projection.rs`, `game_log.rs`, `decimal.rs`, `hexfmt.rs`,
    `text.rs`, `keyed.rs` — rendering and the small collections and text
    routines it rests on.
- `tests/` — tests on concrete values, run against the compiled library.
- `app/` — the I/O around the library: the SQLite store and stdout sink of
  the pretty projector, and the file-backed game log.
