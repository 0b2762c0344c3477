//! Poker domain logic: player bankroll aggregate, reservation lifecycle
//! aggregate and process managers, hand-flow state machine, and the
//! observability text rendering of poker events.

pub mod aggregate_views;
pub mod decimal;
pub mod envelope;
pub mod flow_messages;
pub mod flow_pms;
pub mod game_log;
pub mod hand_flow_pm;
pub mod hand_machine;
pub mod hand_messages;
pub mod hand_process;
pub mod hexfmt;
pub mod keyed;
pub mod messages;
pub mod player_aggregate;
pub mod player_errors;
pub mod player_handlers;
pub mod player_laws;
pub mod player_saga;
pub mod player_state;
pub mod projection;
pub mod pretty;
pub mod rejection;
pub mod reservation_agg;
pub mod reservation_pm;
pub mod text;
