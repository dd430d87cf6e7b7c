//! Verified core of a persistent, turn-based chess service: game records,
//! deduplicated position snapshots, an append-only move ledger and the state
//! machine that applies moves and resignations to a game.
//!
//! The chess rules are the work of the `pleco` engine, which stands behind
//! the statements of `rules`; `fen` guards its parser and `board` wraps its
//! positions. `model` is the mathematical model of the store and of the
//! state machine, `invariants` and `laws` hold what is proved of it, and
//! `database` and `game` are the executable store and state machine, proved
//! to do what the model says. The remaining modules show games and boards
//! as text and as HTML.

pub mod text;
pub mod game_status;
pub mod game_winner;
pub mod game_outcome;
pub mod fen;
pub mod rules;
pub mod board;
pub mod records;
pub mod model;
pub mod invariants;
pub mod position;
pub mod database;
pub mod game;
pub mod laws;
pub mod ident;
pub mod html;
pub mod api_game;
pub mod api_game_item;
pub mod api_game_board;
pub mod api_board;
pub mod request;
