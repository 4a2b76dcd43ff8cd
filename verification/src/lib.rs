//! An adversarial-search engine for two-player, zero-sum,
//! perfect-information games.
//!
//! The `ai` module holds the abstract game-state contract and the
//! minimax (negamax) search engine, the only part with real
//! algorithmic content.  The `tictac` module plugs a 3x3 board game
//! into that contract; `old_checkers` holds an early board sketch of
//! a draughts position.

pub mod ai;
pub mod old_checkers;
pub mod tictac;
