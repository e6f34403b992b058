//! A chess game session for a board front end.
//!
//! The rules of chess are the engine's business: legal moves, check, mate and
//! draws come from `owlchess`. This crate owns what lies between a front end
//! and that engine: the translation between the cells of a displayed grid and
//! the squares of the board, the text of a move request, the detection of a
//! pawn that is about to promote, the two-step submission of a move, and the
//! classification of a finished game. It also picks the language of the
//! front end's texts and fills their placeholders.

pub mod coords;
pub mod engine;
pub mod fen;
pub mod game;
pub mod locale;
pub mod position;

pub use game::{Game, MoveResult, Outcome, PendingPromotion};
