//! Derivation of the user-facing game status from a position.
//!
//! The status is a pure function of the position, recomputed on every read
//! and never stored: the engine's outcome classification is mapped to
//! `Ongoing`, `Checkmate`, `Stalemate` or `Draw`.

use vstd::prelude::*;

use crate::engine;

verus! {

/// One of the two sides of a game.
#[derive(Clone, Copy, Debug, PartialEq, Eq, Structural)]
pub enum SideToMove {
    White,
    Black,
}

/// The engine's outcome classification: the game goes on, one side has won,
/// or the game is drawn.
#[derive(Clone, Copy, Debug, PartialEq, Eq, Structural)]
pub enum EngineOutcome {
    Ongoing,
    Decisive { winner: SideToMove },
    Drawn,
}

/// The status reported to clients.
#[derive(Clone, Copy, Debug, PartialEq, Eq, Structural)]
pub enum GameStatus {
    Ongoing { to_move: SideToMove, in_check: bool },
    Checkmate { winner: SideToMove },
    Stalemate,
    Draw,
}

/// The status of a position: an undecided outcome reports whose turn it is
/// and whether that side is in check; a decisive outcome is a checkmate,
/// credited to the winner; a drawn outcome is a stalemate exactly when the
/// position is one, any other draw stays unclassified.
pub open spec fn spec_status_of(p: shakmaty::Chess) -> GameStatus {
    match engine::engine_outcome_of(p) {
        EngineOutcome::Ongoing => GameStatus::Ongoing {
            to_move: engine::side_of(p),
            in_check: engine::check_of(p),
        },
        EngineOutcome::Decisive { winner } => GameStatus::Checkmate { winner },
        EngineOutcome::Drawn => if engine::stalemate_of(p) {
            GameStatus::Stalemate
        } else {
            GameStatus::Draw
        },
    }
}

/// Computes the status of a position. A checkmated position has no legal
/// moves at all, and the mate is credited to the side that delivered it,
/// never to the side left without moves.
pub fn status_of(p: &shakmaty::Chess) -> (s: GameStatus)
    ensures
        s == spec_status_of(*p),
        s is Checkmate ==> engine::legal_uci_of(*p).len() == 0,
        s matches GameStatus::Checkmate { winner } ==> winner != engine::side_of(*p),
{
    match engine::outcome_of(p) {
        EngineOutcome::Ongoing => GameStatus::Ongoing {
            to_move: engine::turn_of(p),
            in_check: engine::in_check(p),
        },
        EngineOutcome::Decisive { winner } => GameStatus::Checkmate { winner },
        EngineOutcome::Drawn => {
            if engine::is_stalemate(p) {
                GameStatus::Stalemate
            } else {
                GameStatus::Draw
            }
        },
    }
}

} // verus!
