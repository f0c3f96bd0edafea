//! Trusted boundary to the rules engine (the `shakmaty` crate) and to the
//! id generator (the `uuid` crate).
//!
//! The engine is deterministic and pure: the same position and the same move
//! always give the same answer. Its answers are therefore given names
//! (`uninterp spec fn`s) here, and each wrapper promises only that the call
//! returns the named value, plus the few facts about those values that the
//! session layer needs and that the engine's source plainly shows.

use vstd::prelude::*;

use crate::status::{EngineOutcome, SideToMove};
use shakmaty::Position;

verus! {

#[verifier::external_type_specification]
#[verifier::external_body]
pub struct ExChess(shakmaty::Chess);

#[verifier::external_type_specification]
#[verifier::external_body]
pub struct ExMove(shakmaty::Move);

#[verifier::external_type_specification]
#[verifier::external_body]
pub struct ExUciMove(shakmaty::uci::UciMove);

/// The FEN text that the engine writes for a position, with the
/// legal-en-passant disclosure rule.
pub uninterp spec fn fen_text_of(p: shakmaty::Chess) -> Seq<char>;

/// The position that the engine reads back from FEN text under standard
/// castling rules, if the text is well formed and the position valid.
pub uninterp spec fn fen_decode(s: Seq<char>) -> Option<shakmaty::Chess>;

/// The structured move descriptor that the engine reads from UCI text, if the
/// text matches the UCI grammar.
pub uninterp spec fn uci_parse(s: Seq<char>) -> Option<shakmaty::uci::UciMove>;

/// The UCI text that the engine writes for a move descriptor.
pub uninterp spec fn uci_text_of(u: shakmaty::uci::UciMove) -> Seq<char>;

/// The concrete legal move that a descriptor resolves to in a position, if
/// any move of that position matches it.
pub uninterp spec fn uci_resolution(p: shakmaty::Chess, u: shakmaty::uci::UciMove) -> Option<
    shakmaty::Move,
>;

/// Whether a move is legal in a position.
pub uninterp spec fn move_is_legal(p: shakmaty::Chess, m: shakmaty::Move) -> bool;

/// The position reached by playing a move.
pub uninterp spec fn play_of(p: shakmaty::Chess, m: shakmaty::Move) -> shakmaty::Chess;

/// The SAN text of a move, written against the position it is played from.
pub uninterp spec fn san_text_of(p: shakmaty::Chess, m: shakmaty::Move) -> Seq<char>;

/// The legal moves of a position, each as UCI text, in the engine's order.
pub uninterp spec fn legal_uci_of(p: shakmaty::Chess) -> Seq<Seq<char>>;

/// The engine's outcome classification of a position.
pub uninterp spec fn engine_outcome_of(p: shakmaty::Chess) -> EngineOutcome;

/// The side to move in a position.
pub uninterp spec fn side_of(p: shakmaty::Chess) -> SideToMove;

/// Whether the side to move is in check.
pub uninterp spec fn check_of(p: shakmaty::Chess) -> bool;

/// Whether the position is a stalemate.
pub uninterp spec fn stalemate_of(p: shakmaty::Chess) -> bool;

/// Whether the position carries standard castling rules (as opposed to
/// Chess960 ones). Every position this library builds does.
pub uninterp spec fn is_standard(p: shakmaty::Chess) -> bool;

/// The FEN text of the standard initial position.
pub open spec fn start_fen() -> Seq<char> {
    "rnbqkbnr/pppppppp/8/8/8/8/PPPPPPPP/RNBQKBNR w KQkq - 0 1"@
}

/// The standard initial position: what the initial FEN decodes to.
pub open spec fn initial_position() -> shakmaty::Chess {
    fen_decode(start_fen())->Some_0
}

/// Relies on shakmaty's `Chess::default`: the standard initial position,
/// which is also what parsing the standard initial FEN yields.
#[verifier::external_body]
pub(crate) fn start_position() -> (p: shakmaty::Chess)
    ensures
        fen_decode(start_fen()) == Option::Some(p),
        is_standard(p),
{
    shakmaty::Chess::default()
}

/// Relies on shakmaty's `Fen::from_str` and `Fen::into_position` with
/// standard castling rules: together they read a position from FEN text,
/// failing exactly on ill-formed text or an invalid position.
#[verifier::external_body]
pub(crate) fn decode_fen(s: &str) -> (r: Option<shakmaty::Chess>)
    ensures
        r == fen_decode(s@),
        r matches Some(p) ==> is_standard(p),
{
    match s.parse::<shakmaty::fen::Fen>() {
        Ok(f) => f.into_position::<shakmaty::Chess>(shakmaty::CastlingMode::Standard).ok(),
        Err(_) => None,
    }
}

/// Relies on shakmaty's `Fen::from_position` with the legal-en-passant mode
/// and its `Display`: the FEN text records the full position, an en-passant
/// square only when capturing it is itself legal, so reading the text back
/// under standard castling rules succeeds and admits exactly the same moves.
#[verifier::external_body]
pub(crate) fn fen_of(p: &shakmaty::Chess) -> (r: String)
    requires
        is_standard(*p),
    ensures
        r@ == fen_text_of(*p),
        fen_decode(r@) is Some,
        is_standard(fen_decode(r@)->Some_0),
        legal_uci_of(fen_decode(r@)->Some_0) == legal_uci_of(*p),
{
    shakmaty::fen::Fen::from_position(p, shakmaty::EnPassantMode::Legal).to_string()
}

/// Relies on shakmaty's `UciMove::from_str`: reads a move descriptor from
/// UCI text, failing exactly on text outside the UCI grammar.
#[verifier::external_body]
pub(crate) fn parse_uci(s: &str) -> (r: Option<shakmaty::uci::UciMove>)
    ensures
        r == uci_parse(s@),
{
    s.parse::<shakmaty::uci::UciMove>().ok()
}

/// Relies on shakmaty's `UciMove` `Display`: writes the descriptor back as
/// UCI text.
#[verifier::external_body]
pub(crate) fn uci_to_text(u: shakmaty::uci::UciMove) -> (r: String)
    ensures
        r@ == uci_text_of(u),
{
    u.to_string()
}

/// Relies on shakmaty's `UciMove::to_move`: resolves the descriptor against
/// a position, returning a move only if that move is legal there.
#[verifier::external_body]
pub(crate) fn resolve_uci(p: &shakmaty::Chess, u: shakmaty::uci::UciMove) -> (r: Option<
    shakmaty::Move,
>)
    ensures
        r == uci_resolution(*p, u),
        r matches Some(m) ==> move_is_legal(*p, m),
{
    u.to_move(p).ok()
}

/// Relies on shakmaty's `San::from_move` and its `Display`: the SAN text of
/// a move against the position it is played from.
#[verifier::external_body]
pub(crate) fn san_of(p: &shakmaty::Chess, m: shakmaty::Move) -> (r: String)
    requires
        move_is_legal(*p, m),
    ensures
        r@ == san_text_of(*p, m),
{
    shakmaty::san::San::from_move(p, m).to_string()
}

/// Relies on shakmaty's `Position::play_unchecked`: playing a legal move is
/// a pure transformation of the position and keeps its castling rules.
#[verifier::external_body]
pub(crate) fn play_move(p: &shakmaty::Chess, m: shakmaty::Move) -> (r: shakmaty::Chess)
    requires
        move_is_legal(*p, m),
    ensures
        r == play_of(*p, m),
        is_standard(r) == is_standard(*p),
{
    let mut q = p.clone();
    q.play_unchecked(m);
    q
}

/// Relies on shakmaty's `Position::legal_moves`, `Move::to_uci` under the
/// position's own castling mode, and `UciMove`'s `Display`: the legal moves
/// of the position, each written as UCI text.
#[verifier::external_body]
pub(crate) fn legal_moves_text(p: &shakmaty::Chess) -> (r: Vec<String>)
    ensures
        r.deep_view() == legal_uci_of(*p),
{
    let mode = p.castles().mode();
    p.legal_moves().iter().map(|m| m.to_uci(mode).to_string()).collect()
}

/// Relies on shakmaty's `Position::outcome`: a decisive outcome is a
/// checkmate, reported exactly when the side to move has no legal moves
/// while in check, so a decisive position has an empty legal-move list and
/// is won by the side that is not to move.
#[verifier::external_body]
pub(crate) fn outcome_of(p: &shakmaty::Chess) -> (r: EngineOutcome)
    ensures
        r == engine_outcome_of(*p),
        r is Decisive ==> legal_uci_of(*p).len() == 0,
        r matches EngineOutcome::Decisive { winner } ==> winner != side_of(*p),
{
    match p.outcome() {
        shakmaty::Outcome::Known(shakmaty::KnownOutcome::Decisive { winner }) => {
            EngineOutcome::Decisive {
                winner: if winner == shakmaty::Color::White {
                    SideToMove::White
                } else {
                    SideToMove::Black
                },
            }
        },
        shakmaty::Outcome::Known(shakmaty::KnownOutcome::Draw) => EngineOutcome::Drawn,
        shakmaty::Outcome::Unknown => EngineOutcome::Ongoing,
    }
}

/// Relies on shakmaty's `Position::turn`: the side to move.
#[verifier::external_body]
pub(crate) fn turn_of(p: &shakmaty::Chess) -> (r: SideToMove)
    ensures
        r == side_of(*p),
{
    if p.turn() == shakmaty::Color::White {
        SideToMove::White
    } else {
        SideToMove::Black
    }
}

/// Relies on shakmaty's `Position::is_check`: whether the side to move is
/// in check.
#[verifier::external_body]
pub(crate) fn in_check(p: &shakmaty::Chess) -> (r: bool)
    ensures
        r == check_of(*p),
{
    p.is_check()
}

/// Relies on shakmaty's `Position::is_stalemate`: whether the side to move
/// has no legal moves while not in check.
#[verifier::external_body]
pub(crate) fn is_stalemate(p: &shakmaty::Chess) -> (r: bool)
    ensures
        r == stalemate_of(*p),
{
    p.is_stalemate()
}

/// Relies on uuid's `Uuid::new_v4` and `Uuid::as_u128`: a freshly drawn
/// random 128-bit identifier. Nothing is promised of a random value.
#[verifier::external_body]
pub(crate) fn fresh_id() -> (r: u128) {
    uuid::Uuid::new_v4().as_u128()
}

/// The position reached by replaying a sequence of moves.
pub open spec fn replay(p: shakmaty::Chess, ms: Seq<shakmaty::Move>) -> shakmaty::Chess
    decreases ms.len(),
{
    if ms.len() == 0 {
        p
    } else {
        replay(play_of(p, ms[0]), ms.skip(1))
    }
}

/// Replaying one more move is playing it from the replayed position.
pub proof fn lemma_replay_snoc(p: shakmaty::Chess, ms: Seq<shakmaty::Move>, m: shakmaty::Move)
    ensures
        replay(p, ms.push(m)) == play_of(replay(p, ms), m),
    decreases ms.len(),
{
    assert(ms.push(m)[0] == if ms.len() == 0 { m } else { ms[0] });
    if ms.len() == 0 {
        assert(ms.push(m).skip(1) =~= Seq::<shakmaty::Move>::empty());
        assert(replay(p, ms.push(m)) == replay(play_of(p, m), Seq::<shakmaty::Move>::empty()));
    } else {
        assert(ms.push(m).skip(1) =~= ms.skip(1).push(m));
        lemma_replay_snoc(play_of(p, ms[0]), ms.skip(1), m);
    }
}

} // verus!
