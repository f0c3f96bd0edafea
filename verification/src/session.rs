//! The stateful session layer: one game's aggregate, the registry keyed by
//! id, and the protocol that validates and applies a move.
//!
//! A session holds a position and two parallel move histories (UCI and SAN
//! text). Its invariant ties them together: the position is exactly what the
//! rules engine reaches by replaying the recorded moves from the position
//! the session was created with, and every recorded move was legal where it
//! was played. A move is recorded if and only if it was legally applied; any
//! failure leaves the registry unchanged.

use vstd::prelude::*;

use std::collections::HashMap;

use crate::engine;
use crate::status::{status_of, spec_status_of, GameStatus};

verus! {

broadcast use vstd::std_specs::hash::group_hash_axioms;

/// The errors the service can signal. `NotFound` is an unknown session id;
/// `BadRequest` is malformed FEN or UCI text; `IllegalMove` is well-formed
/// UCI text naming no legal move in the current position; `Internal` is
/// reserved for invariant violations and is never produced here.
#[derive(Debug)]
pub enum ApiError {
    NotFound,
    BadRequest(String),
    IllegalMove(String),
    Internal,
}

/// One game: its current position and the histories of the moves applied so
/// far, as UCI and as SAN text. The ghost fields record the creating
/// position and the applied moves, so the invariant can speak of replay.
pub struct GameEntry {
    pub pos: shakmaty::Chess,
    pub history_uci: Vec<String>,
    pub history_san: Vec<String>,
    pub init: Ghost<shakmaty::Chess>,
    pub ucis: Ghost<Seq<shakmaty::uci::UciMove>>,
    pub moves: Ghost<Seq<shakmaty::Move>>,
}

impl GameEntry {
    /// The session invariant: histories and recorded moves run in parallel;
    /// the position is the engine's replay of the recorded moves from the
    /// creating position; each recorded move resolved from its recorded UCI
    /// descriptor and was legal where it was played, and the history texts
    /// are exactly the engine's renderings.
    pub open spec fn wf(self) -> bool {
        &&& self.history_uci@.len() == self.moves@.len()
        &&& self.history_san@.len() == self.moves@.len()
        &&& self.ucis@.len() == self.moves@.len()
        &&& engine::is_standard(self.init@)
        &&& engine::is_standard(self.pos)
        &&& self.pos == engine::replay(self.init@, self.moves@)
        &&& forall|i: int|
            0 <= i < self.moves@.len() ==> {
                let before = engine::replay(self.init@, self.moves@.take(i));
                &&& engine::uci_resolution(before, self.ucis@[i]) == Option::Some(
                    #[trigger] self.moves@[i],
                )
                &&& engine::move_is_legal(before, self.moves@[i])
                &&& self.history_uci@[i]@ == engine::uci_text_of(self.ucis@[i])
                &&& self.history_san@[i]@ == engine::san_text_of(before, self.moves@[i])
            }
    }

    /// A fresh session around a position: empty histories.
    pub fn new(pos: shakmaty::Chess) -> (e: GameEntry)
        requires
            engine::is_standard(pos),
        ensures
            e.wf(),
            e.pos == pos,
            e.history_uci@.len() == 0,
            e.history_san@.len() == 0,
    {
        let ghost init_pos = pos;
        GameEntry {
            pos,
            history_uci: Vec::new(),
            history_san: Vec::new(),
            init: Ghost(init_pos),
            ucis: Ghost(Seq::empty()),
            moves: Ghost(Seq::empty()),
        }
    }
}

/// What a successful creation reports: the fresh id and the position's FEN.
#[derive(Debug)]
pub struct CreateGameResponse {
    pub id: u128,
    pub fen: String,
}

/// What a lookup reports: the position's FEN, its legal moves in UCI text,
/// both histories, and the derived status.
#[derive(Debug)]
pub struct GameResponse {
    pub id: u128,
    pub fen: String,
    pub legal_moves: Vec<String>,
    pub moves_uci: Vec<String>,
    pub moves_san: Vec<String>,
    pub status: GameStatus,
}

/// What a successful move application reports: the applied move in both
/// notations, the new position's FEN and legal moves, and the new status.
#[derive(Debug)]
pub struct ApplyMoveResponse {
    pub id: u128,
    pub applied_uci: String,
    pub applied_san: String,
    pub fen: String,
    pub legal_moves: Vec<String>,
    pub status: GameStatus,
}

/// Copies a vector of strings, keeping every character.
fn copy_strings(v: &Vec<String>) -> (r: Vec<String>)
    ensures
        r.deep_view() == v.deep_view(),
{
    let mut r: Vec<String> = Vec::new();
    let mut i: usize = 0;
    while i < v.len()
        invariant
            i <= v.len(),
            r@.len() == i,
            forall|j: int| 0 <= j < i ==> r@[j] == v@[j],
        decreases v.len() - i,
    {
        r.push(v[i].clone());
        i = i + 1;
    }
    proof {
        assert(r.deep_view() =~= v.deep_view());
    }
    r
}

/// Builds the full report on one session.
fn game_response(id: u128, entry: &GameEntry) -> (r: GameResponse)
    requires
        entry.wf(),
    ensures
        r.id == id,
        r.fen@ == engine::fen_text_of(entry.pos),
        r.legal_moves.deep_view() == engine::legal_uci_of(entry.pos),
        r.moves_uci.deep_view() == entry.history_uci.deep_view(),
        r.moves_san.deep_view() == entry.history_san.deep_view(),
        r.status == spec_status_of(entry.pos),
        r.status is Checkmate ==> r.legal_moves@.len() == 0,
        engine::fen_decode(r.fen@) is Some,
        engine::legal_uci_of(engine::fen_decode(r.fen@)->Some_0) == engine::legal_uci_of(
            entry.pos,
        ),
{
    GameResponse {
        id,
        fen: engine::fen_of(&entry.pos),
        legal_moves: engine::legal_moves_text(&entry.pos),
        moves_uci: copy_strings(&entry.history_uci),
        moves_san: copy_strings(&entry.history_san),
        status: status_of(&entry.pos),
    }
}

/// The registry of sessions: a map from id to game, created empty, grown by
/// `create_game`, shrunk by `delete_game`, never expiring on its own.
pub struct SessionStore {
    games: HashMap<u128, GameEntry>,
}

impl View for SessionStore {
    type V = Map<u128, GameEntry>;

    closed spec fn view(&self) -> Map<u128, GameEntry> {
        self.games@
    }
}

impl SessionStore {
    /// Every registered session satisfies its invariant.
    pub open spec fn wf(self) -> bool {
        forall|k: u128| #[trigger] self@.dom().contains(k) ==> self@[k].wf()
    }

    /// The empty registry.
    pub fn new() -> (s: SessionStore)
        ensures
            s.wf(),
            s@ == Map::<u128, GameEntry>::empty(),
    {
        SessionStore { games: HashMap::new() }
    }

    /// Creates a session. Without FEN text the game starts from the standard
    /// initial position; with FEN text, from the position it decodes to, and
    /// text that decodes to none is rejected with `BadRequest` and leaves
    /// the registry unchanged. On success the registry maps the returned
    /// (randomly drawn) id to the fresh session and is otherwise unchanged,
    /// and the reported FEN is the engine's encoding of the new position.
    pub fn create_game(&mut self, fen: Option<String>) -> (r: Result<CreateGameResponse, ApiError>)
        requires
            old(self).wf(),
        ensures
            final(self).wf(),
            (r is Err) <==> (fen matches Some(f) && engine::fen_decode(f@) is None),
            r matches Err(e) ==> e is BadRequest && final(self)@ == old(self)@,
            r matches Ok(resp) ==> ({
                let p = (match fen {
                    Option::Some(f) => engine::fen_decode(f@)->Some_0,
                    Option::None => engine::initial_position(),
                });
                &&& final(self)@ == old(self)@.insert(resp.id, final(self)@[resp.id])
                &&& final(self)@.contains_key(resp.id)
                &&& final(self)@[resp.id].pos == p
                &&& final(self)@[resp.id].history_uci@.len() == 0
                &&& final(self)@[resp.id].history_san@.len() == 0
                &&& resp.fen@ == engine::fen_text_of(p)
                &&& engine::fen_decode(resp.fen@) is Some
                &&& engine::legal_uci_of(engine::fen_decode(resp.fen@)->Some_0)
                    == engine::legal_uci_of(p)
            }),
    {
        let pos = match &fen {
            Option::Some(f) => {
                match engine::decode_fen(f.as_str()) {
                    Option::Some(p) => p,
                    Option::None => {
                        return Result::Err(ApiError::BadRequest("invalid FEN".to_owned()));
                    },
                }
            },
            Option::None => engine::start_position(),
        };
        let id = engine::fresh_id();
        let fen_text = engine::fen_of(&pos);
        let entry = GameEntry::new(pos);
        self.games.insert(id, entry);
        proof {
            assert(self@ == old(self)@.insert(id, entry));
            assert forall|k: u128| #[trigger] self@.dom().contains(k) implies self@[k].wf() by {
                if k != id {
                    assert(old(self)@.dom().contains(k));
                }
            };
        }
        Result::Ok(CreateGameResponse { id, fen: fen_text })
    }

    /// Looks a session up, read-only: the full report if the id is
    /// registered, `NotFound` otherwise. Decoding the reported FEN always
    /// succeeds and yields a position with exactly the session's legal
    /// moves.
    pub fn get_game(&self, id: u128) -> (r: Result<GameResponse, ApiError>)
        requires
            self.wf(),
        ensures
            (r is Ok) <==> self@.contains_key(id),
            r matches Err(e) ==> e is NotFound,
            r matches Ok(resp) ==> ({
                let entry = self@[id];
                &&& resp.id == id
                &&& resp.fen@ == engine::fen_text_of(entry.pos)
                &&& resp.legal_moves.deep_view() == engine::legal_uci_of(entry.pos)
                &&& resp.moves_uci.deep_view() == entry.history_uci.deep_view()
                &&& resp.moves_san.deep_view() == entry.history_san.deep_view()
                &&& resp.status == spec_status_of(entry.pos)
                &&& (resp.status is Checkmate ==> resp.legal_moves@.len() == 0)
                &&& engine::fen_decode(resp.fen@) is Some
                &&& engine::legal_uci_of(engine::fen_decode(resp.fen@)->Some_0)
                    == engine::legal_uci_of(entry.pos)
            }),
    {
        match self.games.get(&id) {
            Option::Some(entry) => Result::Ok(game_response(id, entry)),
            Option::None => Result::Err(ApiError::NotFound),
        }
    }

    /// Lists the legal moves of a session's position, in UCI text.
    pub fn list_legal_moves(&self, id: u128) -> (r: Result<Vec<String>, ApiError>)
        requires
            self.wf(),
        ensures
            (r is Ok) <==> self@.contains_key(id),
            r matches Err(e) ==> e is NotFound,
            r matches Ok(moves) ==> moves.deep_view() == engine::legal_uci_of(self@[id].pos),
    {
        match self.games.get(&id) {
            Option::Some(entry) => Result::Ok(engine::legal_moves_text(&entry.pos)),
            Option::None => Result::Err(ApiError::NotFound),
        }
    }

    /// Deletes a session: the registry afterwards maps every id but this one
    /// as before. Deleting an unregistered id signals `NotFound`, so a
    /// second delete of the same id, or a fetch after a delete, finds
    /// nothing.
    pub fn delete_game(&mut self, id: u128) -> (r: Result<(), ApiError>)
        requires
            old(self).wf(),
        ensures
            final(self).wf(),
            final(self)@ == old(self)@.remove(id),
            (r is Ok) <==> old(self)@.contains_key(id),
            r matches Err(e) ==> e is NotFound,
    {
        let removed = self.games.remove(&id);
        proof {
            assert forall|k: u128| #[trigger] self@.dom().contains(k) implies self@[k].wf() by {
                assert(old(self)@.dom().contains(k));
            };
        }
        match removed {
            Option::Some(_) => Result::Ok(()),
            Option::None => Result::Err(ApiError::NotFound),
        }
    }

    /// Validates and applies one move, atomically with respect to failure.
    ///
    /// An unregistered id signals `NotFound`; text outside the UCI grammar
    /// signals `BadRequest`; a descriptor that resolves to no legal move in
    /// the session's position signals `IllegalMove`; each failure leaves the
    /// registry unchanged, byte for byte. On success, and only then, the
    /// move is recorded: the SAN rendering is taken against the pre-move
    /// position, both histories grow by exactly this move, the position
    /// becomes the engine's result of playing it, every other session is
    /// untouched, and the report carries the applied move in both notations
    /// with the new position's FEN, legal moves and status.
    pub fn apply_move(&mut self, id: u128, uci: String) -> (r: Result<ApplyMoveResponse, ApiError>)
        requires
            old(self).wf(),
        ensures
            final(self).wf(),
            !old(self)@.contains_key(id) ==> (r is Err && r->Err_0 is NotFound && final(self)@
                == old(self)@),
            old(self)@.contains_key(id) && engine::uci_parse(uci@) is None ==> (r is Err
                && r->Err_0 is BadRequest && final(self)@ == old(self)@),
            old(self)@.contains_key(id) && engine::uci_parse(uci@) is Some && engine::uci_resolution(
                old(self)@[id].pos,
                engine::uci_parse(uci@)->Some_0,
            ) is None ==> (r is Err && r->Err_0 is IllegalMove && final(self)@ == old(self)@),
            old(self)@.contains_key(id) && engine::uci_parse(uci@) is Some && engine::uci_resolution(
                old(self)@[id].pos,
                engine::uci_parse(uci@)->Some_0,
            ) is Some ==> ({
                let e0 = old(self)@[id];
                let u = engine::uci_parse(uci@)->Some_0;
                let m = engine::uci_resolution(e0.pos, u)->Some_0;
                let p1 = engine::play_of(e0.pos, m);
                let resp = r->Ok_0;
                &&& r is Ok
                &&& final(self)@ == old(self)@.insert(id, final(self)@[id])
                &&& final(self)@[id].pos == p1
                &&& final(self)@[id].history_uci.deep_view() == e0.history_uci.deep_view().push(
                    engine::uci_text_of(u),
                )
                &&& final(self)@[id].history_san.deep_view() == e0.history_san.deep_view().push(
                    engine::san_text_of(e0.pos, m),
                )
                &&& resp.id == id
                &&& resp.applied_uci@ == uci@
                &&& resp.applied_san@ == engine::san_text_of(e0.pos, m)
                &&& resp.fen@ == engine::fen_text_of(p1)
                &&& resp.legal_moves.deep_view() == engine::legal_uci_of(p1)
                &&& resp.status == spec_status_of(p1)
                &&& (resp.status is Checkmate ==> resp.legal_moves@.len() == 0)
                &&& engine::fen_decode(resp.fen@) is Some
                &&& engine::legal_uci_of(engine::fen_decode(resp.fen@)->Some_0)
                    == engine::legal_uci_of(p1)
            }),
    {
        let entry_ref = match self.games.get(&id) {
            Option::Some(e) => e,
            Option::None => {
                return Result::Err(ApiError::NotFound);
            },
        };
        let u = match engine::parse_uci(uci.as_str()) {
            Option::Some(u) => u,
            Option::None => {
                return Result::Err(ApiError::BadRequest("invalid UCI".to_owned()));
            },
        };
        let m = match engine::resolve_uci(&entry_ref.pos, u) {
            Option::Some(m) => m,
            Option::None => {
                return Result::Err(ApiError::IllegalMove("illegal move".to_owned()));
            },
        };
        proof {
            assert(self@.contains_key(id));
            assert(*entry_ref == self@[id]);
        }
        let san = engine::san_of(&entry_ref.pos, m);
        let new_pos = engine::play_move(&entry_ref.pos, m);
        let uci_rendered = engine::uci_to_text(u);
        let fen_text = engine::fen_of(&new_pos);
        let legal = engine::legal_moves_text(&new_pos);
        let status = status_of(&new_pos);
        let san_resp = san.clone();
        let ghost e0 = old(self)@[id];
        let mut entry = self.games.remove(&id).unwrap();
        entry.pos = new_pos;
        entry.history_uci.push(uci_rendered);
        entry.history_san.push(san);
        entry.ucis = Ghost(entry.ucis@.push(u));
        entry.moves = Ghost(entry.moves@.push(m));
        proof {
            engine::lemma_replay_snoc(e0.init@, e0.moves@, m);
            assert(e0.moves@.take(e0.moves@.len() as int) =~= e0.moves@);
            assert forall|i: int| 0 <= i < entry.moves@.len() implies {
                let before = engine::replay(entry.init@, entry.moves@.take(i));
                &&& engine::uci_resolution(before, entry.ucis@[i]) == Option::Some(
                    #[trigger] entry.moves@[i],
                )
                &&& engine::move_is_legal(before, entry.moves@[i])
                &&& entry.history_uci@[i]@ == engine::uci_text_of(entry.ucis@[i])
                &&& entry.history_san@[i]@ == engine::san_text_of(before, entry.moves@[i])
            } by {
                if i < e0.moves@.len() {
                    assert(entry.moves@.take(i) =~= e0.moves@.take(i));
                    assert(e0.moves@[i] == entry.moves@[i]);
                } else {
                    assert(entry.moves@.take(i) =~= e0.moves@);
                }
            };
            assert(entry.wf());
        }
        self.games.insert(id, entry);
        proof {
            assert(self@ =~= old(self)@.insert(id, entry));
            assert forall|k: u128| #[trigger] self@.dom().contains(k) implies self@[k].wf() by {
                if k != id {
                    assert(old(self)@.dom().contains(k));
                }
            };
            assert(entry.history_uci.deep_view() =~= e0.history_uci.deep_view().push(
                engine::uci_text_of(u),
            ));
            assert(entry.history_san.deep_view() =~= e0.history_san.deep_view().push(
                engine::san_text_of(e0.pos, m),
            ));
        }
        Result::Ok(
            ApplyMoveResponse {
                id,
                applied_uci: uci,
                applied_san: san_resp,
                fen: fen_text,
                legal_moves: legal,
                status,
            },
        )
    }
}

/// Deleting an id removes it for good: the registry after a delete does not
/// contain the id, so a fetch or a second delete of the same id finds
/// nothing.
pub proof fn lemma_delete_then_probe(m: Map<u128, GameEntry>, id: u128)
    ensures
        !m.remove(id).contains_key(id),
        m.remove(id).remove(id) == m.remove(id),
{
    assert(m.remove(id).remove(id) =~= m.remove(id));
}

} // verus!
