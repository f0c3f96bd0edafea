use xadrez::session::{ApiError, SessionStore};
use xadrez::status::{GameStatus, SideToMove};

const START_FEN: &str = "rnbqkbnr/pppppppp/8/8/8/8/PPPPPPPP/RNBQKBNR w KQkq - 0 1";
const AFTER_E4_FEN: &str = "rnbqkbnr/pppppppp/8/8/4P3/8/PPPP1PPP/RNBQKBNR b KQkq - 0 1";

#[test]
fn create_default_game_reports_start_position() {
    let mut store = SessionStore::new();
    let created = store.create_game(None).expect("create");
    assert_eq!(created.fen, START_FEN);
    let game = store.get_game(created.id).expect("get");
    assert_eq!(game.id, created.id);
    assert_eq!(game.fen, START_FEN);
    assert_eq!(game.legal_moves.len(), 20);
    assert_eq!(game.moves_uci.len(), 0);
    assert_eq!(game.moves_san.len(), 0);
    assert_eq!(
        game.status,
        GameStatus::Ongoing { to_move: SideToMove::White, in_check: false }
    );
}

#[test]
fn create_with_custom_fen_starts_there() {
    let mut store = SessionStore::new();
    let created = store
        .create_game(Some(AFTER_E4_FEN.to_string()))
        .expect("create");
    assert_eq!(created.fen, AFTER_E4_FEN);
    let game = store.get_game(created.id).expect("get");
    assert_eq!(
        game.status,
        GameStatus::Ongoing { to_move: SideToMove::Black, in_check: false }
    );
}

#[test]
fn create_with_invalid_fen_is_rejected() {
    let mut store = SessionStore::new();
    let r = store.create_game(Some("definitely not a fen".to_string()));
    assert!(matches!(r, Err(ApiError::BadRequest(_))));
}

#[test]
fn unknown_id_is_not_found_everywhere() {
    let mut store = SessionStore::new();
    assert!(matches!(store.get_game(42), Err(ApiError::NotFound)));
    assert!(matches!(store.list_legal_moves(42), Err(ApiError::NotFound)));
    assert!(matches!(store.delete_game(42), Err(ApiError::NotFound)));
    assert!(matches!(
        store.apply_move(42, "e2e4".to_string()),
        Err(ApiError::NotFound)
    ));
}

#[test]
fn malformed_uci_is_rejected() {
    let mut store = SessionStore::new();
    let created = store.create_game(None).expect("create");
    let r = store.apply_move(created.id, "zzzz".to_string());
    assert!(matches!(r, Err(ApiError::BadRequest(_))));
    let game = store.get_game(created.id).expect("get");
    assert_eq!(game.moves_uci.len(), 0);
    assert_eq!(game.fen, START_FEN);
}

#[test]
fn illegal_move_leaves_session_unchanged() {
    let mut store = SessionStore::new();
    let created = store.create_game(None).expect("create");
    let r = store.apply_move(created.id, "e2e5".to_string());
    assert!(matches!(r, Err(ApiError::IllegalMove(_))));
    let game = store.get_game(created.id).expect("get");
    assert_eq!(game.moves_uci.len(), 0);
    assert_eq!(game.moves_san.len(), 0);
    assert_eq!(game.fen, START_FEN);
}

#[test]
fn applying_e2e4_records_one_move() {
    let mut store = SessionStore::new();
    let created = store.create_game(None).expect("create");
    let applied = store
        .apply_move(created.id, "e2e4".to_string())
        .expect("apply");
    assert_eq!(applied.applied_uci, "e2e4");
    assert_eq!(applied.applied_san, "e4");
    assert_eq!(applied.fen, AFTER_E4_FEN);
    assert_eq!(
        applied.status,
        GameStatus::Ongoing { to_move: SideToMove::Black, in_check: false }
    );
    let game = store.get_game(created.id).expect("get");
    assert_eq!(game.moves_uci, vec!["e2e4".to_string()]);
    assert_eq!(game.moves_san, vec!["e4".to_string()]);
    assert_eq!(game.fen, AFTER_E4_FEN);
}

#[test]
fn check_is_reported_while_ongoing() {
    let mut store = SessionStore::new();
    let created = store.create_game(None).expect("create");
    store
        .apply_move(created.id, "e2e4".to_string())
        .expect("apply");
    store
        .apply_move(created.id, "f7f6".to_string())
        .expect("apply");
    let applied = store
        .apply_move(created.id, "d1h5".to_string())
        .expect("apply");
    assert_eq!(
        applied.status,
        GameStatus::Ongoing { to_move: SideToMove::Black, in_check: true }
    );
}

#[test]
fn forced_mate_ends_in_checkmate_with_no_moves() {
    let mut store = SessionStore::new();
    let created = store.create_game(None).expect("create");
    for mv in ["f2f3", "e7e5", "g2g4"] {
        store.apply_move(created.id, mv.to_string()).expect("apply");
    }
    let last = store
        .apply_move(created.id, "d8h4".to_string())
        .expect("apply");
    assert_eq!(last.applied_san, "Qh4");
    assert_eq!(last.status, GameStatus::Checkmate { winner: SideToMove::Black });
    assert!(last.legal_moves.is_empty());
    let game = store.get_game(created.id).expect("get");
    assert_eq!(game.moves_uci.len(), 4);
    assert!(game.legal_moves.is_empty());
}

#[test]
fn bare_kings_are_a_draw() {
    let mut store = SessionStore::new();
    let created = store
        .create_game(Some("8/8/8/8/8/8/8/K6k w - - 0 1".to_string()))
        .expect("create");
    let game = store.get_game(created.id).expect("get");
    assert_eq!(game.status, GameStatus::Draw);
}

#[test]
fn no_moves_without_check_is_stalemate() {
    let mut store = SessionStore::new();
    let created = store
        .create_game(Some("7k/5K2/6Q1/8/8/8/8/8 b - - 0 1".to_string()))
        .expect("create");
    let game = store.get_game(created.id).expect("get");
    assert_eq!(game.status, GameStatus::Stalemate);
    assert!(game.legal_moves.is_empty());
}

#[test]
fn delete_then_fetch_and_delete_again() {
    let mut store = SessionStore::new();
    let created = store.create_game(None).expect("create");
    assert!(store.delete_game(created.id).is_ok());
    assert!(matches!(store.get_game(created.id), Err(ApiError::NotFound)));
    assert!(matches!(
        store.delete_game(created.id),
        Err(ApiError::NotFound)
    ));
}

#[test]
fn reported_fen_round_trips_to_equal_legal_moves() {
    let mut store = SessionStore::new();
    let created = store.create_game(None).expect("create");
    for mv in ["e2e4", "e7e5", "g1f3"] {
        store.apply_move(created.id, mv.to_string()).expect("apply");
    }
    let game = store.get_game(created.id).expect("get");
    let twin = store.create_game(Some(game.fen.clone())).expect("create twin");
    let twin_game = store.get_game(twin.id).expect("get twin");
    assert_eq!(twin_game.legal_moves, game.legal_moves);
}

#[test]
fn many_creates_yield_distinct_ids() {
    let mut store = SessionStore::new();
    let mut ids: Vec<u128> = Vec::new();
    for _ in 0..100 {
        let created = store.create_game(None).expect("create");
        ids.push(created.id);
    }
    ids.sort();
    for pair in ids.windows(2) {
        assert_ne!(pair[0], pair[1]);
    }
}

#[test]
fn legal_move_listing_matches_game_report() {
    let mut store = SessionStore::new();
    let created = store.create_game(None).expect("create");
    let listed = store.list_legal_moves(created.id).expect("list");
    let game = store.get_game(created.id).expect("get");
    assert_eq!(listed, game.legal_moves);
    assert!(listed.contains(&"e2e4".to_string()));
}
