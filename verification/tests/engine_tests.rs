use shakmaty::Position;

#[test]
fn default_game_has_20_legal_moves() {
    let pos = shakmaty::Chess::default();
    assert_eq!(pos.legal_moves().len(), 20);
}

#[test]
fn uci_parsing_and_play() {
    let mut pos = shakmaty::Chess::default();
    let history_uci: Vec<String> = vec![];
    let history_san: Vec<String> = vec![];
    let uci: shakmaty::uci::UciMove = "e2e4".parse().expect("uci");
    let m = uci.to_move(&pos).expect("legal");
    pos.play_unchecked(m);
    assert_eq!(history_uci.len(), 0);
    assert_eq!(pos.legal_moves().len(), 20);
    assert_eq!(history_san.len(), 0);
}
