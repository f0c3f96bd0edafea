use xadrez::casa::OptionalPeca;
use xadrez::jogador::Jogador;
use xadrez::peca::peao::Peao;
use xadrez::posicao::{Coluna, Linha, Posicao};
use xadrez::tabuleiro::Tabuleiro;

#[test]
fn new_board_has_64_empty_squares() {
    let t = Tabuleiro::new();
    assert_eq!(t.casas.len(), 64);
    for casa in &t.casas {
        assert!(matches!(casa.peca, OptionalPeca::Nenhuma));
    }
    assert_eq!(
        t.casas[0].posicao,
        Posicao { linha: Linha::A, coluna: Coluna::One }
    );
    assert_eq!(
        t.casas[63].posicao,
        Posicao { linha: Linha::H, coluna: Coluna::Eight }
    );
    assert_eq!(
        t.casas[8].posicao,
        Posicao { linha: Linha::B, coluna: Coluna::One }
    );
}

#[test]
fn linha_and_coluna_from_numbers() {
    assert_eq!(Linha::from(1), Linha::A);
    assert_eq!(Linha::from(8), Linha::H);
    assert_eq!(Coluna::from(1), Coluna::One);
    assert_eq!(Coluna::from(3), Coluna::Three);
}

#[test]
fn posicao_new_keeps_its_parts() {
    let p = Posicao::new(Linha::C, Coluna::Five);
    assert_eq!(p.linha, Linha::C);
    assert_eq!(p.coluna, Coluna::Five);
}

#[test]
fn new_pawn_carries_its_player() {
    let p = Peao::new(Jogador::Preto);
    assert_eq!(p.data.jogador, Jogador::Preto);
    assert_eq!(p.data.nome, "Peao");
}
