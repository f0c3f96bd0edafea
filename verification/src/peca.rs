//! Pieces: the data every piece carries, and the interface a self-built
//! move generator would implement. Move generation itself is the rules
//! engine's job (see `engine`), so no piece implements the interface here.

use vstd::prelude::*;

use crate::jogador::Jogador;
use crate::posicao::Posicao;

pub mod bispo;
pub mod cavalo;
pub mod peao;
pub mod rainha;
pub mod rei;
pub mod torre;

verus! {

pub struct PecaData {
    pub jogador: Jogador,
    pub nome: String,
}

pub trait Peca {
    fn mover(&self, posicao: &Posicao) -> bool;

    fn possiveis_movimentos(&self) -> Vec<Posicao>;
}

} // verus!
