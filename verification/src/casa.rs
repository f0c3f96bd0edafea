//! A square of the board: its coordinates and the piece standing on it, if
//! any.

use vstd::prelude::*;

use crate::peca::PecaData;
use crate::posicao::Posicao;

verus! {

pub struct Casa {
    pub posicao: Posicao,
    pub peca: OptionalPeca<PecaData>,
}

pub enum OptionalPeca<Peca> {
    Nenhuma,
    Alguma(Peca),
}

} // verus!
