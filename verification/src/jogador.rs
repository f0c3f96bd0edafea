//! The two players of a board.

use vstd::prelude::*;

verus! {

#[derive(Clone, Copy, Debug, PartialEq, Eq, Structural)]
pub enum Jogador {
    Branco,
    Preto,
}

} // verus!
