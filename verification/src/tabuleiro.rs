//! The board: sixty-four squares, laid out line by line, all empty at the
//! start.

use vstd::prelude::*;

use crate::casa::{Casa, OptionalPeca};
use crate::posicao::{coluna_of_int, linha_of_int, Coluna, Linha, Posicao};

verus! {

pub struct Tabuleiro {
    pub casas: Vec<Casa>,
}

/// The square that stands at a given index of a freshly built board.
pub open spec fn casa_at(k: int) -> Posicao {
    Posicao { linha: linha_of_int(k / 8 + 1), coluna: coluna_of_int(k % 8 + 1) }
}

impl Tabuleiro {
    /// Builds the empty board: one square for every line and column, in
    /// line-major order, none of them occupied.
    pub fn new() -> (t: Tabuleiro)
        ensures
            t.casas@.len() == 64,
            forall|k: int|
                0 <= k < 64 ==> {
                    &&& (#[trigger] t.casas@[k]).posicao == casa_at(k)
                    &&& t.casas@[k].peca is Nenhuma
                },
    {
        let mut casas: Vec<Casa> = Vec::new();
        let mut i: i32 = 1;
        while i < 9
            invariant
                1 <= i <= 9,
                casas@.len() == 8 * (i - 1),
                forall|k: int|
                    0 <= k < casas@.len() ==> {
                        &&& (#[trigger] casas@[k]).posicao == casa_at(k)
                        &&& casas@[k].peca is Nenhuma
                    },
            decreases 9 - i,
        {
            let mut j: i32 = 1;
            while j < 9
                invariant
                    1 <= i <= 8,
                    1 <= j <= 9,
                    casas@.len() == 8 * (i - 1) + (j - 1),
                    forall|k: int|
                        0 <= k < casas@.len() ==> {
                            &&& (#[trigger] casas@[k]).posicao == casa_at(k)
                            &&& casas@[k].peca is Nenhuma
                        },
                decreases 9 - j,
            {
                let casa = Casa {
                    posicao: Posicao::new(Linha::from(i), Coluna::from(j)),
                    peca: OptionalPeca::Nenhuma,
                };
                proof {
                    let k = casas@.len() as int;
                    assert(k == 8 * (i - 1) + (j - 1));
                    assert(k / 8 == i - 1 && k % 8 == j - 1) by (nonlinear_arith)
                        requires
                            k == 8 * (i - 1) + (j - 1),
                            1 <= i <= 8,
                            1 <= j <= 8,
                    ;
                }
                casas.push(casa);
                j = j + 1;
            }
            i = i + 1;
        }
        Tabuleiro { casas: casas }
    }
}

} // verus!
