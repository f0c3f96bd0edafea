use vstd::prelude::*;

use crate::jogador::Jogador;
use crate::peca::PecaData;

verus! {

pub struct Peao {
    pub data: PecaData,
}

impl Peao {
    pub fn new(jogador: Jogador) -> (p: Peao)
        ensures
            p.data.jogador == jogador,
            p.data.nome@ == "Peao"@,
    {
        let p_data: PecaData = PecaData { jogador: jogador, nome: "Peao".to_owned() };
        Peao { data: p_data }
    }
}

} // verus!
