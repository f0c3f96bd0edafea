use vstd::prelude::*;

use crate::peca::PecaData;

verus! {

pub struct Cavalo {
    pub data: PecaData,
}

} // verus!
