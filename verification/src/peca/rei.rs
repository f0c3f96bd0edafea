use vstd::prelude::*;

use crate::peca::PecaData;

verus! {

pub struct Rei {
    pub data: PecaData,
}

} // verus!
