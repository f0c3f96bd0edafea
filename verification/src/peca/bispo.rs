use vstd::prelude::*;

use crate::peca::PecaData;

verus! {

pub struct Bispo {
    pub data: PecaData,
}

} // verus!
