use vstd::prelude::*;

use crate::peca::PecaData;

verus! {

pub struct Rainha {
    pub data: PecaData,
}

} // verus!
