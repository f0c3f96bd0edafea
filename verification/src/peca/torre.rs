use vstd::prelude::*;

use crate::peca::PecaData;

verus! {

pub struct Torre {
    pub data: PecaData,
}

} // verus!
