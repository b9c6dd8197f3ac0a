use vstd::prelude::*;

verus! {

#[derive(Debug, Clone, Copy, PartialEq, Eq)]
pub struct InitializeGameConfigParams {
    pub pull_price: u64,
}

} // verus!
