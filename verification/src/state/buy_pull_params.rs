use vstd::prelude::*;

verus! {

#[derive(Debug, Clone, Copy, PartialEq, Eq)]
pub struct BuyPullParams {
    pub pull_id: u64,
}

} // verus!
