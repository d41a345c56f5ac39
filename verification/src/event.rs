use vstd::prelude::*;

use crate::address::Address;

verus! {

/// What an observer learns of a mint: the holder account and the amount.
#[derive(Clone, Copy, Debug, PartialEq, Eq)]
pub struct MintEvent {
    pub account: Address,
    pub amount: u64,
}

/// What an observer learns of a burn: the holder account and the amount.
#[derive(Clone, Copy, Debug, PartialEq, Eq)]
pub struct BurnEvent {
    pub account: Address,
    pub amount: u64,
}

} // verus!
