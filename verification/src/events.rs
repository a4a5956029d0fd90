use vstd::prelude::*;
use crate::account::Address;

verus! {

/// Notification of value moved, created (`from` absent) or destroyed (`to`
/// absent).
#[derive(Clone, Copy, Debug, PartialEq, Eq)]
pub struct Transfer {
    pub from: Option<Address>,
    pub to: Option<Address>,
    pub value: u128,
}

/// Notification of an allowance change; `value` is the allowance that
/// results.
#[derive(Clone, Copy, Debug, PartialEq, Eq)]
pub struct Approval {
    pub owner: Address,
    pub spender: Address,
    pub value: u128,
}

/// A notification recorded by the ledger.
#[derive(Clone, Copy, Debug, PartialEq, Eq)]
pub enum Event {
    Transfer(Transfer),
    Approval(Approval),
}

} // verus!
