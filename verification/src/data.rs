use vstd::prelude::*;

verus! {

/// Why the ledger rejected an operation.
#[derive(Debug, PartialEq, Eq)]
pub enum PSP22Error {
    /// The source balance is below the requested amount.
    InsufficientBalance,
    /// The allowance is below the requested amount.
    InsufficientAllowance,
    /// Any other rejection, with a message; used for arithmetic overflow.
    Custom(String),
}

/// The mathematical content of a [`PSP22Error`].
pub enum Rejection {
    InsufficientBalance,
    InsufficientAllowance,
    Custom(Seq<char>),
}

impl View for PSP22Error {
    type V = Rejection;

    open spec fn view(&self) -> Rejection {
        match self {
            PSP22Error::InsufficientBalance => Rejection::InsufficientBalance,
            PSP22Error::InsufficientAllowance => Rejection::InsufficientAllowance,
            PSP22Error::Custom(m) => Rejection::Custom(m@),
        }
    }
}

/// Message of the rejection raised when crediting a recipient would overflow.
pub open spec fn overflow_message() -> Seq<char> {
    "Overflow"@
}

/// Message of the rejection raised when an allowance would overflow.
pub open spec fn allowance_overflow_message() -> Seq<char> {
    "Allowance overflow"@
}

/// Message of the rejection raised when minting would overflow a balance.
pub open spec fn balance_overflow_message() -> Seq<char> {
    "Balance overflow"@
}

/// Message of the rejection raised when minting would overflow the supply.
pub open spec fn supply_overflow_message() -> Seq<char> {
    "Max supply exceeded"@
}

} // verus!
