//! A fungible-token ledger: balances, delegated spending rights and a supply
//! counter, moved only through checked operations that keep the supply equal
//! to the sum of all balances.

pub mod account;
pub mod data;
pub mod events;
pub mod laws;
pub mod ledger;
pub mod model;
pub mod rules;
pub mod table;

pub use account::Address;
pub use data::PSP22Error;
pub use events::{Approval, Event, Transfer};
pub use ledger::PspCoin;
