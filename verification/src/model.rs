use vstd::prelude::*;
use crate::account::Address;
use crate::data::Rejection;
use crate::events::{Approval, Event, Transfer};
use crate::rules::{
    approve_rule, burn_rule, decrease_rule, increase_rule, mint_rule, transfer_from_rule,
    transfer_rule,
};
use crate::table::{distinct_keys, keys, lookup, lookup_sum, store, total};

verus! {

/// The ledger as a mathematical value: the supply counter, the balance and
/// allowance tables, the notifications recorded so far, and the metadata.
pub struct Ledger {
    pub total_supply: u128,
    /// One entry per account ever credited, in order of first appearance.
    pub balances: Seq<(Address, u128)>,
    /// One entry per pair of owner and spender ever set.
    pub allowances: Seq<((Address, Address), u128)>,
    pub events: Seq<Event>,
    pub name: Seq<char>,
    pub symbol: Seq<char>,
    pub decimals: u8,
}

/// The transfer notification of an ordinary move.
pub open spec fn moved_event(from: Address, to: Address, value: u128) -> Event {
    Event::Transfer(Transfer { from: Some(from), to: Some(to), value })
}

/// The transfer notification of newly created value.
pub open spec fn minted_event(to: Address, value: u128) -> Event {
    Event::Transfer(Transfer { from: None, to: Some(to), value })
}

/// The transfer notification of destroyed value.
pub open spec fn burned_event(from: Address, value: u128) -> Event {
    Event::Transfer(Transfer { from: Some(from), to: None, value })
}

/// The approval notification that carries the resulting allowance.
pub open spec fn approved_event(owner: Address, spender: Address, value: u128) -> Event {
    Event::Approval(Approval { owner, spender, value })
}

impl Ledger {
    /// A ledger with no supply, no entries and no notifications.
    pub open spec fn empty() -> Ledger {
        Ledger {
            total_supply: 0,
            balances: Seq::empty(),
            allowances: Seq::empty(),
            events: Seq::empty(),
            name: "PSP Coin"@,
            symbol: "PSP"@,
            decimals: 18,
        }
    }

    /// A ledger whose whole supply is credited to `holder`.
    pub open spec fn funded(initial_supply: u128, holder: Address) -> Ledger {
        Ledger {
            total_supply: initial_supply,
            balances: seq![(holder, initial_supply)],
            ..Ledger::empty()
        }
    }

    /// The ledger is consistent: no account and no pair has two entries, and
    /// the supply is the sum of all balances.
    pub open spec fn wf(self) -> bool {
        &&& distinct_keys(self.balances)
        &&& distinct_keys(self.allowances)
        &&& self.total_supply == self.sum_of_balances()
    }

    /// The sum of the balances of all accounts that have an entry.
    pub open spec fn sum_of_balances(self) -> int {
        total(self.balances)
    }

    /// The accounts that have an entry, in order of first appearance.
    pub open spec fn accounts(self) -> Seq<Address> {
        keys(self.balances)
    }

    /// The sum of `balance_of` over the positions of `accounts`.
    pub open spec fn balances_of(self, accounts: Seq<Address>) -> int {
        lookup_sum(self.balances, accounts)
    }

    /// The balance of `account`; zero where it has no entry.
    pub open spec fn balance_of(self, account: Address) -> u128 {
        lookup(self.balances, account)
    }

    /// What `spender` may still move out of `owner`'s balance; zero where the
    /// pair has no entry.
    pub open spec fn allowance(self, owner: Address, spender: Address) -> u128 {
        lookup(self.allowances, (owner, spender))
    }

    /// The ledger with `value` stored as the balance of `account`.
    pub open spec fn with_balance(self, account: Address, value: u128) -> Ledger {
        Ledger { balances: store(self.balances, account, value), ..self }
    }

    /// The ledger with `value` stored as the allowance of `spender` from
    /// `owner`.
    pub open spec fn with_allowance(self, owner: Address, spender: Address, value: u128) -> Ledger {
        Ledger { allowances: store(self.allowances, (owner, spender), value), ..self }
    }

    /// The ledger with `value` as its supply.
    pub open spec fn with_supply(self, value: u128) -> Ledger {
        Ledger { total_supply: value, ..self }
    }

    /// The ledger with `event` recorded after all earlier ones.
    pub open spec fn with_event(self, event: Event) -> Ledger {
        Ledger { events: self.events.push(event), ..self }
    }

    /// The ledger after a decided move: both balances stored, the move
    /// recorded.
    pub open spec fn moved(
        self,
        from: Address,
        to: Address,
        value: u128,
        new_from: u128,
        new_to: u128,
    ) -> Ledger {
        self.with_balance(from, new_from).with_balance(to, new_to).with_event(
            moved_event(from, to, value),
        )
    }

    /// The ledger after a decided allowance change: the allowance stored, the
    /// approval recorded.
    pub open spec fn approved(self, owner: Address, spender: Address, value: u128) -> Ledger {
        self.with_allowance(owner, spender, value).with_event(
            approved_event(owner, spender, value),
        )
    }

    /// `caller` moves `value` of its own balance to `to`.
    pub open spec fn transfer(self, caller: Address, to: Address, value: u128) -> Result<
        Ledger,
        Rejection,
    > {
        match transfer_rule(caller, to, self.balance_of(caller), self.balance_of(to), value) {
            Ok(Some((new_from, new_to))) => Ok(self.moved(caller, to, value, new_from, new_to)),
            Ok(None) => Ok(self),
            Err(e) => Err(e),
        }
    }

    /// `caller` moves `value` from `from` to `to`, spending its allowance
    /// unless it is `from` itself. Allowance and balances change together or
    /// not at all.
    pub open spec fn transfer_from(
        self,
        caller: Address,
        from: Address,
        to: Address,
        value: u128,
    ) -> Result<Ledger, Rejection> {
        match transfer_from_rule(
            caller,
            from,
            to,
            self.allowance(from, caller),
            self.balance_of(from),
            self.balance_of(to),
            value,
        ) {
            Ok(Some(m)) => Ok(
                match m.allowance {
                    Some(left) => self.approved(from, caller, left),
                    None => self,
                }.moved(from, to, value, m.from_balance, m.to_balance),
            ),
            Ok(None) => Ok(self),
            Err(e) => Err(e),
        }
    }

    /// `caller` sets what `spender` may move to exactly `value`.
    pub open spec fn approve(self, caller: Address, spender: Address, value: u128) -> Ledger {
        if approve_rule(caller, spender) {
            self.approved(caller, spender, value)
        } else {
            self
        }
    }

    /// `caller` raises what `spender` may move by `delta`.
    pub open spec fn increase_allowance(
        self,
        caller: Address,
        spender: Address,
        delta: u128,
    ) -> Result<Ledger, Rejection> {
        match increase_rule(caller, spender, self.allowance(caller, spender), delta) {
            Ok(Some(raised)) => Ok(self.approved(caller, spender, raised)),
            Ok(None) => Ok(self),
            Err(e) => Err(e),
        }
    }

    /// `caller` lowers what `spender` may move by `delta`.
    pub open spec fn decrease_allowance(
        self,
        caller: Address,
        spender: Address,
        delta: u128,
    ) -> Result<Ledger, Rejection> {
        match decrease_rule(caller, spender, self.allowance(caller, spender), delta) {
            Ok(Some(left)) => Ok(self.approved(caller, spender, left)),
            Ok(None) => Ok(self),
            Err(e) => Err(e),
        }
    }

    /// `caller` creates `value` in its own balance.
    pub open spec fn mint(self, caller: Address, value: u128) -> Result<Ledger, Rejection> {
        match mint_rule(self.balance_of(caller), self.total_supply, value) {
            Ok(Some((new_balance, new_supply))) => Ok(
                self.with_balance(caller, new_balance).with_supply(new_supply).with_event(
                    minted_event(caller, value),
                ),
            ),
            Ok(None) => Ok(self),
            Err(e) => Err(e),
        }
    }

    /// `caller` destroys `value` of its own balance.
    pub open spec fn burn(self, caller: Address, value: u128) -> Result<Ledger, Rejection> {
        match burn_rule(self.balance_of(caller), self.total_supply, value) {
            Ok(Some((new_balance, new_supply))) => Ok(
                self.with_balance(caller, new_balance).with_supply(new_supply).with_event(
                    burned_event(caller, value),
                ),
            ),
            Ok(None) => Ok(self),
            Err(e) => Err(e),
        }
    }
}

} // verus!
