use vstd::prelude::*;
use crate::account::Address;
use crate::data::{PSP22Error, Rejection};
use crate::events::{Approval, Event, Transfer};
use crate::laws::{
    lemma_burn, lemma_created_consistent, lemma_mint, lemma_transfer_consistent,
    lemma_transfer_from_consistent, lemma_with_allowance,
};
use crate::model::Ledger;
use crate::rules::{
    decide_approve, decide_burn, decide_decrease, decide_increase, decide_mint, decide_transfer,
    decide_transfer_from,
};
use crate::table::{
    lemma_store_lookup, read_allowance, read_balance, write_allowance, write_balance,
};

verus! {

/// The token ledger: supply, balances, allowances, metadata and the
/// notifications recorded since they were last taken.
pub struct PspCoin {
    total_supply: u128,
    balances: Vec<(Address, u128)>,
    allowances: Vec<((Address, Address), u128)>,
    metadata: (String, String, u8),
    events: Vec<Event>,
}

impl View for PspCoin {
    type V = Ledger;

    closed spec fn view(&self) -> Ledger {
        Ledger {
            total_supply: self.total_supply,
            balances: self.balances@,
            allowances: self.allowances@,
            events: self.events@,
            name: self.metadata.0@,
            symbol: self.metadata.1@,
            decimals: self.metadata.2,
        }
    }
}

/// How a mutating operation relates its result and the ledger after it to
/// the ledger before it: on success the ledger is the one that the model
/// gives, on rejection the error is the model's and the ledger is unchanged.
pub open spec fn committed(
    r: Result<(), PSP22Error>,
    before: Ledger,
    after: Ledger,
    outcome: Result<Ledger, Rejection>,
) -> bool {
    match outcome {
        Ok(next) => r is Ok && after == next,
        Err(e) => r matches Err(x) && x@ == e && after == before,
    }
}

impl PspCoin {
    /// The ledger is consistent; every constructor establishes this and
    /// every operation keeps it.
    pub open spec fn wf(&self) -> bool {
        self@.wf()
    }

    /// Creates a ledger with no supply and no balances.
    pub fn new() -> (r: PspCoin)
        ensures
            r.wf(),
            r@ == Ledger::empty(),
    {
        proof {
            lemma_created_consistent(0, Address { high: 0, low: 0 });
        }
        PspCoin {
            total_supply: 0,
            balances: Vec::new(),
            allowances: Vec::new(),
            metadata: ("PSP Coin".to_owned(), "PSP".to_owned(), 18),
            events: Vec::new(),
        }
    }

    /// Creates a ledger whose whole supply is credited to `caller`.
    pub fn new_with_supply(initial_supply: u128, caller: Address) -> (r: PspCoin)
        ensures
            r.wf(),
            r@ == Ledger::funded(initial_supply, caller),
    {
        proof {
            lemma_created_consistent(initial_supply, caller);
        }
        let mut balances: Vec<(Address, u128)> = Vec::new();
        balances.push((caller, initial_supply));
        assert(balances@ =~= seq![(caller, initial_supply)]);
        PspCoin {
            total_supply: initial_supply,
            balances,
            allowances: Vec::new(),
            metadata: ("PSP Coin".to_owned(), "PSP".to_owned(), 18),
            events: Vec::new(),
        }
    }

    /// The total supply.
    pub fn total_supply(&self) -> (r: u128)
        ensures
            r == self@.total_supply,
    {
        self.total_supply
    }

    /// The balance of `owner`; zero for an account never credited.
    pub fn balance_of(&self, owner: Address) -> (r: u128)
        requires
            self.wf(),
        ensures
            r == self@.balance_of(owner),
    {
        read_balance(&self.balances, owner)
    }

    /// What `spender` may move out of `owner`'s balance; zero for a pair
    /// never set.
    pub fn allowance(&self, owner: Address, spender: Address) -> (r: u128)
        requires
            self.wf(),
        ensures
            r == self@.allowance(owner, spender),
    {
        read_allowance(&self.allowances, (owner, spender))
    }

    /// Stores both balances of a decided move and records it.
    fn commit_move(&mut self, from: Address, to: Address, value: u128, new_from: u128, new_to: u128)
        requires
            old(self).wf(),
        ensures
            final(self)@ == old(self)@.moved(from, to, value, new_from, new_to),
    {
        write_balance(&mut self.balances, from, new_from);
        proof {
            lemma_store_lookup(old(self)@.balances, from, new_from, to);
        }
        write_balance(&mut self.balances, to, new_to);
        self.events.push(Event::Transfer(Transfer { from: Some(from), to: Some(to), value }));
    }

    /// Stores a decided allowance and records the approval.
    fn commit_allowance(&mut self, owner: Address, spender: Address, value: u128)
        requires
            old(self).wf(),
        ensures
            final(self)@ == old(self)@.approved(owner, spender, value),
            final(self).wf(),
    {
        proof {
            lemma_with_allowance(old(self)@, owner, spender, value);
        }
        write_allowance(&mut self.allowances, (owner, spender), value);
        self.events.push(Event::Approval(Approval { owner, spender, value }));
    }

    /// Moves `value` from `caller` to `to`. Nothing happens where `caller` is
    /// `to` or `value` is zero.
    pub fn transfer(&mut self, caller: Address, to: Address, value: u128, _data: Vec<u8>) -> (r:
        Result<(), PSP22Error>)
        requires
            old(self).wf(),
        ensures
            final(self).wf(),
            committed(r, old(self)@, final(self)@, old(self)@.transfer(caller, to, value)),
    {
        proof {
            lemma_transfer_consistent(self@, caller, to, value);
        }
        let from_balance = self.balance_of(caller);
        let to_balance = self.balance_of(to);
        match decide_transfer(caller, to, from_balance, to_balance, value) {
            Err(e) => Err(e),
            Ok(None) => Ok(()),
            Ok(Some((new_from, new_to))) => {
                self.commit_move(caller, to, value, new_from, new_to);
                Ok(())
            },
        }
    }

    /// Moves `value` from `from` to `to` on behalf of `caller`, who spends
    /// its allowance unless it is `from` itself. Nothing happens where `from`
    /// is `to` or `value` is zero. The allowance and the balances change
    /// together or not at all.
    pub fn transfer_from(
        &mut self,
        caller: Address,
        from: Address,
        to: Address,
        value: u128,
        _data: Vec<u8>,
    ) -> (r: Result<(), PSP22Error>)
        requires
            old(self).wf(),
        ensures
            final(self).wf(),
            committed(
                r,
                old(self)@,
                final(self)@,
                old(self)@.transfer_from(caller, from, to, value),
            ),
    {
        proof {
            lemma_transfer_from_consistent(self@, caller, from, to, value);
        }
        let allowance = if caller != from {
            self.allowance(from, caller)
        } else {
            0
        };
        let from_balance = self.balance_of(from);
        let to_balance = self.balance_of(to);
        match decide_transfer_from(caller, from, to, allowance, from_balance, to_balance, value) {
            Err(e) => Err(e),
            Ok(None) => Ok(()),
            Ok(Some(m)) => {
                if let Some(left) = m.allowance {
                    self.commit_allowance(from, caller, left);
                }
                self.commit_move(from, to, value, m.from_balance, m.to_balance);
                Ok(())
            },
        }
    }

    /// Sets what `spender` may move out of `caller`'s balance to `value`.
    /// Nothing happens where `caller` is `spender`. Never fails.
    pub fn approve(&mut self, caller: Address, spender: Address, value: u128) -> (r: Result<
        (),
        PSP22Error,
    >)
        requires
            old(self).wf(),
        ensures
            final(self).wf(),
            r is Ok,
            final(self)@ == old(self)@.approve(caller, spender, value),
    {
        if decide_approve(caller, spender) {
            self.commit_allowance(caller, spender, value);
        }
        Ok(())
    }

    /// Raises what `spender` may move out of `caller`'s balance by
    /// `delta_value`. Nothing happens where `caller` is `spender` or
    /// `delta_value` is zero.
    pub fn increase_allowance(&mut self, caller: Address, spender: Address, delta_value: u128) -> (r:
        Result<(), PSP22Error>)
        requires
            old(self).wf(),
        ensures
            final(self).wf(),
            committed(
                r,
                old(self)@,
                final(self)@,
                old(self)@.increase_allowance(caller, spender, delta_value),
            ),
    {
        match decide_increase(caller, spender, self.allowance(caller, spender), delta_value) {
            Err(e) => Err(e),
            Ok(None) => Ok(()),
            Ok(Some(raised)) => {
                self.commit_allowance(caller, spender, raised);
                Ok(())
            },
        }
    }

    /// Lowers what `spender` may move out of `caller`'s balance by
    /// `delta_value`. Nothing happens where `caller` is `spender` or
    /// `delta_value` is zero.
    pub fn decrease_allowance(&mut self, caller: Address, spender: Address, delta_value: u128) -> (r:
        Result<(), PSP22Error>)
        requires
            old(self).wf(),
        ensures
            final(self).wf(),
            committed(
                r,
                old(self)@,
                final(self)@,
                old(self)@.decrease_allowance(caller, spender, delta_value),
            ),
    {
        match decide_decrease(caller, spender, self.allowance(caller, spender), delta_value) {
            Err(e) => Err(e),
            Ok(None) => Ok(()),
            Ok(Some(left)) => {
                self.commit_allowance(caller, spender, left);
                Ok(())
            },
        }
    }

    /// The token's display name.
    pub fn name(&self) -> (r: Option<String>)
        ensures
            r matches Some(s) && s@ == self@.name,
    {
        Some(self.metadata.0.clone())
    }

    /// The token's symbol.
    pub fn symbol(&self) -> (r: Option<String>)
        ensures
            r matches Some(s) && s@ == self@.symbol,
    {
        Some(self.metadata.1.clone())
    }

    /// The number of decimal places in which amounts are displayed.
    pub fn decimals(&self) -> (r: u8)
        ensures
            r == self@.decimals,
    {
        self.metadata.2
    }

    /// Creates `value` in `caller`'s balance. Nothing happens where `value`
    /// is zero.
    pub fn mint(&mut self, caller: Address, value: u128) -> (r: Result<(), PSP22Error>)
        requires
            old(self).wf(),
        ensures
            final(self).wf(),
            committed(r, old(self)@, final(self)@, old(self)@.mint(caller, value)),
    {
        proof {
            lemma_mint(self@, caller, value);
        }
        match decide_mint(self.balance_of(caller), self.total_supply, value) {
            Err(e) => Err(e),
            Ok(None) => Ok(()),
            Ok(Some((new_balance, new_supply))) => {
                write_balance(&mut self.balances, caller, new_balance);
                self.total_supply = new_supply;
                self.events.push(Event::Transfer(Transfer { from: None, to: Some(caller), value }));
                Ok(())
            },
        }
    }

    /// Destroys `value` of `caller`'s balance. Nothing happens where `value`
    /// is zero.
    pub fn burn(&mut self, caller: Address, value: u128) -> (r: Result<(), PSP22Error>)
        requires
            old(self).wf(),
        ensures
            final(self).wf(),
            committed(r, old(self)@, final(self)@, old(self)@.burn(caller, value)),
    {
        proof {
            lemma_burn(self@, caller, value);
        }
        match decide_burn(self.balance_of(caller), self.total_supply, value) {
            Err(e) => Err(e),
            Ok(None) => Ok(()),
            Ok(Some((new_balance, new_supply))) => {
                write_balance(&mut self.balances, caller, new_balance);
                self.total_supply = new_supply;
                self.events.push(Event::Transfer(Transfer { from: Some(caller), to: None, value }));
                Ok(())
            },
        }
    }

    /// Hands out the notifications recorded since the last call, oldest
    /// first, and clears the record. Nothing else changes.
    pub fn take_events(&mut self) -> (r: Vec<Event>)
        ensures
            r@ == old(self)@.events,
            final(self)@ == (Ledger { events: Seq::empty(), ..old(self)@ }),
    {
        let mut taken: Vec<Event> = Vec::new();
        std::mem::swap(&mut self.events, &mut taken);
        taken
    }
}

} // verus!
