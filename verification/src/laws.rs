use vstd::prelude::*;
use crate::account::Address;
use crate::data::Rejection;
use crate::model::Ledger;
use crate::table::{
    has_key, lemma_index_unique, lemma_store_lookup, lemma_store_total,
    lemma_total_is_lookup_sum, lemma_two_keys_bounded,
};

verus! {

/// A newly created ledger is consistent, with or without an initial supply,
/// and the initial supply is the holder's balance.
pub proof fn lemma_created_consistent(initial_supply: u128, holder: Address)
    ensures
        Ledger::empty().wf(),
        Ledger::funded(initial_supply, holder).wf(),
        Ledger::funded(initial_supply, holder).balance_of(holder) == initial_supply,
        forall|a: Address| Ledger::empty().balance_of(a) == 0,
        forall|o: Address, s: Address| Ledger::empty().allowance(o, s) == 0,
        forall|o: Address, s: Address| Ledger::funded(initial_supply, holder).allowance(o, s) == 0,
{
    let f = Ledger::funded(initial_supply, holder);
    assert(f.balances.drop_last() =~= Seq::empty());
    assert(f.balances[0].0 == holder);
    lemma_index_unique(f.balances, 0);
}

/// In a consistent ledger the supply is the sum of `balance_of` over the
/// accounts that have an entry, each of which occurs once, and every other
/// account holds nothing.
pub proof fn lemma_supply_is_sum_of_balances(l: Ledger)
    requires
        l.wf(),
    ensures
        l.total_supply == l.balances_of(l.accounts()),
        l.accounts().no_duplicates(),
        forall|a: Address| !l.accounts().contains(a) ==> l.balance_of(a) == 0,
{
    lemma_total_is_lookup_sum(l.balances, l.balances.len() as int);
    assert(l.balances.take(l.balances.len() as int) =~= l.balances);
    assert(l.accounts().take(l.balances.len() as int) =~= l.accounts());
    assert forall|a: Address| !l.accounts().contains(a) implies l.balance_of(a) == 0 by {
        if has_key(l.balances, a) {
            let i = choose|i: int| 0 <= i < l.balances.len() && (#[trigger] l.balances[i]).0 == a;
            assert(l.accounts()[i] == a);
        }
    }
}

/// What a transfer between two different accounts does: it is rejected
/// exactly when the sender holds too little, and otherwise it takes `value`
/// from the sender, gives it to the recipient, touches no other balance, no
/// allowance and not the supply, and keeps the ledger consistent.
pub proof fn lemma_transfer_between(l: Ledger, from: Address, to: Address, value: u128)
    requires
        l.wf(),
        from != to,
    ensures
        l.balance_of(from) < value ==> l.transfer(from, to, value) == Err::<Ledger, Rejection>(
            Rejection::InsufficientBalance,
        ),
        l.balance_of(from) >= value ==> l.transfer(from, to, value) is Ok,
        l.transfer(from, to, value) matches Ok(n) ==> {
            &&& n.wf()
            &&& n.total_supply == l.total_supply
            &&& n.allowances == l.allowances
            &&& n.balance_of(from) == l.balance_of(from) - value
            &&& n.balance_of(to) == l.balance_of(to) + value
            &&& forall|a: Address| a != from && a != to ==> n.balance_of(a) == l.balance_of(a)
        },
{
    lemma_two_keys_bounded(l.balances, from, to);
    if l.balance_of(from) >= value && value != 0 {
        let n = l.transfer(from, to, value)->Ok_0;
        let new_from = (l.balance_of(from) - value) as u128;
        let new_to = (l.balance_of(to) + value) as u128;
        let mid = l.with_balance(from, new_from);
        lemma_store_lookup(l.balances, from, new_from, to);
        lemma_store_lookup(l.balances, from, new_from, from);
        lemma_store_total(l.balances, from, new_from);
        lemma_store_lookup(mid.balances, to, new_to, to);
        lemma_store_lookup(mid.balances, to, new_to, from);
        lemma_store_total(mid.balances, to, new_to);
        assert forall|a: Address| a != from && a != to implies n.balance_of(a) == l.balance_of(
            a,
        ) by {
            lemma_store_lookup(l.balances, from, new_from, a);
            lemma_store_lookup(mid.balances, to, new_to, a);
        }
    }
}

/// Storing an allowance keeps the ledger consistent, sets that pair and
/// leaves every other pair, every balance and the supply as they were.
pub proof fn lemma_with_allowance(l: Ledger, owner: Address, spender: Address, value: u128)
    requires
        l.wf(),
    ensures
        l.with_allowance(owner, spender, value).wf(),
        l.with_allowance(owner, spender, value).allowance(owner, spender) == value,
        forall|o: Address, s: Address|
            (o, s) != (owner, spender) ==> l.with_allowance(owner, spender, value).allowance(o, s)
                == l.allowance(o, s),
{
    lemma_store_lookup(l.allowances, (owner, spender), value, (owner, spender));
    assert forall|o: Address, s: Address| (o, s) != (owner, spender) implies l.with_allowance(
        owner,
        spender,
        value,
    ).allowance(o, s) == l.allowance(o, s) by {
        lemma_store_lookup(l.allowances, (owner, spender), value, (o, s));
    }
}

/// The supply stays the sum of all balances under a transfer.
pub proof fn lemma_transfer_consistent(l: Ledger, caller: Address, to: Address, value: u128)
    requires
        l.wf(),
    ensures
        l.transfer(caller, to, value) matches Ok(n) ==> n.wf() && n.total_supply
            == n.sum_of_balances(),
{
    if caller != to {
        lemma_transfer_between(l, caller, to, value);
    }
}

/// The supply stays the sum of all balances under a delegated transfer.
pub proof fn lemma_transfer_from_consistent(
    l: Ledger,
    caller: Address,
    from: Address,
    to: Address,
    value: u128,
)
    requires
        l.wf(),
    ensures
        l.transfer_from(caller, from, to, value) matches Ok(n) ==> n.wf() && n.total_supply
            == n.sum_of_balances(),
{
    if from != to && value != 0 {
        if caller == from {
            lemma_transfer_between(l, from, to, value);
        } else if l.allowance(from, caller) >= value {
            let left = (l.allowance(from, caller) - value) as u128;
            lemma_with_allowance(l, from, caller, left);
            lemma_transfer_between(l.approved(from, caller, left), from, to, value);
        }
    }
}

/// The supply stays the sum of all balances under the three allowance
/// operations.
pub proof fn lemma_allowances_consistent(l: Ledger, caller: Address, spender: Address, value: u128)
    requires
        l.wf(),
    ensures
        l.approve(caller, spender, value).wf(),
        l.increase_allowance(caller, spender, value) matches Ok(n) ==> n.wf(),
        l.decrease_allowance(caller, spender, value) matches Ok(n) ==> n.wf(),
{
    lemma_with_allowance(l, caller, spender, value);
    if l.allowance(caller, spender) + value <= u128::MAX {
        lemma_with_allowance(l, caller, spender, (l.allowance(caller, spender) + value) as u128);
    }
    if l.allowance(caller, spender) >= value {
        lemma_with_allowance(l, caller, spender, (l.allowance(caller, spender) - value) as u128);
    }
}

/// What minting does: on success the caller's balance and the supply both
/// grow by `value`, no other balance changes, and the supply stays the sum of
/// all balances.
pub proof fn lemma_mint(l: Ledger, caller: Address, value: u128)
    requires
        l.wf(),
    ensures
        l.mint(caller, value) is Ok <==> value == 0 || l.total_supply + value <= u128::MAX,
        l.mint(caller, value) matches Ok(n) ==> {
            &&& n.wf()
            &&& n.total_supply == n.sum_of_balances()
            &&& n.total_supply == l.total_supply + value
            &&& n.balance_of(caller) == l.balance_of(caller) + value
            &&& n.allowances == l.allowances
            &&& forall|a: Address| a != caller ==> n.balance_of(a) == l.balance_of(a)
        },
{
    let other = Address { high: caller.high, low: if caller.low == 0 { 1u128 } else { 0u128 } };
    lemma_two_keys_bounded(l.balances, caller, other);
    if value != 0 && l.total_supply + value <= u128::MAX {
        let n = l.mint(caller, value)->Ok_0;
        let new_balance = (l.balance_of(caller) + value) as u128;
        lemma_store_lookup(l.balances, caller, new_balance, caller);
        lemma_store_total(l.balances, caller, new_balance);
        assert forall|a: Address| a != caller implies n.balance_of(a) == l.balance_of(a) by {
            lemma_store_lookup(l.balances, caller, new_balance, a);
        }
    }
}

/// What burning does: it is rejected exactly when the caller holds less than
/// a nonzero `value`; on success the caller's balance and the supply both
/// shrink by `value`, no other balance changes, and the supply stays the sum
/// of all balances.
pub proof fn lemma_burn(l: Ledger, caller: Address, value: u128)
    requires
        l.wf(),
    ensures
        l.burn(caller, value) is Ok <==> l.balance_of(caller) >= value,
        l.burn(caller, value) matches Ok(n) ==> {
            &&& n.wf()
            &&& n.total_supply == n.sum_of_balances()
            &&& n.total_supply == l.total_supply - value
            &&& n.balance_of(caller) == l.balance_of(caller) - value
            &&& n.allowances == l.allowances
            &&& forall|a: Address| a != caller ==> n.balance_of(a) == l.balance_of(a)
        },
{
    let other = Address { high: caller.high, low: if caller.low == 0 { 1u128 } else { 0u128 } };
    lemma_two_keys_bounded(l.balances, caller, other);
    if value != 0 && l.balance_of(caller) >= value {
        let n = l.burn(caller, value)->Ok_0;
        let new_balance = (l.balance_of(caller) - value) as u128;
        lemma_store_lookup(l.balances, caller, new_balance, caller);
        lemma_store_total(l.balances, caller, new_balance);
        assert forall|a: Address| a != caller implies n.balance_of(a) == l.balance_of(a) by {
            lemma_store_lookup(l.balances, caller, new_balance, a);
        }
    }
}

/// A transfer to oneself, or of nothing, succeeds and leaves the whole
/// ledger as it was: no balance changes and no notification is recorded.
pub proof fn lemma_transfer_noop(l: Ledger, caller: Address, to: Address, value: u128)
    requires
        caller == to || value == 0,
    ensures
        l.transfer(caller, to, value) == Ok::<Ledger, Rejection>(l),
{
}

/// After an approval of `value` the spender's allowance reads `value`.
pub proof fn lemma_approve_then_allowance(
    l: Ledger,
    owner: Address,
    spender: Address,
    value: u128,
)
    requires
        l.wf(),
        owner != spender,
    ensures
        l.approve(owner, spender, value).allowance(owner, spender) == value,
{
    lemma_with_allowance(l, owner, spender, value);
}

/// Raising an allowance and then lowering it by the same amount succeeds and
/// restores every allowance.
pub proof fn lemma_increase_then_decrease(
    l: Ledger,
    owner: Address,
    spender: Address,
    delta: u128,
)
    requires
        l.wf(),
    ensures
        l.increase_allowance(owner, spender, delta) matches Ok(m) ==> (m.decrease_allowance(
            owner,
            spender,
            delta,
        ) matches Ok(n) && forall|o: Address, s: Address| n.allowance(o, s) == l.allowance(o, s)),
{
    if owner != spender && delta != 0 && l.allowance(owner, spender) + delta <= u128::MAX {
        let raised = (l.allowance(owner, spender) + delta) as u128;
        lemma_with_allowance(l, owner, spender, raised);
        let m = l.increase_allowance(owner, spender, delta)->Ok_0;
        assert(m.allowance(owner, spender) == raised);
        let back = l.allowance(owner, spender);
        lemma_with_allowance(m, owner, spender, back);
        let n = m.decrease_allowance(owner, spender, delta)->Ok_0;
        assert forall|o: Address, s: Address| n.allowance(o, s) == l.allowance(o, s) by {
            if (o, s) != (owner, spender) {
                assert(m.allowance(o, s) == l.allowance(o, s));
            }
        }
    }
}

/// A successful transfer of a nonzero `value` between two different accounts
/// takes exactly `value` from the sender, gives exactly `value` to the
/// recipient and leaves the supply, every other balance and every allowance
/// unchanged.
pub proof fn lemma_transfer_conserves(l: Ledger, caller: Address, to: Address, value: u128)
    requires
        l.wf(),
        caller != to,
        value > 0,
    ensures
        l.transfer(caller, to, value) matches Ok(n) ==> {
            &&& n.balance_of(caller) == l.balance_of(caller) - value
            &&& n.balance_of(to) == l.balance_of(to) + value
            &&& n.total_supply == l.total_supply
            &&& n.allowances == l.allowances
            &&& forall|a: Address| a != caller && a != to ==> n.balance_of(a) == l.balance_of(a)
        },
{
    lemma_transfer_between(l, caller, to, value);
}

/// A transfer to another account of one more than the sender holds is
/// rejected for want of balance; a transfer of all that the sender holds
/// succeeds and leaves the sender with nothing.
pub proof fn lemma_transfer_boundary(l: Ledger, caller: Address, to: Address, value: u128)
    requires
        l.wf(),
        caller != to,
    ensures
        value == l.balance_of(caller) + 1 ==> l.transfer(caller, to, value) == Err::<
            Ledger,
            Rejection,
        >(Rejection::InsufficientBalance),
        value == l.balance_of(caller) ==> (l.transfer(caller, to, value) matches Ok(n)
            && n.balance_of(caller) == 0),
        l.transfer(caller, to, value) is Err <==> l.balance_of(caller) < value,
{
    lemma_transfer_between(l, caller, to, value);
}

/// An owner who moves its own value through the delegated transfer needs no
/// allowance: the outcome is that of a plain transfer, whatever the
/// allowance tables hold, and no allowance changes.
pub proof fn lemma_self_delegation(l: Ledger, from: Address, to: Address, value: u128)
    requires
        l.wf(),
    ensures
        l.transfer_from(from, from, to, value) == l.transfer(from, to, value),
        l.transfer_from(from, from, to, value) is Ok <==> from == to || l.balance_of(from)
            >= value,
        l.transfer_from(from, from, to, value) matches Ok(n) ==> n.allowances == l.allowances,
{
    if from != to {
        lemma_transfer_between(l, from, to, value);
    }
}

/// Minting and then burning the same amount succeeds and returns the
/// caller's balance, every other balance and the supply to what they were.
pub proof fn lemma_mint_then_burn(l: Ledger, caller: Address, value: u128)
    requires
        l.wf(),
    ensures
        l.mint(caller, value) matches Ok(m) ==> (m.burn(caller, value) matches Ok(n) && {
            &&& n.total_supply == l.total_supply
            &&& n.allowances == l.allowances
            &&& forall|a: Address| n.balance_of(a) == l.balance_of(a)
        }),
{
    lemma_mint(l, caller, value);
    if l.mint(caller, value) is Ok {
        let m = l.mint(caller, value)->Ok_0;
        lemma_burn(m, caller, value);
    }
}

} // verus!
