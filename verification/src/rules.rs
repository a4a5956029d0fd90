use vstd::prelude::*;
use crate::account::Address;
use crate::data::{
    allowance_overflow_message, balance_overflow_message, overflow_message,
    supply_overflow_message, PSP22Error, Rejection,
};

verus! {

/// Whether an executable outcome carries the content of a mathematical one.
pub open spec fn same_outcome<T>(r: Result<T, PSP22Error>, m: Result<T, Rejection>) -> bool {
    match m {
        Ok(v) => r matches Ok(x) && x == v,
        Err(e) => r matches Err(x) && x@ == e,
    }
}

/// The quantities to store for a delegated transfer that goes ahead.
#[derive(Clone, Copy, Debug, PartialEq, Eq)]
pub struct DelegatedMove {
    /// What is left of the spender's allowance; absent where the owner acts
    /// for itself and no allowance is touched.
    pub allowance: Option<u128>,
    /// The new balance of the source.
    pub from_balance: u128,
    /// The new balance of the destination.
    pub to_balance: u128,
}

/// A transfer of `value` from `from`, which holds `from_balance`, to `to`,
/// which holds `to_balance`: nothing to do (`None`), the new balances of the
/// two, or the rejection.
pub open spec fn transfer_rule(
    from: Address,
    to: Address,
    from_balance: u128,
    to_balance: u128,
    value: u128,
) -> Result<Option<(u128, u128)>, Rejection> {
    if from == to || value == 0 {
        Ok(None)
    } else if from_balance < value {
        Err(Rejection::InsufficientBalance)
    } else if to_balance + value > u128::MAX {
        Err(Rejection::Custom(overflow_message()))
    } else {
        Ok(Some(((from_balance - value) as u128, (to_balance + value) as u128)))
    }
}

/// A transfer of `value` from `from` to `to` asked for by `caller`, who has
/// an allowance of `allowance` from `from`. The no-op test comes first, then
/// the allowance (only where `caller` is not `from`), then the balances.
pub open spec fn transfer_from_rule(
    caller: Address,
    from: Address,
    to: Address,
    allowance: u128,
    from_balance: u128,
    to_balance: u128,
    value: u128,
) -> Result<Option<DelegatedMove>, Rejection> {
    if from == to || value == 0 {
        Ok(None)
    } else if caller != from && allowance < value {
        Err(Rejection::InsufficientAllowance)
    } else {
        match transfer_rule(from, to, from_balance, to_balance, value) {
            Ok(Some((new_from, new_to))) => Ok(
                Some(
                    DelegatedMove {
                        allowance: if caller != from {
                            Some((allowance - value) as u128)
                        } else {
                            None
                        },
                        from_balance: new_from,
                        to_balance: new_to,
                    },
                ),
            ),
            Ok(None) => Ok(None),
            Err(e) => Err(e),
        }
    }
}

/// Whether an approval by `caller` for `spender` stores anything: an
/// approval of oneself does not.
pub open spec fn approve_rule(caller: Address, spender: Address) -> bool {
    caller != spender
}

/// Raising the allowance `allowance` of `spender` from `caller` by `delta`:
/// nothing to do, the new allowance, or the rejection.
pub open spec fn increase_rule(
    caller: Address,
    spender: Address,
    allowance: u128,
    delta: u128,
) -> Result<Option<u128>, Rejection> {
    if caller == spender || delta == 0 {
        Ok(None)
    } else if allowance + delta > u128::MAX {
        Err(Rejection::Custom(allowance_overflow_message()))
    } else {
        Ok(Some((allowance + delta) as u128))
    }
}

/// Lowering the allowance `allowance` of `spender` from `caller` by `delta`:
/// nothing to do, the new allowance, or the rejection.
pub open spec fn decrease_rule(
    caller: Address,
    spender: Address,
    allowance: u128,
    delta: u128,
) -> Result<Option<u128>, Rejection> {
    if caller == spender || delta == 0 {
        Ok(None)
    } else if allowance < delta {
        Err(Rejection::InsufficientAllowance)
    } else {
        Ok(Some((allowance - delta) as u128))
    }
}

/// Creating `value` for an account that holds `balance` under a supply of
/// `supply`: nothing to do, the new balance and the new supply, or the
/// rejection. The balance is examined first.
pub open spec fn mint_rule(balance: u128, supply: u128, value: u128) -> Result<
    Option<(u128, u128)>,
    Rejection,
> {
    if value == 0 {
        Ok(None)
    } else if balance + value > u128::MAX {
        Err(Rejection::Custom(balance_overflow_message()))
    } else if supply + value > u128::MAX {
        Err(Rejection::Custom(supply_overflow_message()))
    } else {
        Ok(Some(((balance + value) as u128, (supply + value) as u128)))
    }
}

/// Destroying `value` of an account that holds `balance` under a supply of
/// `supply`: nothing to do, the new balance and the new supply, or the
/// rejection.
pub open spec fn burn_rule(balance: u128, supply: u128, value: u128) -> Result<
    Option<(u128, u128)>,
    Rejection,
> {
    if value == 0 {
        Ok(None)
    } else if balance < value || supply < value {
        Err(Rejection::InsufficientBalance)
    } else {
        Ok(Some(((balance - value) as u128, (supply - value) as u128)))
    }
}

/// Decides a transfer of `value` from `from` to `to`, given what the two
/// hold.
pub fn decide_transfer(
    from: Address,
    to: Address,
    from_balance: u128,
    to_balance: u128,
    value: u128,
) -> (r: Result<Option<(u128, u128)>, PSP22Error>)
    ensures
        same_outcome(r, transfer_rule(from, to, from_balance, to_balance, value)),
{
    if from == to || value == 0 {
        return Ok(None);
    }
    match from_balance.checked_sub(value) {
        None => Err(PSP22Error::InsufficientBalance),
        Some(new_from) => match to_balance.checked_add(value) {
            None => Err(PSP22Error::Custom("Overflow".to_owned())),
            Some(new_to) => Ok(Some((new_from, new_to))),
        },
    }
}

/// Decides a delegated transfer of `value` from `from` to `to` asked for by
/// `caller`, given the allowance of `caller` from `from` and what the two
/// accounts hold. `allowance` is not looked at where `caller` is `from`.
pub fn decide_transfer_from(
    caller: Address,
    from: Address,
    to: Address,
    allowance: u128,
    from_balance: u128,
    to_balance: u128,
    value: u128,
) -> (r: Result<Option<DelegatedMove>, PSP22Error>)
    ensures
        same_outcome(
            r,
            transfer_from_rule(caller, from, to, allowance, from_balance, to_balance, value),
        ),
{
    if from == to || value == 0 {
        return Ok(None);
    }
    let left = if caller != from {
        match allowance.checked_sub(value) {
            None => {
                return Err(PSP22Error::InsufficientAllowance);
            },
            Some(left) => Some(left),
        }
    } else {
        None
    };
    match decide_transfer(from, to, from_balance, to_balance, value) {
        Err(e) => Err(e),
        Ok(None) => Ok(None),
        Ok(Some((new_from, new_to))) => Ok(
            Some(DelegatedMove { allowance: left, from_balance: new_from, to_balance: new_to }),
        ),
    }
}

/// Decides whether an approval by `caller` for `spender` stores anything.
pub fn decide_approve(caller: Address, spender: Address) -> (r: bool)
    ensures
        r == approve_rule(caller, spender),
{
    caller != spender
}

/// Decides the raising by `delta` of the allowance that `spender` has from
/// `caller`.
pub fn decide_increase(caller: Address, spender: Address, allowance: u128, delta: u128) -> (r:
    Result<Option<u128>, PSP22Error>)
    ensures
        same_outcome(r, increase_rule(caller, spender, allowance, delta)),
{
    if caller == spender || delta == 0 {
        return Ok(None);
    }
    match allowance.checked_add(delta) {
        None => Err(PSP22Error::Custom("Allowance overflow".to_owned())),
        Some(raised) => Ok(Some(raised)),
    }
}

/// Decides the lowering by `delta` of the allowance that `spender` has from
/// `caller`.
pub fn decide_decrease(caller: Address, spender: Address, allowance: u128, delta: u128) -> (r:
    Result<Option<u128>, PSP22Error>)
    ensures
        same_outcome(r, decrease_rule(caller, spender, allowance, delta)),
{
    if caller == spender || delta == 0 {
        return Ok(None);
    }
    match allowance.checked_sub(delta) {
        None => Err(PSP22Error::InsufficientAllowance),
        Some(left) => Ok(Some(left)),
    }
}

/// Decides the creation of `value` for an account that holds `balance`,
/// under a supply of `supply`.
pub fn decide_mint(balance: u128, supply: u128, value: u128) -> (r: Result<
    Option<(u128, u128)>,
    PSP22Error,
>)
    ensures
        same_outcome(r, mint_rule(balance, supply, value)),
{
    if value == 0 {
        return Ok(None);
    }
    match balance.checked_add(value) {
        None => Err(PSP22Error::Custom("Balance overflow".to_owned())),
        Some(new_balance) => match supply.checked_add(value) {
            None => Err(PSP22Error::Custom("Max supply exceeded".to_owned())),
            Some(new_supply) => Ok(Some((new_balance, new_supply))),
        },
    }
}

/// Decides the destruction of `value` by an account that holds `balance`,
/// under a supply of `supply`.
pub fn decide_burn(balance: u128, supply: u128, value: u128) -> (r: Result<
    Option<(u128, u128)>,
    PSP22Error,
>)
    ensures
        same_outcome(r, burn_rule(balance, supply, value)),
{
    if value == 0 {
        return Ok(None);
    }
    match balance.checked_sub(value) {
        None => Err(PSP22Error::InsufficientBalance),
        Some(new_balance) => match supply.checked_sub(value) {
            None => Err(PSP22Error::InsufficientBalance),
            Some(new_supply) => Ok(Some((new_balance, new_supply))),
        },
    }
}

} // verus!
