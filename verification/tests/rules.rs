use psp_coin::rules::{
    decide_approve, decide_burn, decide_decrease, decide_increase, decide_mint, decide_transfer,
    decide_transfer_from, DelegatedMove,
};
use psp_coin::{Address, PSP22Error};

fn owner() -> Address {
    Address::new(7, 7)
}

fn spender() -> Address {
    Address::new(7, 8)
}

fn other() -> Address {
    Address::new(8, 7)
}

#[test]
fn decide_transfer_moves_the_value() {
    assert_eq!(decide_transfer(owner(), other(), 10, 5, 4), Ok(Some((6, 9))));
    assert_eq!(decide_transfer(owner(), other(), 10, 5, 10), Ok(Some((0, 15))));
}

#[test]
fn decide_transfer_noops() {
    assert_eq!(decide_transfer(owner(), owner(), 10, 10, 400), Ok(None));
    assert_eq!(decide_transfer(owner(), other(), 10, 5, 0), Ok(None));
}

#[test]
fn decide_transfer_rejections() {
    assert_eq!(
        decide_transfer(owner(), other(), 10, 5, 11),
        Err(PSP22Error::InsufficientBalance)
    );
    assert_eq!(
        decide_transfer(owner(), other(), 10, u128::MAX - 3, 4),
        Err(PSP22Error::Custom(String::from("Overflow")))
    );
    assert_eq!(
        decide_transfer(owner(), other(), 10, u128::MAX - 4, 4),
        Ok(Some((6, u128::MAX)))
    );
}

#[test]
fn decide_transfer_from_spends_the_allowance() {
    assert_eq!(
        decide_transfer_from(spender(), owner(), other(), 200, 1000, 0, 100),
        Ok(Some(DelegatedMove { allowance: Some(100), from_balance: 900, to_balance: 100 }))
    );
}

#[test]
fn decide_transfer_from_ignores_the_allowance_of_the_owner() {
    assert_eq!(
        decide_transfer_from(owner(), owner(), other(), 0, 1000, 0, 100),
        Ok(Some(DelegatedMove { allowance: None, from_balance: 900, to_balance: 100 }))
    );
}

#[test]
fn decide_transfer_from_order_of_checks() {
    assert_eq!(decide_transfer_from(spender(), owner(), owner(), 0, 0, 0, 5), Ok(None));
    assert_eq!(decide_transfer_from(spender(), owner(), other(), 0, 0, 0, 0), Ok(None));
    assert_eq!(
        decide_transfer_from(spender(), owner(), other(), 4, 3, 0, 5),
        Err(PSP22Error::InsufficientAllowance)
    );
    assert_eq!(
        decide_transfer_from(spender(), owner(), other(), 5, 3, 0, 5),
        Err(PSP22Error::InsufficientBalance)
    );
    assert_eq!(
        decide_transfer_from(spender(), owner(), other(), 5, 5, u128::MAX, 5),
        Err(PSP22Error::Custom(String::from("Overflow")))
    );
}

#[test]
fn decide_approve_skips_oneself() {
    assert!(decide_approve(owner(), spender()));
    assert!(!decide_approve(owner(), owner()));
}

#[test]
fn decide_increase_cases() {
    assert_eq!(decide_increase(owner(), spender(), 100, 50), Ok(Some(150)));
    assert_eq!(decide_increase(owner(), owner(), 100, 50), Ok(None));
    assert_eq!(decide_increase(owner(), spender(), 100, 0), Ok(None));
    assert_eq!(
        decide_increase(owner(), spender(), u128::MAX, 1),
        Err(PSP22Error::Custom(String::from("Allowance overflow")))
    );
}

#[test]
fn decide_decrease_cases() {
    assert_eq!(decide_decrease(owner(), spender(), 100, 30), Ok(Some(70)));
    assert_eq!(decide_decrease(owner(), spender(), 100, 100), Ok(Some(0)));
    assert_eq!(decide_decrease(owner(), owner(), 100, 500), Ok(None));
    assert_eq!(decide_decrease(owner(), spender(), 100, 0), Ok(None));
    assert_eq!(
        decide_decrease(owner(), spender(), 50, 100),
        Err(PSP22Error::InsufficientAllowance)
    );
}

#[test]
fn decide_mint_cases() {
    assert_eq!(decide_mint(20, 100, 5), Ok(Some((25, 105))));
    assert_eq!(decide_mint(20, 100, 0), Ok(None));
    assert_eq!(
        decide_mint(u128::MAX, u128::MAX, 1),
        Err(PSP22Error::Custom(String::from("Balance overflow")))
    );
    assert_eq!(
        decide_mint(0, u128::MAX, 1),
        Err(PSP22Error::Custom(String::from("Max supply exceeded")))
    );
}

#[test]
fn decide_burn_cases() {
    assert_eq!(decide_burn(20, 100, 5), Ok(Some((15, 95))));
    assert_eq!(decide_burn(20, 100, 0), Ok(None));
    assert_eq!(decide_burn(20, 100, 21), Err(PSP22Error::InsufficientBalance));
    assert_eq!(decide_burn(20, 10, 15), Err(PSP22Error::InsufficientBalance));
}
