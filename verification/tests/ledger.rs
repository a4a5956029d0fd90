use psp_coin::{Address, Approval, Event, PSP22Error, PspCoin, Transfer};

fn alice() -> Address {
    Address::new(0, 1)
}

fn bob() -> Address {
    Address::new(0, 2)
}

fn charlie() -> Address {
    Address::new(0, 3)
}

#[test]
fn new_works() {
    let contract = PspCoin::new();
    assert_eq!(contract.total_supply(), 0);
}

#[test]
fn new_with_supply_works() {
    let contract = PspCoin::new_with_supply(1000, alice());
    assert_eq!(contract.total_supply(), 1000);
    assert_eq!(contract.balance_of(alice()), 1000);
}

#[test]
fn transfer_works() {
    let mut contract = PspCoin::new_with_supply(1000, alice());

    assert_eq!(contract.transfer(alice(), bob(), 100, vec![]), Ok(()));
    assert_eq!(contract.balance_of(alice()), 900);
    assert_eq!(contract.balance_of(bob()), 100);
}

#[test]
fn transfer_fails_insufficient_balance() {
    let mut contract = PspCoin::new_with_supply(100, alice());

    assert_eq!(
        contract.transfer(alice(), bob(), 200, vec![]),
        Err(PSP22Error::InsufficientBalance)
    );
}

#[test]
fn transfer_to_self_is_noop() {
    let mut contract = PspCoin::new_with_supply(1000, alice());

    assert_eq!(contract.transfer(alice(), alice(), 100, vec![]), Ok(()));
    assert_eq!(contract.balance_of(alice()), 1000);
}

#[test]
fn approve_works() {
    let mut contract = PspCoin::new_with_supply(1000, alice());

    assert_eq!(contract.approve(alice(), bob(), 200), Ok(()));
    assert_eq!(contract.allowance(alice(), bob()), 200);
}

#[test]
fn transfer_from_works() {
    let mut contract = PspCoin::new_with_supply(1000, alice());

    assert_eq!(contract.approve(alice(), bob(), 200), Ok(()));

    assert_eq!(
        contract.transfer_from(bob(), alice(), charlie(), 100, vec![]),
        Ok(())
    );

    assert_eq!(contract.balance_of(alice()), 900);
    assert_eq!(contract.balance_of(charlie()), 100);
    assert_eq!(contract.allowance(alice(), bob()), 100);
}

#[test]
fn transfer_from_fails_insufficient_allowance() {
    let mut contract = PspCoin::new_with_supply(1000, alice());

    assert_eq!(contract.approve(alice(), bob(), 50), Ok(()));

    assert_eq!(
        contract.transfer_from(bob(), alice(), charlie(), 100, vec![]),
        Err(PSP22Error::InsufficientAllowance)
    );
}

#[test]
fn increase_allowance_works() {
    let mut contract = PspCoin::new_with_supply(1000, alice());

    assert_eq!(contract.approve(alice(), bob(), 100), Ok(()));
    assert_eq!(contract.increase_allowance(alice(), bob(), 50), Ok(()));
    assert_eq!(contract.allowance(alice(), bob()), 150);
}

#[test]
fn decrease_allowance_works() {
    let mut contract = PspCoin::new_with_supply(1000, alice());

    assert_eq!(contract.approve(alice(), bob(), 100), Ok(()));
    assert_eq!(contract.decrease_allowance(alice(), bob(), 30), Ok(()));
    assert_eq!(contract.allowance(alice(), bob()), 70);
}

#[test]
fn decrease_allowance_fails_insufficient() {
    let mut contract = PspCoin::new_with_supply(1000, alice());

    assert_eq!(contract.approve(alice(), bob(), 50), Ok(()));

    assert_eq!(
        contract.decrease_allowance(alice(), bob(), 100),
        Err(PSP22Error::InsufficientAllowance)
    );
}

#[test]
fn mint_works() {
    let mut contract = PspCoin::new();

    assert_eq!(contract.mint(alice(), 500), Ok(()));
    assert_eq!(contract.total_supply(), 500);
    assert_eq!(contract.balance_of(alice()), 500);
}

#[test]
fn burn_works() {
    let mut contract = PspCoin::new_with_supply(1000, alice());

    assert_eq!(contract.burn(alice(), 300), Ok(()));
    assert_eq!(contract.total_supply(), 700);
    assert_eq!(contract.balance_of(alice()), 700);
}

#[test]
fn burn_fails_insufficient_balance() {
    let mut contract = PspCoin::new_with_supply(100, alice());

    assert_eq!(contract.burn(alice(), 200), Err(PSP22Error::InsufficientBalance));
}

#[test]
fn metadata_works() {
    let contract = PspCoin::new();

    assert_eq!(contract.name(), Some(String::from("PSP Coin")));
    assert_eq!(contract.symbol(), Some(String::from("PSP")));
    assert_eq!(contract.decimals(), 18);
}

#[test]
fn zero_value_transfer_is_noop() {
    let mut contract = PspCoin::new_with_supply(1000, alice());

    assert_eq!(contract.transfer(alice(), bob(), 0, vec![]), Ok(()));
    assert_eq!(contract.balance_of(alice()), 1000);
    assert_eq!(contract.balance_of(bob()), 0);
}

#[test]
fn zero_value_mint_is_noop() {
    let mut contract = PspCoin::new();

    assert_eq!(contract.mint(alice(), 0), Ok(()));
    assert_eq!(contract.total_supply(), 0);
}

#[test]
fn zero_value_burn_is_noop() {
    let mut contract = PspCoin::new_with_supply(1000, alice());

    assert_eq!(contract.burn(alice(), 0), Ok(()));
    assert_eq!(contract.total_supply(), 1000);
}

#[test]
fn unknown_accounts_read_as_zero() {
    let contract = PspCoin::new_with_supply(1000, alice());
    assert_eq!(contract.balance_of(bob()), 0);
    assert_eq!(contract.allowance(alice(), bob()), 0);
    assert_eq!(contract.allowance(bob(), alice()), 0);
}

#[test]
fn addresses_differ_by_either_half() {
    let mut contract = PspCoin::new_with_supply(10, Address::new(1, 0));
    assert_eq!(contract.balance_of(Address::new(0, 1)), 0);
    assert_eq!(contract.balance_of(Address::new(1, 1)), 0);
    assert_eq!(
        contract.transfer(Address::new(1, 0), Address::new(1, 1), 4, vec![]),
        Ok(())
    );
    assert_eq!(contract.balance_of(Address::new(1, 0)), 6);
    assert_eq!(contract.balance_of(Address::new(1, 1)), 4);
    assert_eq!(contract.balance_of(Address::new(0, 1)), 0);
}

#[test]
fn supply_is_the_sum_of_balances_after_mixed_operations() {
    let mut contract = PspCoin::new_with_supply(1000, alice());
    assert_eq!(contract.mint(bob(), 250), Ok(()));
    assert_eq!(contract.transfer(alice(), charlie(), 400, vec![]), Ok(()));
    assert_eq!(contract.burn(charlie(), 150), Ok(()));
    assert_eq!(contract.approve(bob(), alice(), 60), Ok(()));
    assert_eq!(
        contract.transfer_from(alice(), bob(), charlie(), 60, vec![]),
        Ok(())
    );
    assert_eq!(contract.balance_of(alice()), 600);
    assert_eq!(contract.balance_of(bob()), 190);
    assert_eq!(contract.balance_of(charlie()), 310);
    assert_eq!(contract.total_supply(), 1100);
    assert_eq!(
        contract.total_supply(),
        contract.balance_of(alice()) + contract.balance_of(bob()) + contract.balance_of(charlie())
    );
}

#[test]
fn noop_transfers_record_nothing() {
    let mut contract = PspCoin::new_with_supply(1000, alice());
    assert_eq!(contract.transfer(alice(), alice(), 5000, vec![]), Ok(()));
    assert_eq!(contract.transfer(alice(), bob(), 0, vec![]), Ok(()));
    assert_eq!(contract.transfer(bob(), bob(), u128::MAX, vec![]), Ok(()));
    assert_eq!(contract.balance_of(alice()), 1000);
    assert_eq!(contract.balance_of(bob()), 0);
    assert_eq!(contract.total_supply(), 1000);
    assert_eq!(contract.take_events(), Vec::<Event>::new());
}

#[test]
fn approve_then_allowance_round_trip() {
    let mut contract = PspCoin::new();
    assert_eq!(contract.approve(alice(), bob(), u128::MAX), Ok(()));
    assert_eq!(contract.allowance(alice(), bob()), u128::MAX);
    assert_eq!(contract.approve(alice(), bob(), 7), Ok(()));
    assert_eq!(contract.allowance(alice(), bob()), 7);
    assert_eq!(contract.allowance(bob(), alice()), 0);
}

#[test]
fn approve_of_oneself_is_noop() {
    let mut contract = PspCoin::new();
    assert_eq!(contract.approve(alice(), alice(), 5), Ok(()));
    assert_eq!(contract.allowance(alice(), alice()), 0);
    assert_eq!(contract.take_events(), Vec::<Event>::new());
}

#[test]
fn increase_then_decrease_restores_allowance() {
    let mut contract = PspCoin::new();
    assert_eq!(contract.approve(alice(), bob(), 40), Ok(()));
    assert_eq!(contract.increase_allowance(alice(), bob(), 25), Ok(()));
    assert_eq!(contract.allowance(alice(), bob()), 65);
    assert_eq!(contract.decrease_allowance(alice(), bob(), 25), Ok(()));
    assert_eq!(contract.allowance(alice(), bob()), 40);
}

#[test]
fn allowance_adjustments_that_do_nothing() {
    let mut contract = PspCoin::new();
    assert_eq!(contract.increase_allowance(alice(), alice(), 9), Ok(()));
    assert_eq!(contract.increase_allowance(alice(), bob(), 0), Ok(()));
    assert_eq!(contract.decrease_allowance(alice(), alice(), 9), Ok(()));
    assert_eq!(contract.decrease_allowance(alice(), bob(), 0), Ok(()));
    assert_eq!(contract.allowance(alice(), alice()), 0);
    assert_eq!(contract.allowance(alice(), bob()), 0);
    assert_eq!(contract.take_events(), Vec::<Event>::new());
}

#[test]
fn increase_allowance_rejects_overflow() {
    let mut contract = PspCoin::new();
    assert_eq!(contract.approve(alice(), bob(), u128::MAX - 1), Ok(()));
    assert_eq!(
        contract.increase_allowance(alice(), bob(), 2),
        Err(PSP22Error::Custom(String::from("Allowance overflow")))
    );
    assert_eq!(contract.allowance(alice(), bob()), u128::MAX - 1);
    assert_eq!(contract.increase_allowance(alice(), bob(), 1), Ok(()));
    assert_eq!(contract.allowance(alice(), bob()), u128::MAX);
}

#[test]
fn transfer_conserves_value() {
    let mut contract = PspCoin::new_with_supply(1000, alice());
    assert_eq!(contract.mint(bob(), 10), Ok(()));
    assert_eq!(contract.transfer(alice(), bob(), 123, vec![]), Ok(()));
    assert_eq!(contract.balance_of(alice()), 877);
    assert_eq!(contract.balance_of(bob()), 133);
    assert_eq!(contract.total_supply(), 1010);
}

#[test]
fn transfer_boundary_at_the_whole_balance() {
    let mut contract = PspCoin::new_with_supply(500, alice());
    assert_eq!(
        contract.transfer(alice(), bob(), 501, vec![]),
        Err(PSP22Error::InsufficientBalance)
    );
    assert_eq!(contract.balance_of(alice()), 500);
    assert_eq!(contract.balance_of(bob()), 0);
    assert_eq!(contract.total_supply(), 500);
    assert_eq!(contract.take_events(), Vec::<Event>::new());
    assert_eq!(contract.transfer(alice(), bob(), 500, vec![]), Ok(()));
    assert_eq!(contract.balance_of(alice()), 0);
    assert_eq!(contract.balance_of(bob()), 500);
}

#[test]
fn delegated_spend_sequencing() {
    let mut contract = PspCoin::new_with_supply(1000, alice());
    assert_eq!(contract.approve(alice(), bob(), 200), Ok(()));
    assert_eq!(contract.take_events().len(), 1);
    assert_eq!(
        contract.transfer_from(bob(), alice(), charlie(), 100, vec![]),
        Ok(())
    );
    assert_eq!(contract.balance_of(alice()), 900);
    assert_eq!(contract.balance_of(charlie()), 100);
    assert_eq!(contract.allowance(alice(), bob()), 100);
    assert_eq!(
        contract.take_events(),
        vec![
            Event::Approval(Approval { owner: alice(), spender: bob(), value: 100 }),
            Event::Transfer(Transfer { from: Some(alice()), to: Some(charlie()), value: 100 }),
        ]
    );
}

#[test]
fn self_delegation_needs_no_allowance() {
    let mut contract = PspCoin::new_with_supply(1000, alice());
    assert_eq!(contract.allowance(alice(), alice()), 0);
    assert_eq!(
        contract.transfer_from(alice(), alice(), bob(), 300, vec![]),
        Ok(())
    );
    assert_eq!(contract.balance_of(alice()), 700);
    assert_eq!(contract.balance_of(bob()), 300);
    assert_eq!(contract.allowance(alice(), alice()), 0);
    assert_eq!(
        contract.take_events(),
        vec![Event::Transfer(Transfer { from: Some(alice()), to: Some(bob()), value: 300 })]
    );
}

#[test]
fn delegated_noop_comes_before_the_allowance_check() {
    let mut contract = PspCoin::new_with_supply(1000, alice());
    assert_eq!(
        contract.transfer_from(bob(), alice(), alice(), 100, vec![]),
        Ok(())
    );
    assert_eq!(
        contract.transfer_from(bob(), alice(), charlie(), 0, vec![]),
        Ok(())
    );
    assert_eq!(contract.balance_of(alice()), 1000);
    assert_eq!(contract.take_events(), Vec::<Event>::new());
}

#[test]
fn delegated_transfer_keeps_allowance_when_balance_is_short() {
    let mut contract = PspCoin::new_with_supply(50, alice());
    assert_eq!(contract.approve(alice(), bob(), 200), Ok(()));
    assert_eq!(contract.take_events().len(), 1);
    assert_eq!(
        contract.transfer_from(bob(), alice(), charlie(), 100, vec![]),
        Err(PSP22Error::InsufficientBalance)
    );
    assert_eq!(contract.allowance(alice(), bob()), 200);
    assert_eq!(contract.balance_of(alice()), 50);
    assert_eq!(contract.balance_of(charlie()), 0);
    assert_eq!(contract.take_events(), Vec::<Event>::new());
}

#[test]
fn mint_then_burn_is_symmetric() {
    let mut contract = PspCoin::new_with_supply(1000, alice());
    assert_eq!(contract.mint(bob(), 77), Ok(()));
    assert_eq!(contract.balance_of(bob()), 77);
    assert_eq!(contract.total_supply(), 1077);
    assert_eq!(contract.burn(bob(), 77), Ok(()));
    assert_eq!(contract.balance_of(bob()), 0);
    assert_eq!(contract.total_supply(), 1000);
    assert_eq!(
        contract.take_events(),
        vec![
            Event::Transfer(Transfer { from: None, to: Some(bob()), value: 77 }),
            Event::Transfer(Transfer { from: Some(bob()), to: None, value: 77 }),
        ]
    );
}

#[test]
fn mint_rejects_overflow_of_balance_and_supply() {
    let mut contract = PspCoin::new_with_supply(u128::MAX, alice());
    assert_eq!(
        contract.mint(alice(), 1),
        Err(PSP22Error::Custom(String::from("Balance overflow")))
    );
    assert_eq!(
        contract.mint(bob(), 1),
        Err(PSP22Error::Custom(String::from("Max supply exceeded")))
    );
    assert_eq!(contract.balance_of(alice()), u128::MAX);
    assert_eq!(contract.balance_of(bob()), 0);
    assert_eq!(contract.total_supply(), u128::MAX);
    assert_eq!(contract.take_events(), Vec::<Event>::new());
}

#[test]
fn approval_events_carry_the_resulting_allowance() {
    let mut contract = PspCoin::new();
    assert_eq!(contract.approve(alice(), bob(), 10), Ok(()));
    assert_eq!(contract.increase_allowance(alice(), bob(), 5), Ok(()));
    assert_eq!(contract.decrease_allowance(alice(), bob(), 12), Ok(()));
    assert_eq!(
        contract.take_events(),
        vec![
            Event::Approval(Approval { owner: alice(), spender: bob(), value: 10 }),
            Event::Approval(Approval { owner: alice(), spender: bob(), value: 15 }),
            Event::Approval(Approval { owner: alice(), spender: bob(), value: 3 }),
        ]
    );
    assert_eq!(contract.take_events(), Vec::<Event>::new());
}
