use psp_coin::table::{read_allowance, read_balance, write_allowance, write_balance};
use psp_coin::Address;

#[test]
fn balances_are_replaced_in_place_and_appended_when_new() {
    let a = Address::new(0, 1);
    let b = Address::new(0, 2);
    let mut table: Vec<(Address, u128)> = Vec::new();
    assert_eq!(read_balance(&table, a), 0);
    write_balance(&mut table, a, 5);
    write_balance(&mut table, b, 6);
    write_balance(&mut table, a, 9);
    assert_eq!(table, vec![(a, 9), (b, 6)]);
    assert_eq!(read_balance(&table, a), 9);
    assert_eq!(read_balance(&table, b), 6);
    assert_eq!(read_balance(&table, Address::new(1, 1)), 0);
}

#[test]
fn allowances_are_keyed_by_the_ordered_pair() {
    let a = Address::new(0, 1);
    let b = Address::new(0, 2);
    let mut table: Vec<((Address, Address), u128)> = Vec::new();
    write_allowance(&mut table, (a, b), 5);
    write_allowance(&mut table, (b, a), 6);
    write_allowance(&mut table, (a, b), 0);
    assert_eq!(table, vec![((a, b), 0), ((b, a), 6)]);
    assert_eq!(read_allowance(&table, (a, b)), 0);
    assert_eq!(read_allowance(&table, (b, a)), 6);
    assert_eq!(read_allowance(&table, (a, a)), 0);
}
