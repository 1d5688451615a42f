use balances::Pallet;

#[test]
fn init_balances() {
    let mut balances = Pallet::new();

    assert_eq!(balances.get_balance(&"alice".to_string()), 0);
    balances.set_balance(&"alice".to_string(), 100);
    assert_eq!(balances.get_balance(&"alice".to_string()), 100);
    assert_eq!(balances.get_balance(&"bob".to_string()), 0);
}

#[test]
fn transfer_balance() {
    let mut balances = Pallet::new();
    let transfer_amount = 10;

    let ini_alice_balance = balances.get_balance(&"alice".to_string());
    assert_eq!(ini_alice_balance, 0);

    let mut res = balances.transfer("alice".to_string(), "bob".to_string(), transfer_amount);
    assert_eq!(res, Err("Not enough funds."));

    balances.set_balance(&"alice".to_string(), 100);
    let new_alice_balance = balances.get_balance(&"alice".to_string());
    assert_eq!(new_alice_balance, 100);

    res = balances.transfer("alice".to_string(), "bob".to_string(), transfer_amount);
    assert_eq!(res, Ok(()));
    let end_alice_balance = balances.get_balance(&"alice".to_string());
    let end_bob_balance = balances.get_balance(&"bob".to_string());
    assert_eq!(end_alice_balance, 90);
    assert_eq!(end_bob_balance, 10);
}
