use balances::Pallet;

fn id(name: &str) -> String {
    name.to_string()
}

#[test]
fn new_ledger_has_zero_everywhere() {
    let ledger = Pallet::new();
    assert_eq!(ledger.get_balance(&id("alice")), 0);
    assert_eq!(ledger.get_balance(&id("bob")), 0);
    assert_eq!(ledger.get_balance(&id("")), 0);
}

#[test]
fn unwritten_account_stays_zero_while_others_are_written() {
    let mut ledger = Pallet::new();
    ledger.set_balance(&id("alice"), 7);
    ledger.set_balance(&id("bob"), 9);
    assert_eq!(ledger.transfer(id("alice"), id("bob"), 3), Ok(()));
    assert_eq!(ledger.get_balance(&id("carol")), 0);
    assert_eq!(ledger.get_balance(&id("alic")), 0);
    assert_eq!(ledger.get_balance(&id("alice ")), 0);
    assert_eq!(ledger.get_balance(&id("Alice")), 0);
}

#[test]
fn reading_does_not_write() {
    let ledger = Pallet::new();
    assert_eq!(ledger.get_balance(&id("alice")), 0);
    assert_eq!(ledger.get_balance(&id("alice")), 0);
    let shared: &Pallet = &ledger;
    assert_eq!(shared.get_balance(&id("alice")), 0);
}

#[test]
fn written_balance_is_read_back() {
    let mut ledger = Pallet::new();
    ledger.set_balance(&id("alice"), 100);
    assert_eq!(ledger.get_balance(&id("alice")), 100);
    ledger.set_balance(&id("bob"), 1);
    assert_eq!(ledger.get_balance(&id("alice")), 100);
    assert_eq!(ledger.get_balance(&id("bob")), 1);
}

#[test]
fn later_write_replaces_earlier() {
    let mut ledger = Pallet::new();
    ledger.set_balance(&id("alice"), 100);
    ledger.set_balance(&id("bob"), 5);
    ledger.set_balance(&id("alice"), 42);
    assert_eq!(ledger.get_balance(&id("alice")), 42);
    assert_eq!(ledger.get_balance(&id("bob")), 5);
    ledger.set_balance(&id("alice"), 0);
    assert_eq!(ledger.get_balance(&id("alice")), 0);
    assert_eq!(ledger.get_balance(&id("bob")), 5);
}

#[test]
fn largest_balance_is_held() {
    let mut ledger = Pallet::new();
    ledger.set_balance(&id("whale"), u128::MAX);
    assert_eq!(ledger.get_balance(&id("whale")), u128::MAX);
    assert_eq!(
        ledger.get_balance(&id("whale")),
        340282366920938463463374607431768211455
    );
}

#[test]
fn identifiers_are_compared_whole() {
    let mut ledger = Pallet::new();
    ledger.set_balance(&id(""), 1);
    ledger.set_balance(&id("a"), 2);
    ledger.set_balance(&id("ab"), 3);
    ledger.set_balance(&id("b"), 4);
    ledger.set_balance(&id("\u{e9}"), 5);
    ledger.set_balance(&id("e\u{301}"), 6);
    assert_eq!(ledger.get_balance(&id("")), 1);
    assert_eq!(ledger.get_balance(&id("a")), 2);
    assert_eq!(ledger.get_balance(&id("ab")), 3);
    assert_eq!(ledger.get_balance(&id("b")), 4);
    assert_eq!(ledger.get_balance(&id("\u{e9}")), 5);
    assert_eq!(ledger.get_balance(&id("e\u{301}")), 6);
    assert_eq!(ledger.get_balance(&id("ba")), 0);
}

#[test]
fn many_accounts_keep_their_own_balances() {
    let mut ledger = Pallet::new();
    for i in 0..200u128 {
        ledger.set_balance(&format!("account-{}", i), i * 3);
    }
    for i in (0..200u128).rev() {
        assert_eq!(ledger.get_balance(&format!("account-{}", i)), i * 3);
    }
    for i in (0..200u128).step_by(2) {
        ledger.set_balance(&format!("account-{}", i), i + 1000);
    }
    for i in 0..200u128 {
        let expected = if i % 2 == 0 { i + 1000 } else { i * 3 };
        assert_eq!(ledger.get_balance(&format!("account-{}", i)), expected);
    }
    assert_eq!(ledger.get_balance(&id("account-200")), 0);
}
