use ft_ledger::errors::Error;
use ft_ledger::events::Event;
use ft_ledger::ledger::Ledger;

const TOTAL_SUPPLY: u128 = 1_000_000_000_000_000;
const MIN_DEPOSIT: u128 = 1250;

fn s(x: &str) -> String {
    x.to_owned()
}

#[test]
fn test_new() {
    let contract = Ledger::new(s("bob"), TOTAL_SUPPLY, MIN_DEPOSIT);
    assert_eq!(contract.total_supply(), TOTAL_SUPPLY);
    assert_eq!(contract.balance_of(&s("bob")), TOTAL_SUPPLY);
}

#[test]
fn test_transfer() {
    let mut contract = Ledger::new(s("charlie"), TOTAL_SUPPLY, MIN_DEPOSIT);
    let bounds = contract.storage_balance_bounds();
    let r = contract.register(&s("bob"), bounds.min);
    assert_eq!(r, Ok((true, 0)));
    let transfer_amount = TOTAL_SUPPLY / 3;
    let t = contract.simple_transfer(&s("charlie"), &s("bob"), transfer_amount, None, 1);
    assert_eq!(t, Ok(()));
    assert_eq!(contract.balance_of(&s("charlie")), TOTAL_SUPPLY - transfer_amount);
    assert_eq!(contract.balance_of(&s("bob")), transfer_amount);
}

#[test]
fn genesis_mints_supply_to_owner() {
    let l = Ledger::new(s("owner"), 1_000_000, MIN_DEPOSIT);
    assert_eq!(l.total_supply(), 1_000_000);
    assert_eq!(l.balance_of(&s("owner")), 1_000_000);
    assert_eq!(l.events.len(), 1);
    match &l.events[0] {
        Event::Mint { owner, amount } => {
            assert_eq!(owner, "owner");
            assert_eq!(*amount, 1_000_000);
        },
        _ => panic!("genesis must record a mint event"),
    }
}

#[test]
fn balance_of_unregistered_is_zero() {
    let l = Ledger::new(s("owner"), 1_000_000, MIN_DEPOSIT);
    assert_eq!(l.balance_of(&s("nobody")), 0);
}

#[test]
fn transfer_moves_exactly_the_amount() {
    let mut l = Ledger::new(s("o"), 1_000_000, MIN_DEPOSIT);
    l.register(&s("b"), MIN_DEPOSIT).unwrap();
    let t = l.simple_transfer(&s("o"), &s("b"), 300_000, None, 1);
    assert_eq!(t, Ok(()));
    assert_eq!(l.balance_of(&s("o")), 700_000);
    assert_eq!(l.balance_of(&s("b")), 300_000);
    assert_eq!(l.total_supply(), 1_000_000);
}

#[test]
fn transfer_conserves_pair_sum_and_third_parties() {
    let mut l = Ledger::new(s("a"), 500_000, MIN_DEPOSIT);
    l.register(&s("b"), MIN_DEPOSIT).unwrap();
    l.register(&s("c"), MIN_DEPOSIT).unwrap();
    l.simple_transfer(&s("a"), &s("c"), 111, None, 1).unwrap();
    let a0 = l.balance_of(&s("a"));
    let b0 = l.balance_of(&s("b"));
    let c0 = l.balance_of(&s("c"));
    l.transfer(&s("a"), &s("b"), 40_000).unwrap();
    assert_eq!(l.balance_of(&s("a")) + l.balance_of(&s("b")), a0 + b0);
    assert_eq!(l.balance_of(&s("c")), c0);
    assert_eq!(l.total_supply(), 500_000);
}

#[test]
fn self_transfer_always_fails() {
    let mut l = Ledger::new(s("a"), 1_000, MIN_DEPOSIT);
    assert_eq!(l.transfer(&s("a"), &s("a"), 10), Err(Error::SelfTransfer));
    assert_eq!(l.transfer(&s("a"), &s("a"), 0), Err(Error::SelfTransfer));
    assert_eq!(l.balance_of(&s("a")), 1_000);
}

#[test]
fn zero_amount_transfer_always_fails() {
    let mut l = Ledger::new(s("a"), 1_000, MIN_DEPOSIT);
    l.register(&s("b"), MIN_DEPOSIT).unwrap();
    assert_eq!(l.transfer(&s("a"), &s("b"), 0), Err(Error::ZeroAmount));
    assert_eq!(l.balance_of(&s("a")), 1_000);
    assert_eq!(l.balance_of(&s("b")), 0);
}

#[test]
fn transfer_to_unregistered_fails_and_leaves_ledger() {
    let mut l = Ledger::new(s("o"), 1_000_000, MIN_DEPOSIT);
    assert_eq!(l.simple_transfer(&s("o"), &s("c"), 10, None, 1), Err(Error::AccountNotRegistered));
    assert_eq!(l.balance_of(&s("o")), 1_000_000);
    assert_eq!(l.balance_of(&s("c")), 0);
    assert_eq!(l.total_supply(), 1_000_000);
    assert_eq!(l.events.len(), 1);
}

#[test]
fn transfer_from_unregistered_fails() {
    let mut l = Ledger::new(s("o"), 1_000_000, MIN_DEPOSIT);
    assert_eq!(l.transfer(&s("ghost"), &s("o"), 10), Err(Error::AccountNotRegistered));
}

#[test]
fn oversized_transfer_overflows_receiver() {
    let mut l = Ledger::new(s("o"), 1_000_000, MIN_DEPOSIT);
    l.register(&s("b"), MIN_DEPOSIT).unwrap();
    l.simple_transfer(&s("o"), &s("b"), 300_000, None, 1).unwrap();
    let r = l.simple_transfer(&s("o"), &s("b"), u128::MAX, None, 1);
    assert_eq!(r, Err(Error::Overflow));
    assert_eq!(l.balance_of(&s("o")), 700_000);
    assert_eq!(l.balance_of(&s("b")), 300_000);
}

#[test]
fn insufficient_balance_is_reported() {
    let mut l = Ledger::new(s("o"), 100, MIN_DEPOSIT);
    l.register(&s("b"), MIN_DEPOSIT).unwrap();
    assert_eq!(l.transfer(&s("o"), &s("b"), 101), Err(Error::InsufficientBalance));
    assert_eq!(l.balance_of(&s("o")), 100);
}

#[test]
fn explicit_intent_marker_is_checked_first() {
    let mut l = Ledger::new(s("o"), 1_000, MIN_DEPOSIT);
    l.register(&s("b"), MIN_DEPOSIT).unwrap();
    assert_eq!(
        l.simple_transfer(&s("o"), &s("b"), 10, None, 0),
        Err(Error::ExplicitIntentRequired)
    );
    assert_eq!(
        l.simple_transfer(&s("o"), &s("b"), 10, None, 2),
        Err(Error::ExplicitIntentRequired)
    );
    assert_eq!(l.balance_of(&s("b")), 0);
}

#[test]
fn deposit_and_withdraw_adjust_one_balance() {
    let mut l = Ledger::new(s("o"), 1_000, MIN_DEPOSIT);
    assert_eq!(l.deposit(&s("ghost"), 5), Err(Error::AccountNotRegistered));
    assert_eq!(l.withdraw(&s("ghost"), 5), Err(Error::AccountNotRegistered));
    assert_eq!(l.withdraw(&s("o"), 1_001), Err(Error::InsufficientBalance));
    assert_eq!(l.withdraw(&s("o"), 400), Ok(()));
    assert_eq!(l.balance_of(&s("o")), 600);
    assert_eq!(l.deposit(&s("o"), u128::MAX), Err(Error::Overflow));
    assert_eq!(l.deposit(&s("o"), 400), Ok(()));
    assert_eq!(l.balance_of(&s("o")), 1_000);
}

#[test]
fn transfer_event_carries_the_memo() {
    let mut l = Ledger::new(s("o"), 1_000, MIN_DEPOSIT);
    l.register(&s("b"), MIN_DEPOSIT).unwrap();
    l.simple_transfer(&s("o"), &s("b"), 25, Some(s("gift")), 1).unwrap();
    assert_eq!(l.events.len(), 2);
    match &l.events[1] {
        Event::Transfer { sender, receiver, amount, memo } => {
            assert_eq!(sender, "o");
            assert_eq!(receiver, "b");
            assert_eq!(*amount, 25);
            assert_eq!(memo.as_deref(), Some("gift"));
        },
        _ => panic!("a simple transfer must record a transfer event"),
    }
}
