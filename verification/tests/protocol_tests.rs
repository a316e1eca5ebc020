use ft_ledger::accountant::settle_storage;
use ft_ledger::engine::HookOutcome;
use ft_ledger::errors::Error;
use ft_ledger::events::Event;
use ft_ledger::ledger::Ledger;

const MIN_DEPOSIT: u128 = 1250;

fn s(x: &str) -> String {
    x.to_owned()
}

fn ledger_with_b() -> Ledger {
    let mut l = Ledger::new(s("o"), 1_000_000, MIN_DEPOSIT);
    l.register(&s("b"), MIN_DEPOSIT).unwrap();
    l
}

#[test]
fn notify_transfer_with_partial_decline() {
    let mut l = ledger_with_b();
    let o_before = l.balance_of(&s("o"));
    let b_before = l.balance_of(&s("b"));
    let intent = l.transfer_and_notify(&s("o"), &s("b"), 100, None).unwrap();
    // the receiver's hook observes the credit already applied
    assert_eq!(l.balance_of(&s("b")), b_before + 100);
    let used = l.resolve_transfer(intent, HookOutcome::Returned(40));
    assert_eq!(used, 60);
    assert_eq!(l.balance_of(&s("b")), b_before + 60);
    assert_eq!(l.balance_of(&s("o")), o_before - 60);
    assert_eq!(l.total_supply(), 1_000_000);
}

#[test]
fn notify_transfer_keeping_everything() {
    let mut l = ledger_with_b();
    let intent = l.transfer_and_notify(&s("o"), &s("b"), 100, None).unwrap();
    let events_after_credit = l.events.len();
    let used = l.resolve_transfer(intent, HookOutcome::Returned(0));
    assert_eq!(used, 100);
    assert_eq!(l.balance_of(&s("b")), 100);
    assert_eq!(l.balance_of(&s("o")), 999_900);
    // a zero refund records no second event
    assert_eq!(l.events.len(), events_after_credit);
}

#[test]
fn undelivered_hook_refunds_everything() {
    let mut l = ledger_with_b();
    let intent = l.transfer_and_notify(&s("o"), &s("b"), 100, None).unwrap();
    let used = l.resolve_transfer(intent, HookOutcome::Undelivered);
    assert_eq!(used, 0);
    assert_eq!(l.balance_of(&s("b")), 0);
    assert_eq!(l.balance_of(&s("o")), 1_000_000);
    match l.events.last().unwrap() {
        Event::Transfer { sender, receiver, amount, memo } => {
            assert_eq!(sender, "b");
            assert_eq!(receiver, "o");
            assert_eq!(*amount, 100);
            assert!(memo.is_none());
        },
        _ => panic!("the refund leg must record a transfer event"),
    }
}

#[test]
fn declared_more_than_amount_is_capped() {
    let mut l = ledger_with_b();
    let intent = l.transfer_and_notify(&s("o"), &s("b"), 100, None).unwrap();
    let used = l.resolve_transfer(intent, HookOutcome::Returned(100_000));
    assert_eq!(used, 0);
    assert_eq!(l.balance_of(&s("b")), 0);
    assert_eq!(l.balance_of(&s("o")), 1_000_000);
}

#[test]
fn refund_is_capped_by_what_the_receiver_still_holds() {
    let mut l = ledger_with_b();
    l.register(&s("c"), MIN_DEPOSIT).unwrap();
    let intent = l.transfer_and_notify(&s("o"), &s("b"), 100, None).unwrap();
    // the receiver spends most of the credit before the resolution
    l.simple_transfer(&s("b"), &s("c"), 80, None, 1).unwrap();
    let used = l.resolve_transfer(intent, HookOutcome::Undelivered);
    assert_eq!(used, 80);
    assert_eq!(l.balance_of(&s("b")), 0);
    assert_eq!(l.balance_of(&s("o")), 999_920);
    assert_eq!(l.balance_of(&s("c")), 80);
    assert_eq!(l.total_supply(), 1_000_000);
}

#[test]
fn refund_to_a_gone_sender_is_burned() {
    let mut l = ledger_with_b();
    let intent = l.transfer_and_notify(&s("o"), &s("b"), 100, None).unwrap();
    // the sender leaves before the resolution; its remaining balance burns
    let (closed, released) = l.unregister(&s("o"), true).unwrap();
    assert!(closed);
    assert_eq!(released, 999_900);
    let used = l.resolve_transfer(intent, HookOutcome::Returned(100));
    assert_eq!(used, 0);
    assert_eq!(l.balance_of(&s("b")), 0);
    // both the sender's balance and the declined refund are burned
    assert_eq!(l.total_supply(), 0);
    match l.events.last().unwrap() {
        Event::Burn { account, amount } => {
            assert_eq!(account, "b");
            assert_eq!(*amount, 100);
        },
        _ => panic!("an undeliverable refund must record a burn"),
    }
}

#[test]
fn notify_transfer_fails_like_a_transfer() {
    let mut l = ledger_with_b();
    assert!(matches!(
        l.transfer_and_notify(&s("o"), &s("o"), 10, None),
        Err(Error::SelfTransfer)
    ));
    assert!(matches!(
        l.transfer_and_notify(&s("o"), &s("b"), 0, None),
        Err(Error::ZeroAmount)
    ));
    assert!(matches!(
        l.transfer_and_notify(&s("o"), &s("c"), 10, None),
        Err(Error::AccountNotRegistered)
    ));
    assert_eq!(l.balance_of(&s("o")), 1_000_000);
}

#[test]
fn storage_growth_is_charged() {
    // 50 new bytes at 2 a byte cost 100; 20 of the 120 attached come back
    assert_eq!(settle_storage(100, 150, 2, 120), Ok(20));
}

#[test]
fn storage_growth_underpaid_is_refused() {
    assert_eq!(settle_storage(100, 150, 2, 99), Err(Error::InsufficientDepositForStorage));
}

#[test]
fn storage_release_is_refunded_on_top_of_the_payment() {
    // 50 bytes freed at 2 a byte: the whole payment plus 100 come back
    assert_eq!(settle_storage(150, 100, 2, 7), Ok(107));
}

#[test]
fn unchanged_storage_refunds_the_whole_payment() {
    assert_eq!(settle_storage(150, 150, 2, 55), Ok(55));
}

#[test]
fn unpayable_storage_cost_overflows() {
    assert_eq!(settle_storage(0, u64::MAX, u128::MAX, 5), Err(Error::Overflow));
}

#[test]
fn unpayable_storage_refund_overflows() {
    assert_eq!(settle_storage(u64::MAX, 0, u128::MAX, 5), Err(Error::Overflow));
    assert_eq!(settle_storage(100, 50, 2, u128::MAX), Err(Error::Overflow));
}
