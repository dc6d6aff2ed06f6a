use erc20::account::{AccountId, Balance};
use erc20::events::{Approval, Error, Transfer};
use erc20::ledger::Erc20;

fn alice() -> AccountId {
    AccountId::from([0x01; 32])
}

fn bob() -> AccountId {
    AccountId::from([0x02; 32])
}

fn eve() -> AccountId {
    AccountId::from([0x05; 32])
}

fn assert_transfer_event(
    event: &Transfer,
    expected_from: Option<AccountId>,
    expected_to: Option<AccountId>,
    expected_value: Balance,
) {
    let Transfer { from, to, value } = *event;
    assert_eq!(from, expected_from, "encountered invalid transfer.from");
    assert_eq!(to, expected_to, "encountered invalid transfer.to");
    assert_eq!(value, expected_value, "encountered invalid transfer.value");
}

#[test]
fn new_works() {
    let (_erc20, issued) = Erc20::new(100, alice());

    let emit_events = vec![issued];

    assert_eq!(1, emit_events.len());

    assert_transfer_event(
        &emit_events[0],
        None,
        Some(AccountId::from([0x01; 32])),
        100,
    );
}

#[test]
fn total_supply_works() {
    let (erc20, issued) = Erc20::new(100, alice());

    let emit_events = vec![issued];
    assert_transfer_event(
        &emit_events[0],
        None,
        Some(AccountId::from([0x01; 32])),
        100,
    );

    assert_eq!(erc20.total_supply(), 100);
}

#[test]
fn balance_of_works() {
    let (erc20, issued) = Erc20::new(100, alice());

    let emit_events = vec![issued];
    assert_transfer_event(
        &emit_events[0],
        None,
        Some(AccountId::from([0x01; 32])),
        100,
    );

    assert_eq!(erc20.balance_of(alice()), 100);
    assert_eq!(erc20.balance_of(bob()), 0);
}

#[test]
fn transfer_works() {
    let (mut erc20, issued) = Erc20::new(100, alice());
    let mut emit_events = vec![issued];

    assert_eq!(erc20.balance_of(alice()), 100);
    assert_eq!(erc20.balance_of(bob()), 0);

    let moved = erc20.transfer(alice(), bob(), 10);
    assert_eq!(
        moved,
        Ok(Transfer {
            from: Some(alice()),
            to: Some(bob()),
            value: 10
        })
    );
    emit_events.extend(moved.ok());

    assert_eq!(erc20.balance_of(alice()), 90);
    assert_eq!(erc20.balance_of(bob()), 10);

    assert_eq!(emit_events.len(), 2);
    assert_transfer_event(
        &emit_events[0],
        None,
        Some(AccountId::from([0x01; 32])),
        100,
    );
    assert_transfer_event(
        &emit_events[1],
        Some(AccountId::from([0x01; 32])),
        Some(AccountId::from([0x02; 32])),
        10,
    );
}

#[test]
fn trasfer_fails_when_not_enough_balance() {
    let (mut erc20, issued) = Erc20::new(100, alice());
    let mut emit_events = vec![issued];

    assert_eq!(erc20.balance_of(bob()), 0);

    let refused = erc20.transfer(bob(), eve(), 10);
    assert_eq!(refused, Err(Error::InsufficientBalance));
    emit_events.extend(refused.ok());

    assert_eq!(erc20.balance_of(alice()), 100);
    assert_eq!(erc20.balance_of(bob()), 0);
    assert_eq!(erc20.balance_of(eve()), 0);

    assert_eq!(emit_events.len(), 1);
    assert_transfer_event(
        &emit_events[0],
        None,
        Some(AccountId::from([0x01; 32])),
        100,
    );
}

#[test]
fn transfer_from_works() {
    let (mut erc20, issued) = Erc20::new(100, alice());
    let mut emitted_transfers = vec![issued];
    let mut emitted_events = 1;

    let refused = erc20.transfer_from(alice(), alice(), eve(), 10);
    assert_eq!(refused, Err(Error::InsufficientAllowance));
    let approved = erc20.approve(alice(), bob(), 10);
    assert_eq!(
        approved,
        Ok(Approval {
            owner: alice(),
            spender: bob(),
            value: 10
        })
    );
    emitted_events += approved.iter().count();

    assert_eq!(emitted_events, 2);

    let moved = erc20.transfer_from(bob(), alice(), eve(), 10);
    assert_eq!(
        moved,
        Ok(Transfer {
            from: Some(alice()),
            to: Some(eve()),
            value: 10
        })
    );
    emitted_events += moved.iter().count();
    emitted_transfers.extend(moved.ok());
    assert_eq!(erc20.balance_of(eve()), 10);

    assert_eq!(emitted_events, 3);
    assert_transfer_event(
        &emitted_transfers[0],
        None,
        Some(AccountId::from([0x01; 32])),
        100,
    );
    assert_transfer_event(
        &emitted_transfers[1],
        Some(AccountId::from([0x01; 32])),
        Some(AccountId::from([0x05; 32])),
        10,
    );
}

#[test]
fn allowance_must_not_change_on_failed_transfer() {
    let (mut erc20, _issued) = Erc20::new(100, alice());

    let alice_balance = erc20.balance_of(alice());
    let initial_allowance = alice_balance + 2;
    assert_eq!(
        erc20.approve(alice(), bob(), initial_allowance),
        Ok(Approval {
            owner: alice(),
            spender: bob(),
            value: initial_allowance
        })
    );

    let refused = erc20.transfer_from(bob(), alice(), eve(), alice_balance + 1);
    assert_eq!(refused, Err(Error::InsufficientBalance));
    assert_eq!(erc20.allowance(alice(), bob()), initial_allowance);
    assert_eq!(refused.iter().count(), 0);
}
