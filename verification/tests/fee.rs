use legaldid::address::Address;
use legaldid::error::ErrorCode;
use legaldid::fee::{charge_fee, fee_gate, withdraw, Transfer};
use legaldid::state::{InitializeArgs, ProjectAccount};

fn key(n: u8) -> Address {
    Address::new([n; 32])
}

fn domain() -> ProjectAccount {
    ProjectAccount::initialize(key(1), InitializeArgs::default(), 100, 255, 255)
}

#[test]
fn a_charge_moves_the_whole_amount() {
    assert_eq!(
        charge_fee(&key(5), 250, &key(1), 100),
        Ok(Some(Transfer { from: key(5), to: key(1), amount: 100 }))
    );
    assert_eq!(
        charge_fee(&key(5), 100, &key(1), 100),
        Ok(Some(Transfer { from: key(5), to: key(1), amount: 100 }))
    );
}

#[test]
fn a_charge_of_nothing_moves_nothing() {
    assert_eq!(charge_fee(&key(5), 250, &key(1), 0), Ok(None));
    assert_eq!(charge_fee(&key(5), 0, &key(1), 0), Ok(None));
}

#[test]
fn a_payer_who_cannot_cover_the_amount_is_refused() {
    assert_eq!(charge_fee(&key(5), 99, &key(1), 100), Err(ErrorCode::InsufficientBalance));
    assert_eq!(charge_fee(&key(5), 0, &key(1), 1), Err(ErrorCode::InsufficientBalance));
}

#[test]
fn the_gate_wants_the_configured_destination() {
    assert_eq!(
        fee_gate(&key(1), 100, &key(5), 250, &key(2)),
        Err(ErrorCode::InvalidFeeRecipient)
    );
    assert_eq!(
        fee_gate(&key(1), 100, &key(5), 0, &key(2)),
        Err(ErrorCode::InvalidFeeRecipient)
    );
    assert_eq!(
        fee_gate(&key(1), 100, &key(5), 250, &key(1)),
        Ok(Some(Transfer { from: key(5), to: key(1), amount: 100 }))
    );
    assert_eq!(fee_gate(&key(1), 100, &key(5), 50, &key(1)), Err(ErrorCode::InsufficientBalance));
    assert_eq!(fee_gate(&key(1), 0, &key(5), 0, &key(1)), Ok(None));
}

#[test]
fn a_withdrawal_takes_what_lies_above_the_minimum() {
    let config = domain();
    assert_eq!(withdraw(&config, &key(1), &key(1), 1_000, 400, 50), Ok((600, 400, 650)));
}

#[test]
fn a_withdrawal_with_nothing_to_take_is_refused() {
    let config = domain();
    assert_eq!(withdraw(&config, &key(1), &key(1), 400, 400, 50), Err(ErrorCode::InsufficientBalance));
    assert_eq!(withdraw(&config, &key(1), &key(1), 300, 400, 50), Err(ErrorCode::InsufficientBalance));
}

#[test]
fn a_withdrawal_is_for_the_admin_and_the_configured_destination() {
    let mut config = domain();
    assert_eq!(config.set_destination(&key(1), key(8)), Ok(()));
    assert_eq!(withdraw(&config, &key(2), &key(8), 1_000, 400, 0), Err(ErrorCode::Unauthorized));
    assert_eq!(withdraw(&config, &key(1), &key(1), 1_000, 400, 0), Err(ErrorCode::InvalidFeeRecipient));
    assert_eq!(withdraw(&config, &key(2), &key(1), 1_000, 400, 0), Err(ErrorCode::Unauthorized));
    assert_eq!(withdraw(&config, &key(1), &key(8), 1_000, 400, 0), Ok((600, 400, 600)));
}

#[test]
fn a_withdrawal_that_the_destination_cannot_take_is_refused() {
    let config = domain();
    assert_eq!(
        withdraw(&config, &key(1), &key(1), 1_000, 400, u64::MAX - 599),
        Err(ErrorCode::InvalidFeeRecipient)
    );
    assert_eq!(
        withdraw(&config, &key(1), &key(1), 1_000, 400, u64::MAX - 600),
        Ok((600, 400, u64::MAX))
    );
}
