use vstd::prelude::*;

use crate::address::Address;
use crate::error::ErrorCode;
use crate::state::ProjectAccount;

verus! {

/// A movement of value from one account to another, made whole or not at all.
#[derive(Clone, Copy, Debug, PartialEq, Eq)]
pub struct Transfer {
    pub from: Address,
    pub to: Address,
    pub amount: u64,
}

/// What charging `amount` to a payer who owns `payer_balance` comes to:
/// nothing moves for an amount of zero, a payer who cannot cover the amount is
/// refused, and otherwise the whole amount moves.
pub open spec fn charge_outcome(
    payer: Address,
    payer_balance: u64,
    destination: Address,
    amount: u64,
) -> Result<Option<Transfer>, ErrorCode> {
    if amount == 0 {
        Ok(None)
    } else if payer_balance < amount {
        Err(ErrorCode::InsufficientBalance)
    } else {
        Ok(Some(Transfer { from: payer, to: destination, amount }))
    }
}

/// Charges `amount` to `payer` in favour of `destination`.
pub fn charge_fee(payer: &Address, payer_balance: u64, destination: &Address, amount: u64) -> (r:
    Result<Option<Transfer>, ErrorCode>)
    ensures
        r == charge_outcome(*payer, payer_balance, *destination, amount),
{
    if amount == 0 {
        Ok(None)
    } else if payer_balance < amount {
        Err(ErrorCode::InsufficientBalance)
    } else {
        Ok(Some(Transfer { from: *payer, to: *destination, amount }))
    }
}

/// What the fee gate of a domain comes to for one request: the account
/// offered as destination must be the configured one, and the price is
/// charged to the payer.
pub open spec fn gate_outcome(
    configured: Address,
    price: u64,
    payer: Address,
    payer_balance: u64,
    destination: Address,
) -> Result<Option<Transfer>, ErrorCode> {
    if destination != configured {
        Err(ErrorCode::InvalidFeeRecipient)
    } else {
        charge_outcome(payer, payer_balance, destination, price)
    }
}

/// Passes one request through the fee gate of a domain whose fees go to
/// `configured` and whose price is `price`.
pub fn fee_gate(
    configured: &Address,
    price: u64,
    payer: &Address,
    payer_balance: u64,
    destination: &Address,
) -> (r: Result<Option<Transfer>, ErrorCode>)
    ensures
        r == gate_outcome(*configured, price, *payer, payer_balance, *destination),
{
    if *destination != *configured {
        return Err(ErrorCode::InvalidFeeRecipient);
    }
    charge_fee(payer, payer_balance, destination, price)
}

/// What can be taken out of an account that must keep `min_balance`.
pub open spec fn withdrawable(balance: u64, min_balance: u64) -> u64 {
    if balance > min_balance {
        (balance - min_balance) as u64
    } else {
        0
    }
}

/// What a withdrawal of the domain's funds comes to, as the amount moved and
/// the two balances after it.
pub open spec fn withdraw_outcome(
    config: ProjectAccount,
    caller: Address,
    destination: Address,
    balance: u64,
    min_balance: u64,
    destination_balance: u64,
) -> Result<(u64, u64, u64), ErrorCode> {
    let amount = withdrawable(balance, min_balance);
    if !config.spec_is_admin(caller) {
        Err(ErrorCode::Unauthorized)
    } else if destination != config.destination {
        Err(ErrorCode::InvalidFeeRecipient)
    } else if amount == 0 {
        Err(ErrorCode::InsufficientBalance)
    } else if destination_balance + amount > u64::MAX {
        Err(ErrorCode::InvalidFeeRecipient)
    } else {
        Ok((amount, (balance - amount) as u64, (destination_balance + amount) as u64))
    }
}

/// Moves what the domain's record holds beyond `min_balance`, the least it
/// must keep, to the configured destination. Only the admin may; with nothing
/// to move the call is refused with `InsufficientBalance`, and a destination
/// that cannot take the amount with `InvalidFeeRecipient`.
pub fn withdraw(
    config: &ProjectAccount,
    caller: &Address,
    destination: &Address,
    balance: u64,
    min_balance: u64,
    destination_balance: u64,
) -> (r: Result<(u64, u64, u64), ErrorCode>)
    ensures
        r == withdraw_outcome(
            *config,
            *caller,
            *destination,
            balance,
            min_balance,
            destination_balance,
        ),
        r matches Ok((amount, left, credited)) ==> left + credited == balance
            + destination_balance && left >= min_balance,
{
    if !config.is_admin(caller) {
        return Err(ErrorCode::Unauthorized);
    }
    if *destination != config.destination {
        return Err(ErrorCode::InvalidFeeRecipient);
    }
    let amount: u64 = balance.saturating_sub(min_balance);
    if amount == 0 {
        return Err(ErrorCode::InsufficientBalance);
    }
    match destination_balance.checked_add(amount) {
        Some(credited) => Ok((amount, balance - amount, credited)),
        None => Err(ErrorCode::InvalidFeeRecipient),
    }
}

} // verus!
