//! What a proven transaction discloses of the account it changed.
//!
//! Exactly one of three forms is chosen, by the account's visibility and by
//! whether the account is new: nothing for a private account, the whole new
//! state for a public account that the transaction creates, and the changes
//! alone for a public account that existed before.

use crate::ledger::{
    account_is_new, account_is_public, account_with_delta, apply_delta, balance_change_error,
    balance_change_too_big, delta_fungible_changes, fungible_changes, is_new, is_public,
};
use miden_objects::account::{Account, AccountDelta};
use miden_objects::AccountError;
use vstd::prelude::*;

verus! {

/// The account update that a proven transaction carries.
#[derive(Debug, PartialEq, Eq)]
pub enum AccountUpdateDetails {
    /// The account is private: its state is not disclosed.
    Private,
    /// The account is new: its whole state after the transaction.
    New(Account),
    /// The account existed before: the changes that the transaction made.
    Delta(AccountDelta),
}

/// The size of the one change of a balance that is larger than any asset
/// amount: 2^63, the size of the smallest `i64`.
pub const OVERSIZED_CHANGE: u64 = 0x8000_0000_0000_0000;

/// Every change of a fungible balance in the delta has a size that the
/// ledger's vault can take as an asset amount.
pub open spec fn changes_are_amounts(delta: AccountDelta) -> bool {
    forall|i: int|
        0 <= i < delta_fungible_changes(delta).len() ==> delta_fungible_changes(delta)[i]
            > i64::MIN
}

/// The account with the changes applied, or the reason why they do not
/// apply: a change that is no asset amount is refused here, everything else
/// is for the ledger to decide.
pub open spec fn account_after(account: Account, delta: AccountDelta) -> Result<
    Account,
    AccountError,
> {
    if changes_are_amounts(delta) {
        account_with_delta(account, delta)
    } else {
        Err(balance_change_error(OVERSIZED_CHANGE))
    }
}

/// Applies the changes to a copy of the account.
pub fn apply_changes(account: &Account, delta: &AccountDelta) -> (updated: Result<
    Account,
    AccountError,
>)
    ensures
        updated == account_after(*account, *delta),
{
    let changes = fungible_changes(delta);
    let mut i: usize = 0;
    while i < changes.len()
        invariant
            i <= changes.len(),
            changes@ == delta_fungible_changes(*delta),
            forall|j: int| 0 <= j < i ==> changes@[j] > i64::MIN,
        decreases changes.len() - i,
    {
        if changes[i] == i64::MIN {
            return Err(balance_change_too_big(OVERSIZED_CHANGE));
        }
        i += 1;
    }
    apply_delta(account, delta)
}

/// The update that a transaction on `account` with the changes `delta`
/// carries, or the reason why the changes do not apply to a new account.
pub open spec fn update_details(account: Account, delta: AccountDelta) -> Result<
    AccountUpdateDetails,
    AccountError,
> {
    if !account_is_public(account) {
        Ok(AccountUpdateDetails::Private)
    } else if account_is_new(account) {
        match account_after(account, delta) {
            Ok(updated) => Ok(AccountUpdateDetails::New(updated)),
            Err(err) => Err(err),
        }
    } else {
        Ok(AccountUpdateDetails::Delta(delta))
    }
}

/// Chooses the account update for a transaction. The account itself is only
/// read: for a new public account the changes are applied to a copy.
pub fn select_update_details(account: &Account, delta: AccountDelta) -> (details: Result<
    AccountUpdateDetails,
    AccountError,
>)
    ensures
        details == update_details(*account, delta),
{
    if !is_public(account) {
        Ok(AccountUpdateDetails::Private)
    } else if is_new(account) {
        match apply_changes(account, &delta) {
            Ok(updated) => Ok(AccountUpdateDetails::New(updated)),
            Err(err) => Err(err),
        }
    } else {
        Ok(AccountUpdateDetails::Delta(delta))
    }
}

/// For a private account nothing is disclosed, whatever the changes are.
pub proof fn private_account_discloses_nothing(account: Account, delta: AccountDelta)
    requires
        !account_is_public(account),
    ensures
        update_details(account, delta) == Ok::<AccountUpdateDetails, AccountError>(
            AccountUpdateDetails::Private,
        ),
{
}

/// For a public account that existed before, the update is the accumulated
/// changes, unmodified.
pub proof fn existing_public_account_discloses_delta(account: Account, delta: AccountDelta)
    requires
        account_is_public(account),
        !account_is_new(account),
    ensures
        update_details(account, delta) == Ok::<AccountUpdateDetails, AccountError>(
            AccountUpdateDetails::Delta(delta),
        ),
{
}

/// For a new public account, the update is the account with the changes
/// applied; where they do not apply, there is no update but their error.
pub proof fn new_public_account_discloses_state(account: Account, delta: AccountDelta)
    requires
        account_is_public(account),
        account_is_new(account),
    ensures
        match account_after(account, delta) {
            Ok(updated) => update_details(account, delta) == Ok::<
                AccountUpdateDetails,
                AccountError,
            >(AccountUpdateDetails::New(updated)),
            Err(err) => update_details(account, delta) == Err::<
                AccountUpdateDetails,
                AccountError,
            >(err),
        },
{
}

} // verus!
