//! The vault state-transition protocol.
//!
//! Every balance change is two-phased around the external value-transfer
//! service. Phase one ([`deposit`], [`withdraw`]) validates the ledger's own
//! preconditions and, when they hold, hands back the exact
//! [`TransferAction`] the service must perform; the vault is not touched.
//! Phase two ([`deposit_commit`], [`withdraw_commit`]) takes the service's
//! definite [`TransferOutcome`] and commits the balance change only on
//! success. A failed precondition or a failed transfer leaves the vault
//! exactly as it was.

use vstd::prelude::*;

use crate::vault::{Deposit, TransferAction, TransferOutcome, Vault, VaultError, Withdraw};

verus! {

/// Whether a deposit of `amount` can be recorded without overflowing the
/// balance representation.
pub open spec fn deposit_accepted(v: Vault, amount: u64) -> bool {
    v.total_deposited + amount <= u64::MAX
}

/// The vault after a deposit of `amount` is committed: the balance grows by
/// exactly `amount` and the owner is unchanged.
pub open spec fn deposited(v: Vault, amount: u64) -> Vault {
    Vault { owner: v.owner, total_deposited: (v.total_deposited + amount) as u64 }
}

/// Whether the vault holds enough to cover a withdrawal of `amount`.
pub open spec fn withdraw_accepted(v: Vault, amount: u64) -> bool {
    amount <= v.total_deposited
}

/// The vault after a withdrawal of `amount` is committed: the balance
/// shrinks by exactly `amount` and the owner is unchanged.
pub open spec fn withdrawn(v: Vault, amount: u64) -> Vault {
    Vault { owner: v.owner, total_deposited: (v.total_deposited - amount) as u64 }
}

/// Phase one of a deposit: validate, and describe the transfer to perform.
///
/// On success the returned action moves `amount` from the depositor's
/// account into the vault's holding account, authorized by the depositor.
/// The vault is read, never written: a rejected deposit has no side effect,
/// and no transfer is requested for it.
pub fn deposit(vault: &Vault, accounts: &Deposit, amount: u64) -> (r: Result<
    TransferAction,
    VaultError,
>)
    ensures
        deposit_accepted(*vault, amount) ==> r == Ok::<TransferAction, VaultError>(
            (TransferAction {
                from: accounts.depositor_token_account,
                to: accounts.vault_token_account,
                authority: accounts.depositor,
                amount,
            }),
        ),
        !deposit_accepted(*vault, amount) ==> r == Err::<TransferAction, VaultError>(
            VaultError::Overflow,
        ),
{
    if vault.total_deposited <= u64::MAX - amount {
        Ok(
            TransferAction {
                from: accounts.depositor_token_account,
                to: accounts.vault_token_account,
                authority: accounts.depositor,
                amount,
            },
        )
    } else {
        Err(VaultError::Overflow)
    }
}

/// Phase two of a deposit: commit the balance change once the external
/// transfer service has reported its outcome.
///
/// The balance grows by exactly `amount` when the transfer succeeded and the
/// sum still fits; any other outcome leaves the vault exactly as it was.
pub fn deposit_commit(vault: &mut Vault, amount: u64, outcome: TransferOutcome) -> (r: Result<
    (),
    VaultError,
>)
    ensures
        outcome is Failed ==> r == Err::<(), VaultError>(VaultError::TransferFailed)
            && *final(vault) == *old(vault),
        outcome is Succeeded && deposit_accepted(*old(vault), amount) ==> r == Ok::<(), VaultError>(
            (),
        ) && *final(vault) == deposited(*old(vault), amount),
        outcome is Succeeded && !deposit_accepted(*old(vault), amount) ==> r == Err::<(), VaultError>(
            VaultError::Overflow,
        ) && *final(vault) == *old(vault),
{
    match outcome {
        TransferOutcome::Failed => Err(VaultError::TransferFailed),
        TransferOutcome::Succeeded => {
            if vault.total_deposited <= u64::MAX - amount {
                vault.total_deposited = vault.total_deposited + amount;
                Ok(())
            } else {
                Err(VaultError::Overflow)
            }
        },
    }
}

/// Phase one of a withdrawal: validate, and describe the transfer to
/// perform.
///
/// A request for more than the vault holds fails with `InsufficientFunds`,
/// reads the vault without writing it, and requests no transfer. Otherwise
/// the returned action moves `amount` from the vault's holding account to
/// the withdrawer's account, authorized by the vault's own custodial
/// authority. The withdrawer is deliberately not required to be the vault's
/// owner: any principal may trigger a withdrawal that the balance and the
/// external transfer service allow.
pub fn withdraw(vault: &Vault, accounts: &Withdraw, amount: u64) -> (r: Result<
    TransferAction,
    VaultError,
>)
    ensures
        withdraw_accepted(*vault, amount) ==> r == Ok::<TransferAction, VaultError>(
            (TransferAction {
                from: accounts.vault_token_account,
                to: accounts.withdrawer_token_account,
                authority: accounts.vault_account,
                amount,
            }),
        ),
        !withdraw_accepted(*vault, amount) ==> r == Err::<TransferAction, VaultError>(
            VaultError::InsufficientFunds,
        ),
{
    if vault.total_deposited < amount {
        return Err(VaultError::InsufficientFunds);
    }
    Ok(
        TransferAction {
            from: accounts.vault_token_account,
            to: accounts.withdrawer_token_account,
            authority: accounts.vault_account,
            amount,
        },
    )
}

/// Phase two of a withdrawal: commit the balance change once the external
/// transfer service has reported its outcome.
///
/// The balance shrinks by exactly `amount` when the transfer succeeded and
/// the vault covers it; any other outcome leaves the vault exactly as it
/// was.
pub fn withdraw_commit(vault: &mut Vault, amount: u64, outcome: TransferOutcome) -> (r: Result<
    (),
    VaultError,
>)
    ensures
        outcome is Failed ==> r == Err::<(), VaultError>(VaultError::TransferFailed)
            && *final(vault) == *old(vault),
        outcome is Succeeded && withdraw_accepted(*old(vault), amount) ==> r == Ok::<(), VaultError>(
            (),
        ) && *final(vault) == withdrawn(*old(vault), amount),
        outcome is Succeeded && !withdraw_accepted(*old(vault), amount) ==> r == Err::<(), VaultError>(
            VaultError::InsufficientFunds,
        ) && *final(vault) == *old(vault),
{
    match outcome {
        TransferOutcome::Failed => Err(VaultError::TransferFailed),
        TransferOutcome::Succeeded => {
            if amount <= vault.total_deposited {
                vault.total_deposited = vault.total_deposited - amount;
                Ok(())
            } else {
                Err(VaultError::InsufficientFunds)
            }
        },
    }
}

} // verus!
