//! The data the ledger works on: identities, vault records, transfer
//! requests and outcomes, and the ledger's error taxonomy.

use vstd::prelude::*;

verus! {

/// An opaque public-key-like identifier, naming a principal or an external
/// account. The ledger never looks inside one; it only routes them to the
/// external value-transfer service.
#[derive(Clone, Copy, PartialEq, Eq, Debug)]
pub struct Pubkey {
    pub bytes: [u8; 32],
}

/// The record kept for one vault: the principal that created it and the
/// cumulative net amount currently held in its external holding account.
#[derive(Clone, Copy, PartialEq, Eq, Debug)]
pub struct Vault {
    /// Identity of the principal that created the vault; set once at
    /// creation and immutable thereafter.
    pub owner: Pubkey,
    /// Net successful deposits minus net successful withdrawals.
    pub total_deposited: u64,
}

/// Every way a ledger operation can fail.
#[derive(Clone, Copy, PartialEq, Eq, Debug)]
pub enum VaultError {
    /// A vault already occupies the target storage slot.
    AlreadyExists,
    /// A withdrawal asked for more than the vault holds.
    InsufficientFunds,
    /// A deposit would push the balance past the representable range.
    Overflow,
    /// The external value-transfer service rejected the movement.
    TransferFailed,
}

/// The definite outcome the external value-transfer service reports for one
/// requested transfer. The service is atomic: either the full amount moved,
/// or nothing did.
#[derive(Clone, Copy, PartialEq, Eq, Debug)]
pub enum TransferOutcome {
    Succeeded,
    Failed,
}

/// One movement of value the ledger asks the external transfer service to
/// perform: move `amount` from `from` to `to`, authorized by `authority`.
#[derive(Clone, Copy, PartialEq, Eq, Debug)]
pub struct TransferAction {
    pub from: Pubkey,
    pub to: Pubkey,
    pub authority: Pubkey,
    pub amount: u64,
}

/// The identities a create request names.
#[derive(Clone, Copy, PartialEq, Eq, Debug)]
pub struct CreateVault {
    /// The principal creating the vault; becomes its owner.
    pub creator: Pubkey,
}

/// The accounts a deposit request names.
#[derive(Clone, Copy, PartialEq, Eq, Debug)]
pub struct Deposit {
    /// The depositing principal, which must control the source account.
    pub depositor: Pubkey,
    /// The external account the deposited value comes from.
    pub depositor_token_account: Pubkey,
    /// The vault's external holding account, where the value goes.
    pub vault_token_account: Pubkey,
}

/// The accounts a withdrawal request names.
#[derive(Clone, Copy, PartialEq, Eq, Debug)]
pub struct Withdraw {
    /// The withdrawing principal.
    pub withdrawer: Pubkey,
    /// The address of the vault record itself; it acts as the custodial
    /// authority over the vault's holding account.
    pub vault_account: Pubkey,
    /// The vault's external holding account, where the value comes from.
    pub vault_token_account: Pubkey,
    /// The external account the withdrawn value goes to.
    pub withdrawer_token_account: Pubkey,
}

} // verus!
