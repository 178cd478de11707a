//! Durable storage for vault records, keyed by vault identifier, with
//! create-once semantics: a storage slot that already holds a vault refuses
//! a second creation and keeps the record it has.

use std::collections::HashMap;
use vstd::prelude::*;

use crate::vault::{CreateVault, Vault, VaultError};

verus! {

broadcast use vstd::std_specs::hash::group_hash_axioms;

/// The store of all vault records, one per allocated identifier.
pub struct VaultStore {
    vaults: HashMap<u64, Vault>,
}

impl View for VaultStore {
    type V = Map<u64, Vault>;

    /// The store, seen as the map from each allocated vault identifier to
    /// the record it holds.
    closed spec fn view(&self) -> Map<u64, Vault> {
        self.vaults@
    }
}

impl VaultStore {
    /// An empty store: no identifier is allocated yet.
    pub fn new() -> (s: Self)
        ensures
            s@ == Map::<u64, Vault>::empty(),
    {
        VaultStore { vaults: HashMap::new() }
    }

    /// Allocate `vault_id` and place a fresh vault in it: owned by the
    /// creator, with balance zero.
    ///
    /// If the identifier is already allocated the call fails with
    /// `AlreadyExists` and the store — in particular the existing vault's
    /// balance — is unchanged.
    pub fn create_vault(&mut self, vault_id: u64, accounts: &CreateVault) -> (r: Result<
        (),
        VaultError,
    >)
        ensures
            old(self)@.contains_key(vault_id) ==> r == Err::<(), VaultError>(
                VaultError::AlreadyExists,
            ) && final(self)@ == old(self)@,
            !old(self)@.contains_key(vault_id) ==> r == Ok::<(), VaultError>(()) && final(self)@
                == old(self)@.insert(
                vault_id,
                (Vault { owner: accounts.creator, total_deposited: 0 }),
            ),
    {
        if self.vaults.contains_key(&vault_id) {
            Err(VaultError::AlreadyExists)
        } else {
            self.vaults.insert(vault_id, Vault { owner: accounts.creator, total_deposited: 0 });
            Ok(())
        }
    }

    /// Read the vault stored under `vault_id`, if that identifier is
    /// allocated.
    pub fn get(&self, vault_id: u64) -> (r: Option<Vault>)
        ensures
            r is Some <==> self@.contains_key(vault_id),
            r is Some ==> r.unwrap() == self@[vault_id],
    {
        match self.vaults.get(&vault_id) {
            Some(v) => Some(*v),
            None => None,
        }
    }

    /// Write `vault` back into the slot `vault_id`, which must already be
    /// allocated; returns whether it was. An unallocated identifier is left
    /// unallocated: `put` never creates a vault.
    pub fn put(&mut self, vault_id: u64, vault: Vault) -> (r: bool)
        ensures
            old(self)@.contains_key(vault_id) ==> r && final(self)@ == old(self)@.insert(
                vault_id,
                vault,
            ),
            !old(self)@.contains_key(vault_id) ==> !r && final(self)@ == old(self)@,
    {
        if self.vaults.contains_key(&vault_id) {
            self.vaults.insert(vault_id, vault);
            true
        } else {
            false
        }
    }
}

} // verus!
