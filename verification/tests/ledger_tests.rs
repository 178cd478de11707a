use assets_vault::ledger::{deposit, deposit_commit, withdraw, withdraw_commit};
use assets_vault::vault::{Deposit, Pubkey, TransferOutcome, Vault, VaultError, Withdraw};

fn key(n: u8) -> Pubkey {
    Pubkey { bytes: [n; 32] }
}

fn deposit_accounts() -> Deposit {
    Deposit {
        depositor: key(1),
        depositor_token_account: key(2),
        vault_token_account: key(3),
    }
}

fn withdraw_accounts() -> Withdraw {
    Withdraw {
        withdrawer: key(4),
        vault_account: key(5),
        vault_token_account: key(3),
        withdrawer_token_account: key(6),
    }
}

#[test]
fn scenario_create_deposit_withdraw() {
    // Fresh vault, then: +100, -40, a rejected -100, a rejected overflowing
    // deposit; the balance ends at 60 and survives both rejections.
    let mut vault = Vault {
        owner: key(1),
        total_deposited: 0,
    };

    let action = deposit(&vault, &deposit_accounts(), 100).unwrap();
    assert_eq!(action.amount, 100);
    assert_eq!(deposit_commit(&mut vault, 100, TransferOutcome::Succeeded), Ok(()));
    assert_eq!(vault.total_deposited, 100);

    let action = withdraw(&vault, &withdraw_accounts(), 40).unwrap();
    assert_eq!(action.amount, 40);
    assert_eq!(withdraw_commit(&mut vault, 40, TransferOutcome::Succeeded), Ok(()));
    assert_eq!(vault.total_deposited, 60);

    assert_eq!(
        withdraw(&vault, &withdraw_accounts(), 100),
        Err(VaultError::InsufficientFunds)
    );
    assert_eq!(vault.total_deposited, 60);

    assert_eq!(
        deposit(&vault, &deposit_accounts(), u64::MAX),
        Err(VaultError::Overflow)
    );
    assert_eq!(vault.total_deposited, 60);
}

#[test]
fn withdraw_insufficient_funds_requests_no_transfer() {
    let vault = Vault {
        owner: key(1),
        total_deposited: 10,
    };
    let r = withdraw(&vault, &withdraw_accounts(), 11);
    assert_eq!(r, Err(VaultError::InsufficientFunds));
    assert_eq!(vault.total_deposited, 10);
}

#[test]
fn withdraw_exact_balance_is_accepted() {
    let mut vault = Vault {
        owner: key(1),
        total_deposited: 10,
    };
    let action = withdraw(&vault, &withdraw_accounts(), 10).unwrap();
    assert_eq!(action.amount, 10);
    assert_eq!(withdraw_commit(&mut vault, 10, TransferOutcome::Succeeded), Ok(()));
    assert_eq!(vault.total_deposited, 0);
}

#[test]
fn failed_deposit_transfer_leaves_balance() {
    let mut vault = Vault {
        owner: key(1),
        total_deposited: 25,
    };
    let r = deposit_commit(&mut vault, 100, TransferOutcome::Failed);
    assert_eq!(r, Err(VaultError::TransferFailed));
    assert_eq!(vault.total_deposited, 25);
}

#[test]
fn failed_withdraw_transfer_leaves_balance() {
    let mut vault = Vault {
        owner: key(1),
        total_deposited: 25,
    };
    let r = withdraw_commit(&mut vault, 20, TransferOutcome::Failed);
    assert_eq!(r, Err(VaultError::TransferFailed));
    assert_eq!(vault.total_deposited, 25);
}

#[test]
fn deposit_overflow_is_rejected_in_both_phases() {
    let mut vault = Vault {
        owner: key(1),
        total_deposited: u64::MAX - 4,
    };
    assert_eq!(deposit(&vault, &deposit_accounts(), 5), Err(VaultError::Overflow));
    let r = deposit_commit(&mut vault, 5, TransferOutcome::Succeeded);
    assert_eq!(r, Err(VaultError::Overflow));
    assert_eq!(vault.total_deposited, u64::MAX - 4);
}

#[test]
fn deposit_at_the_representable_limit_is_accepted() {
    let mut vault = Vault {
        owner: key(1),
        total_deposited: u64::MAX - 5,
    };
    assert!(deposit(&vault, &deposit_accounts(), 5).is_ok());
    assert_eq!(deposit_commit(&mut vault, 5, TransferOutcome::Succeeded), Ok(()));
    assert_eq!(vault.total_deposited, u64::MAX);
}

#[test]
fn deposit_routes_value_into_holding_account() {
    let vault = Vault {
        owner: key(1),
        total_deposited: 0,
    };
    let accounts = deposit_accounts();
    let action = deposit(&vault, &accounts, 7).unwrap();
    assert_eq!(action.from, accounts.depositor_token_account);
    assert_eq!(action.to, accounts.vault_token_account);
    assert_eq!(action.authority, accounts.depositor);
    assert_eq!(action.amount, 7);
}

#[test]
fn withdraw_is_authorized_by_the_vault_itself() {
    // The withdrawer is not the vault's owner; the ledger still accepts the
    // request and authorizes the transfer with the vault's own custodial
    // authority, never with the withdrawer's.
    let vault = Vault {
        owner: key(1),
        total_deposited: 50,
    };
    let accounts = withdraw_accounts();
    assert_ne!(accounts.withdrawer, vault.owner);
    let action = withdraw(&vault, &accounts, 20).unwrap();
    assert_eq!(action.from, accounts.vault_token_account);
    assert_eq!(action.to, accounts.withdrawer_token_account);
    assert_eq!(action.authority, accounts.vault_account);
    assert_eq!(action.amount, 20);
}

#[test]
fn concurrent_deposit_and_withdraw_serialize_to_one_balance() {
    // deposit(30) and withdraw(20) against balance 50, in both serialized
    // orders: each order is accepted in full and both end at exactly 60.
    let mut first = Vault {
        owner: key(1),
        total_deposited: 50,
    };
    assert!(deposit(&first, &deposit_accounts(), 30).is_ok());
    assert_eq!(deposit_commit(&mut first, 30, TransferOutcome::Succeeded), Ok(()));
    assert!(withdraw(&first, &withdraw_accounts(), 20).is_ok());
    assert_eq!(withdraw_commit(&mut first, 20, TransferOutcome::Succeeded), Ok(()));

    let mut second = Vault {
        owner: key(1),
        total_deposited: 50,
    };
    assert!(withdraw(&second, &withdraw_accounts(), 20).is_ok());
    assert_eq!(withdraw_commit(&mut second, 20, TransferOutcome::Succeeded), Ok(()));
    assert!(deposit(&second, &deposit_accounts(), 30).is_ok());
    assert_eq!(deposit_commit(&mut second, 30, TransferOutcome::Succeeded), Ok(()));

    assert_eq!(first.total_deposited, 60);
    assert_eq!(second.total_deposited, 60);
    assert_eq!(first, second);
}
