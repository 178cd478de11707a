//! A custodial balance ledger.
//!
//! A party creates a vault under a fresh identifier, deposits fungible
//! value into it, and withdraws value from it. The vault's recorded balance never diverges from
//! the sum of successful transfers routed through it: every deposit and
//! withdrawal first validates its preconditions, then asks the external
//! value-transfer service to move the funds, and commits the balance change
//! only once that service reports a definite success.
//!
//! The ledger itself never moves value; it only decides which transfers may
//! proceed and keeps the books. The hosting runtime performs the transfers
//! it is handed and reports each outcome back.

pub mod laws;
pub mod ledger;
pub mod store;
pub mod vault;
