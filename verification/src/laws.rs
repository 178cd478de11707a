//! Properties of whole histories of ledger operations, proved from the
//! transition functions the operation contracts are stated over.

use vstd::prelude::*;

use crate::ledger::{deposit_accepted, deposited, withdraw_accepted, withdrawn};
use crate::vault::{Pubkey, Vault};

verus! {

/// One committed balance change, as it appears in a vault's history.
#[derive(Clone, Copy, PartialEq, Eq, Debug)]
pub enum Op {
    Deposit(u64),
    Withdraw(u64),
}

/// The vault after one operation, or `None` when the ledger rejects it
/// (overflow for a deposit, insufficient funds for a withdrawal).
pub open spec fn apply_op(v: Vault, op: Op) -> Option<Vault> {
    match op {
        Op::Deposit(amount) => if deposit_accepted(v, amount) {
            Some(deposited(v, amount))
        } else {
            None
        },
        Op::Withdraw(amount) => if withdraw_accepted(v, amount) {
            Some(withdrawn(v, amount))
        } else {
            None
        },
    }
}

/// The vault after a whole sequence of operations, or `None` as soon as one
/// of them is rejected.
pub open spec fn run_ops(v: Vault, ops: Seq<Op>) -> Option<Vault>
    decreases ops.len(),
{
    if ops.len() == 0 {
        Some(v)
    } else {
        match apply_op(v, ops[0]) {
            Some(v2) => run_ops(v2, ops.drop_first()),
            None => None,
        }
    }
}

/// The sum of all deposited amounts in a history.
pub open spec fn sum_deposits(ops: Seq<Op>) -> int
    decreases ops.len(),
{
    if ops.len() == 0 {
        0
    } else {
        (match ops[0] {
            Op::Deposit(amount) => amount as int,
            Op::Withdraw(_) => 0,
        }) + sum_deposits(ops.drop_first())
    }
}

/// The sum of all withdrawn amounts in a history.
pub open spec fn sum_withdrawals(ops: Seq<Op>) -> int
    decreases ops.len(),
{
    if ops.len() == 0 {
        0
    } else {
        (match ops[0] {
            Op::Withdraw(amount) => amount as int,
            Op::Deposit(_) => 0,
        }) + sum_withdrawals(ops.drop_first())
    }
}

/// Conservation: after any sequence of accepted deposits and withdrawals,
/// the recorded balance is the starting balance plus the sum of the
/// deposits minus the sum of the withdrawals, and the owner is untouched.
/// Since the sequence is arbitrary, the equation holds at every observation
/// point of a history: apply the lemma to each prefix.
pub proof fn lemma_conservation(v: Vault, ops: Seq<Op>)
    requires
        run_ops(v, ops) is Some,
    ensures
        run_ops(v, ops).unwrap().total_deposited == v.total_deposited + sum_deposits(ops)
            - sum_withdrawals(ops),
        run_ops(v, ops).unwrap().owner == v.owner,
    decreases ops.len(),
{
    if ops.len() != 0 {
        lemma_conservation(apply_op(v, ops[0]).unwrap(), ops.drop_first());
    }
}

/// Conservation from creation: a vault starts at balance zero, so after any
/// accepted history its balance is exactly the deposits minus the
/// withdrawals; in particular the withdrawals never exceed the deposits,
/// and the balance never goes negative.
pub proof fn lemma_conservation_from_create(creator: Pubkey, ops: Seq<Op>)
    requires
        run_ops((Vault { owner: creator, total_deposited: 0 }), ops) is Some,
    ensures
        run_ops((Vault { owner: creator, total_deposited: 0 }), ops).unwrap().total_deposited
            == sum_deposits(ops) - sum_withdrawals(ops),
        sum_withdrawals(ops) <= sum_deposits(ops),
{
    lemma_conservation(Vault { owner: creator, total_deposited: 0 }, ops);
}

/// Serializability of one deposit and one withdrawal against the same
/// vault: whenever the vault covers the withdrawal and the deposit fits,
/// the two serialized orders are both accepted and end in the same vault,
/// whose balance is the starting balance plus the deposit minus the
/// withdrawal. Both intermediate balances are unsigned, so no order makes
/// the balance negative even transiently.
pub proof fn lemma_deposit_withdraw_serialize(v: Vault, d: u64, w: u64)
    requires
        withdraw_accepted(v, w),
        deposit_accepted(v, d),
    ensures
        run_ops(v, seq![Op::Deposit(d), Op::Withdraw(w)]) is Some,
        run_ops(v, seq![Op::Withdraw(w), Op::Deposit(d)]) is Some,
        run_ops(v, seq![Op::Deposit(d), Op::Withdraw(w)]) == run_ops(
            v,
            seq![Op::Withdraw(w), Op::Deposit(d)],
        ),
        run_ops(v, seq![Op::Deposit(d), Op::Withdraw(w)]).unwrap().total_deposited
            == v.total_deposited + d - w,
{
    let dw = seq![Op::Deposit(d), Op::Withdraw(w)];
    let wd = seq![Op::Withdraw(w), Op::Deposit(d)];
    assert(dw.drop_first() =~= seq![Op::Withdraw(w)]);
    assert(wd.drop_first() =~= seq![Op::Deposit(d)]);
    assert(seq![Op::Withdraw(w)].drop_first() =~= Seq::<Op>::empty());
    assert(seq![Op::Deposit(d)].drop_first() =~= Seq::<Op>::empty());
    assert(run_ops(withdrawn(deposited(v, d), w), Seq::<Op>::empty()) == Some(
        withdrawn(deposited(v, d), w),
    ));
    assert(run_ops(deposited(withdrawn(v, w), d), Seq::<Op>::empty()) == Some(
        deposited(withdrawn(v, w), d),
    ));
    assert(run_ops(v, dw) == run_ops(deposited(v, d), seq![Op::Withdraw(w)]));
    assert(run_ops(deposited(v, d), seq![Op::Withdraw(w)]) == Some(withdrawn(deposited(v, d), w)));
    assert(run_ops(v, wd) == run_ops(withdrawn(v, w), seq![Op::Deposit(d)]));
    assert(run_ops(withdrawn(v, w), seq![Op::Deposit(d)]) == Some(deposited(withdrawn(v, w), d)));
    assert(withdrawn(deposited(v, d), w) == deposited(withdrawn(v, w), d));
}

} // verus!
