use vstd::prelude::*;

verus! {

/// One movement of a ledger balance.
#[derive(Clone, Copy, Debug, PartialEq, Eq, Structural)]
pub enum BalanceOp {
    /// Add tokens to the balance (a purchase, or a stake handed back).
    Credit(u64),
    /// Take tokens from the balance (the cost of an action, or a stake).
    Debit(u64),
}

/// Whether `op` may be committed on `balance`: a debit needs enough tokens,
/// a credit must keep the balance within `u64`.
pub open spec fn admits(balance: int, op: BalanceOp) -> bool {
    match op {
        BalanceOp::Credit(a) => balance + a <= u64::MAX,
        BalanceOp::Debit(c) => c <= balance,
    }
}

/// The balance after `op` is committed.
pub open spec fn apply(balance: int, op: BalanceOp) -> int {
    match op {
        BalanceOp::Credit(a) => balance + a,
        BalanceOp::Debit(c) => balance - c,
    }
}

/// The balance after a run of operations, each committed when admitted and
/// rejected (leaving the balance as it was) otherwise.
pub open spec fn settle(balance: int, ops: Seq<BalanceOp>) -> int
    decreases ops.len(),
{
    if ops.len() == 0 {
        balance
    } else {
        let before = settle(balance, ops.drop_last());
        if admits(before, ops.last()) {
            apply(before, ops.last())
        } else {
            before
        }
    }
}

/// Whatever purchases and spends are attempted, in whatever order, the balance
/// never goes negative and never leaves the range of `u64`.
pub proof fn balance_never_negative(start: int, ops: Seq<BalanceOp>)
    requires
        0 <= start <= u64::MAX,
    ensures
        0 <= settle(start, ops) <= u64::MAX,
    decreases ops.len(),
{
    if ops.len() > 0 {
        balance_never_negative(start, ops.drop_last());
    }
}

/// Checks `op` against `balance` and commits it: `None` when it is not admitted.
pub fn try_apply(balance: u64, op: BalanceOp) -> (r: Option<u64>)
    ensures
        r is Some <==> admits(balance as int, op),
        r is Some ==> r.unwrap() as int == apply(balance as int, op),
{
    match op {
        BalanceOp::Credit(a) => balance.checked_add(a),
        BalanceOp::Debit(c) => balance.checked_sub(c),
    }
}

} // verus!
