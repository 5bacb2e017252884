//! Admission of a batch of operations: who the batch acts for, the checks it
//! must pass before any operation runs, and how many swaps it charges to the
//! caller's rate limit afterwards. Atomic and best-effort batches share these
//! rules and differ only in how the operations themselves run.
use vstd::prelude::*;
use crate::types::Address;

verus! {

/// One operation of a batch; token fields hold symbol texts.
#[derive(Debug, PartialEq, Eq)]
pub enum BatchOperation {
    /// Swap `(from, to, amount, user)`.
    Swap(String, String, i128, Address),
    /// Add liquidity `(xlm_amount, usdc_amount, user)`.
    AddLiquidity(i128, i128, Address),
    /// Remove liquidity: two amounts, then the user it acts for.
    RemoveLiquidity(i128, i128, Address),
    /// Mint `(token, to, amount)`.
    MintToken(String, Address, i128),
}

/// The user an operation acts for; a mint acts for nobody.
pub open spec fn op_user(op: BatchOperation) -> Option<Address> {
    match op {
        BatchOperation::Swap(_, _, _, u) => Some(u),
        BatchOperation::AddLiquidity(_, _, u) => Some(u),
        BatchOperation::RemoveLiquidity(_, _, u) => Some(u),
        BatchOperation::MintToken(_, _, _) => None,
    }
}

/// The caller of a batch: the user of its first operation.
pub open spec fn batch_caller_spec(ops: Seq<BatchOperation>) -> Option<Address> {
    if ops.len() == 0 { None } else { op_user(ops[0]) }
}

/// How many operations of `ops` are swaps.
pub open spec fn swap_count_spec(ops: Seq<BatchOperation>) -> nat
    decreases ops.len(),
{
    if ops.len() == 0 {
        0
    } else {
        swap_count_spec(ops.drop_last()) + if ops.last() is Swap { 1nat } else { 0nat }
    }
}

/// The caller of a batch: the user of its first operation, none for an empty
/// batch or one that starts with a mint.
pub fn batch_caller(ops: &Vec<BatchOperation>) -> (r: Option<Address>)
    ensures
        r == batch_caller_spec(ops@),
{
    if ops.len() == 0 {
        return None;
    }
    match &ops[0] {
        BatchOperation::Swap(_, _, _, u) => Some(u.clone()),
        BatchOperation::AddLiquidity(_, _, u) => Some(u.clone()),
        BatchOperation::RemoveLiquidity(_, _, u) => Some(u.clone()),
        BatchOperation::MintToken(_, _, _) => None,
    }
}

/// How many operations of the batch are swaps.
pub fn count_swaps(ops: &Vec<BatchOperation>) -> (r: usize)
    ensures
        r == swap_count_spec(ops@),
{
    let mut count: usize = 0;
    let mut i: usize = 0;
    while i < ops.len()
        invariant
            i <= ops@.len(),
            count == swap_count_spec(ops@.take(i as int)),
            count <= i,
        decreases ops@.len() - i,
    {
        proof {
            assert(ops@.take(i + 1).drop_last() =~= ops@.take(i as int));
        }
        if let BatchOperation::Swap(_, _, _, _) = &ops[i] {
            count = count + 1;
        }
        i = i + 1;
    }
    proof {
        assert(ops@.take(ops@.len() as int) =~= ops@);
    }
    count
}

/// Whether a batch may run.
#[derive(Debug, PartialEq, Eq)]
pub enum BatchGate {
    /// The batch is refused before any operation runs; it reports one
    /// failed operation.
    Rejected,
    /// The batch may run on behalf of `caller`, with `swaps` swaps in it.
    Admitted {
        /// The caller, none for a batch that starts with a mint.
        caller: Option<Address>,
        /// The number of swaps in the batch.
        swaps: usize,
    },
}

/// Decides whether a batch may run. An empty batch is refused. When the
/// batch has a caller, `authenticate_and_verify` is run for it (the caller's
/// authorization and KYC check) and a refusal rejects the batch; then, if the
/// batch holds a swap, `within_swap_limit` is run for it (the caller's swap
/// rate limit) and a refusal rejects the batch. Neither check is run
/// otherwise.
pub fn admit_batch<K: FnOnce(&Address) -> bool, L: FnOnce(&Address) -> bool>(
    ops: &Vec<BatchOperation>,
    authenticate_and_verify: K,
    within_swap_limit: L,
) -> (r: BatchGate)
    requires
        forall|a: &Address| authenticate_and_verify.requires((a,)),
        forall|a: &Address| within_swap_limit.requires((a,)),
    ensures
        ops@.len() == 0 ==> r is Rejected,
        ops@.len() > 0 && batch_caller_spec(ops@) is None ==> r == (BatchGate::Admitted {
            caller: None,
            swaps: swap_count_spec(ops@) as usize,
        }),
        batch_caller_spec(ops@) matches Some(c) ==> {
            ||| authenticate_and_verify.ensures((&c,), false) && r is Rejected
            ||| authenticate_and_verify.ensures((&c,), true) && swap_count_spec(ops@) > 0
                && within_swap_limit.ensures((&c,), false) && r is Rejected
            ||| authenticate_and_verify.ensures((&c,), true) && (swap_count_spec(ops@) > 0
                ==> within_swap_limit.ensures((&c,), true)) && r == (BatchGate::Admitted {
                caller: Some(c),
                swaps: swap_count_spec(ops@) as usize,
            })
        },
{
    if ops.len() == 0 {
        return BatchGate::Rejected;
    }
    let caller = batch_caller(ops);
    let swaps = count_swaps(ops);
    match caller {
        Some(c) => {
            let verified = authenticate_and_verify(&c);
            if !verified {
                return BatchGate::Rejected;
            }
            if swaps > 0 {
                let allowed = within_swap_limit(&c);
                if !allowed {
                    return BatchGate::Rejected;
                }
            }
            BatchGate::Admitted { caller: Some(c), swaps }
        },
        None => BatchGate::Admitted { caller: None, swaps },
    }
}

/// How many swap operations a finished batch charges to the caller's swap
/// rate limit: one per executed operation when the batch was admitted for a
/// caller and holds a swap, none otherwise.
pub fn swap_ops_to_record(gate: &BatchGate, operations_executed: u32) -> (r: u32)
    ensures
        r == (match gate {
            BatchGate::Admitted { caller: Some(_), swaps } => if *swaps > 0 { operations_executed } else { 0 },
            _ => 0,
        }),
{
    match gate {
        BatchGate::Admitted { caller: Some(_), swaps } => if *swaps > 0 {
            operations_executed
        } else {
            0
        },
        _ => 0,
    }
}

} // verus!
