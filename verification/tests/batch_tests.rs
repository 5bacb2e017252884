use std::cell::Cell;

use peerx::batch::{admit_batch, batch_caller, count_swaps, swap_ops_to_record, BatchGate, BatchOperation};
use peerx::types::Address;

fn user() -> Address {
    Address::new("GUSER".to_string())
}

fn swap_op() -> BatchOperation {
    BatchOperation::Swap("XLM".to_string(), "USDCSIM".to_string(), 100, user())
}

#[test]
fn empty_batch_is_rejected_without_checks() {
    let calls = Cell::new(0);
    let gate = admit_batch(&vec![], |_| { calls.set(calls.get() + 1); true }, |_| { calls.set(calls.get() + 1); true });
    assert_eq!(gate, BatchGate::Rejected);
    assert_eq!(calls.get(), 0);
}

#[test]
fn mint_first_batch_has_no_caller() {
    let ops = vec![BatchOperation::MintToken("XLM".to_string(), user(), 1_000_000), swap_op()];
    assert_eq!(batch_caller(&ops), None);
    let calls = Cell::new(0);
    let gate = admit_batch(&ops, |_| { calls.set(calls.get() + 1); false }, |_| { calls.set(calls.get() + 1); false });
    assert_eq!(gate, BatchGate::Admitted { caller: None, swaps: 1 });
    assert_eq!(calls.get(), 0);
}

#[test]
fn unverified_caller_is_rejected_before_the_rate_limit() {
    let limit_calls = Cell::new(0);
    let gate = admit_batch(&vec![swap_op()], |u| { assert_eq!(u, &user()); false }, |_| { limit_calls.set(1); true });
    assert_eq!(gate, BatchGate::Rejected);
    assert_eq!(limit_calls.get(), 0);
}

#[test]
fn swap_batch_needs_the_rate_limit() {
    assert_eq!(admit_batch(&vec![swap_op()], |_| true, |_| false), BatchGate::Rejected);
    assert_eq!(admit_batch(&vec![swap_op()], |_| true, |_| true), BatchGate::Admitted { caller: Some(user()), swaps: 1 });
}

#[test]
fn batch_without_swaps_skips_the_rate_limit() {
    let ops = vec![BatchOperation::AddLiquidity(100, 100, user()), BatchOperation::RemoveLiquidity(10, 0, user())];
    let limit_calls = Cell::new(0);
    let gate = admit_batch(&ops, |_| true, |_| { limit_calls.set(1); false });
    assert_eq!(gate, BatchGate::Admitted { caller: Some(user()), swaps: 0 });
    assert_eq!(limit_calls.get(), 0);
}

#[test]
fn swaps_are_counted() {
    let ops = vec![swap_op(), BatchOperation::RemoveLiquidity(10, 0, user()), swap_op(), BatchOperation::MintToken("XLM".to_string(), user(), 5)];
    assert_eq!(count_swaps(&ops), 2);
    assert_eq!(count_swaps(&vec![]), 0);
}

#[test]
fn executed_operations_are_charged_only_for_swap_batches_with_a_caller() {
    assert_eq!(swap_ops_to_record(&BatchGate::Admitted { caller: Some(user()), swaps: 1 }, 3), 3);
    assert_eq!(swap_ops_to_record(&BatchGate::Admitted { caller: Some(user()), swaps: 0 }, 3), 0);
    assert_eq!(swap_ops_to_record(&BatchGate::Admitted { caller: None, swaps: 2 }, 3), 0);
    assert_eq!(swap_ops_to_record(&BatchGate::Rejected, 3), 0);
}
