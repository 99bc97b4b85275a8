//! Reconciliation reporting: the delta between the state read before a
//! submission and the state read after it. Purely observational.

use vstd::prelude::*;
use crate::state::VendingState;

verus! {

/// How an unsigned quantity moved between two readings.
#[derive(Clone, Copy, Debug, PartialEq, Eq, Structural)]
pub enum Delta {
    Unchanged,
    Increased(u64),
    Decreased(u64),
}

/// The exact movement from `before` to `after`.
pub open spec fn spec_delta(before: u64, after: u64) -> Delta {
    if after == before {
        Delta::Unchanged
    } else if after > before {
        Delta::Increased((after - before) as u64)
    } else {
        Delta::Decreased((before - after) as u64)
    }
}

/// Computes the movement from `before` to `after`.
pub fn delta_u64(before: u64, after: u64) -> (d: Delta)
    ensures
        d == spec_delta(before, after),
{
    if after == before {
        Delta::Unchanged
    } else if after > before {
        Delta::Increased(after - before)
    } else {
        Delta::Decreased(before - after)
    }
}

/// The delta a submission left on the vending record.
#[derive(Debug)]
pub struct StateReport {
    pub stock: Delta,
    pub price: Delta,
    pub owner_changed: bool,
}

/// Compares the record read before a submission with the record read after
/// it; no invariant is enforced beyond the successful decodes that produced
/// the two records.
pub fn reconcile(before: &VendingState, after: &VendingState) -> (r: StateReport)
    ensures
        r.stock == spec_delta(before.stock, after.stock),
        r.price == spec_delta(before.price, after.price),
        r.owner_changed == (before.owner@ != after.owner@),
{
    StateReport {
        stock: delta_u64(before.stock, after.stock),
        price: delta_u64(before.price, after.price),
        owner_changed: !before.owner.same_as(&after.owner),
    }
}

} // verus!
