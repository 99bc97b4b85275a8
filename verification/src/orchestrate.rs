//! Transaction planning: which instructions go into one atomic submission,
//! who pays the fee, and exactly which signers must sign. The submission
//! itself, and the block-reference fetched immediately before it, are remote
//! calls outside this library.

use vstd::prelude::*;
use crate::ids::AccountId;
use crate::instruction::Instruction;

verus! {

/// One atomic submission: its instructions, fee payer, and exact signer set.
/// The remote runtime rejects a submission whose signer set differs from the
/// required one, so the set is pinned here.
#[derive(Debug)]
pub struct TransactionPlan {
    pub instructions: Vec<Instruction>,
    pub fee_payer: AccountId,
    pub signers: Vec<AccountId>,
}

/// Plans the submission of one mutating operation: a single instruction, the
/// payer as fee payer, and exactly the payer and the owner as signers, in
/// that order.
pub fn operation_transaction(instr: Instruction, payer: &AccountId, owner: &AccountId) -> (p:
    TransactionPlan)
    ensures
        p.instructions@.len() == 1,
        p.instructions@[0] == instr,
        p.fee_payer@ == payer@,
        p.signers@.len() == 2,
        p.signers@[0]@ == payer@,
        p.signers@[1]@ == owner@,
{
    let mut instructions: Vec<Instruction> = Vec::new();
    instructions.push(instr);
    let mut signers: Vec<AccountId> = Vec::new();
    signers.push(payer.duplicate());
    signers.push(owner.duplicate());
    TransactionPlan { instructions, fee_payer: payer.duplicate(), signers }
}

/// What one confirmation poll decides for a submitted transaction.
#[derive(Clone, Copy, Debug, PartialEq, Eq, Structural)]
pub enum ConfirmStep {
    Wait,
    Failed,
    Finalized,
}

/// The decision of one confirmation poll: an unknown status keeps waiting, a
/// reported execution error fails the submission, a finalized status
/// completes it, and anything else keeps waiting.
pub open spec fn spec_judge_confirmation(known: bool, failed: bool, finalized: bool) -> ConfirmStep {
    if !known {
        ConfirmStep::Wait
    } else if failed {
        ConfirmStep::Failed
    } else if finalized {
        ConfirmStep::Finalized
    } else {
        ConfirmStep::Wait
    }
}

/// Judges one confirmation poll of a submitted transaction. `known` says
/// whether the ledger returned a status at all, `failed` whether that status
/// carries an execution error, `finalized` whether it reports finality.
pub fn judge_confirmation(known: bool, failed: bool, finalized: bool) -> (r: ConfirmStep)
    ensures
        r == spec_judge_confirmation(known, failed, finalized),
{
    if !known {
        ConfirmStep::Wait
    } else if failed {
        ConfirmStep::Failed
    } else if finalized {
        ConfirmStep::Finalized
    } else {
        ConfirmStep::Wait
    }
}

} // verus!
