//! Encoding of the four operations the remote program understands: a
//! discriminant byte, an optional little-endian `u64` operand, and a fixed,
//! ordered account table per operation. The remote program indexes the
//! accounts positionally, so the order and flags must be reproduced exactly.

use vstd::prelude::*;
use vstd::bytes::{spec_u64_to_le_bytes, u64_to_le_bytes, lemma_auto_spec_u64_to_from_le_bytes};
use crate::ids::AccountId;
use crate::state::append_bytes;

verus! {

/// The four operations of the remote vending program.
#[derive(Clone, Copy, Debug, PartialEq, Eq, Structural)]
pub enum Operation {
    Initialize,
    AddStock,
    UpdatePrice,
    Sell,
}

/// One entry of an instruction's account table.
#[derive(Debug)]
pub struct AccountRef {
    pub id: AccountId,
    pub writable: bool,
    pub signer: bool,
}

impl View for AccountRef {
    type V = (Seq<u8>, bool, bool);

    open spec fn view(&self) -> (Seq<u8>, bool, bool) {
        (self.id@, self.writable, self.signer)
    }
}

/// The identifiers an instruction may touch. Operations other than `Sell`
/// read only `owner` and `state`.
#[derive(Debug)]
pub struct AccountSet {
    pub owner: AccountId,
    pub state: AccountId,
    pub buyer: AccountId,
    pub buyer_token: AccountId,
    pub owner_token: AccountId,
    pub token_program: AccountId,
    pub system_program: AccountId,
}

/// An encoded instruction: target program, ordered account table, data bytes.
#[derive(Debug)]
pub struct Instruction {
    pub program: AccountId,
    pub accounts: Vec<AccountRef>,
    pub data: Vec<u8>,
}

/// The leading discriminant byte of each operation.
pub open spec fn discriminant_of(op: Operation) -> u8 {
    match op {
        Operation::Initialize => 0u8,
        Operation::AddStock => 1u8,
        Operation::UpdatePrice => 2u8,
        Operation::Sell => 3u8,
    }
}

/// The data bytes of an instruction: the discriminant, then the operand as
/// eight little-endian bytes; `Initialize` carries no operand.
pub open spec fn instr_data(op: Operation, operand: u64) -> Seq<u8> {
    if op is Initialize {
        seq![0u8]
    } else {
        seq![discriminant_of(op)] + spec_u64_to_le_bytes(operand)
    }
}

/// The fixed account table of each operation, as (identifier, writable,
/// signer) triples in the order the remote program expects.
pub open spec fn expected_accounts(op: Operation, s: AccountSet) -> Seq<(Seq<u8>, bool, bool)> {
    match op {
        Operation::Sell => seq![
            (s.owner@, true, true),
            (s.state@, true, false),
            (s.buyer@, true, true),
            (s.buyer_token@, true, false),
            (s.owner_token@, true, false),
            (s.token_program@, false, false),
            (s.system_program@, false, false),
        ],
        _ => seq![(s.owner@, false, true), (s.state@, true, false)],
    }
}

/// The writable/signer flags of each operation's account table; they depend
/// on the operation alone.
pub open spec fn flags_table(op: Operation) -> Seq<(bool, bool)> {
    match op {
        Operation::Sell => seq![
            (true, true),
            (true, false),
            (true, true),
            (true, false),
            (true, false),
            (false, false),
            (false, false),
        ],
        _ => seq![(false, true), (true, false)],
    }
}

/// The account table `metas` matches the fixed table of `op` over `s`.
pub open spec fn matches_table(op: Operation, s: AccountSet, metas: Seq<AccountRef>) -> bool {
    &&& metas.len() == expected_accounts(op, s).len()
    &&& forall|i: int|
        0 <= i < metas.len() ==> #[trigger] metas[i]@ == expected_accounts(op, s)[i]
}

/// Builds the instruction for one operation: its exact data bytes and its
/// exact account table.
pub fn build(op: Operation, operand: u64, program: &AccountId, accounts: &AccountSet) -> (r:
    Instruction)
    ensures
        r.program@ == program@,
        r.data@ == instr_data(op, operand),
        matches_table(op, *accounts, r.accounts@),
{
    let mut data: Vec<u8> = Vec::new();
    data.push(discriminant_exec(op));
    if !matches!(op, Operation::Initialize) {
        let operand_bytes = u64_to_le_bytes(operand);
        append_bytes(&mut data, operand_bytes.as_slice());
    }
    proof {
        assert(data@ =~= instr_data(op, operand));
    }
    let mut metas: Vec<AccountRef> = Vec::new();
    match op {
        Operation::Sell => {
            metas.push(AccountRef { id: accounts.owner.duplicate(), writable: true, signer: true });
            metas.push(AccountRef { id: accounts.state.duplicate(), writable: true, signer: false });
            metas.push(AccountRef { id: accounts.buyer.duplicate(), writable: true, signer: true });
            metas.push(
                AccountRef { id: accounts.buyer_token.duplicate(), writable: true, signer: false },
            );
            metas.push(
                AccountRef { id: accounts.owner_token.duplicate(), writable: true, signer: false },
            );
            metas.push(
                AccountRef {
                    id: accounts.token_program.duplicate(),
                    writable: false,
                    signer: false,
                },
            );
            metas.push(
                AccountRef {
                    id: accounts.system_program.duplicate(),
                    writable: false,
                    signer: false,
                },
            );
        },
        _ => {
            metas.push(
                AccountRef { id: accounts.owner.duplicate(), writable: false, signer: true },
            );
            metas.push(AccountRef { id: accounts.state.duplicate(), writable: true, signer: false });
        },
    }
    Instruction { program: program.duplicate(), accounts: metas, data }
}

/// The discriminant byte, computed.
pub fn discriminant_exec(op: Operation) -> (r: u8)
    ensures
        r == discriminant_of(op),
{
    match op {
        Operation::Initialize => 0u8,
        Operation::AddStock => 1u8,
        Operation::UpdatePrice => 2u8,
        Operation::Sell => 3u8,
    }
}

/// Law: for every operation, the encoded data opens with the operation's
/// fixed discriminant, the operand occupies the following eight bytes exactly
/// when the operation carries one, and the account table's length and
/// writable/signer flags are fixed by the operation alone.
pub proof fn lemma_build_shape(op: Operation, operand: u64, s: AccountSet)
    ensures
        instr_data(op, operand).len() == (if op is Initialize { 1int } else { 9int }),
        instr_data(op, operand)[0] == discriminant_of(op),
        !(op is Initialize) ==> instr_data(op, operand).subrange(1, 9) == spec_u64_to_le_bytes(
            operand,
        ),
        expected_accounts(op, s).len() == flags_table(op).len(),
        expected_accounts(op, s).len() == (if op is Sell { 7int } else { 2int }),
        forall|i: int|
            0 <= i < expected_accounts(op, s).len() ==> ((#[trigger] expected_accounts(op, s)[i]).1,
            expected_accounts(op, s)[i].2) == flags_table(op)[i],
{
    lemma_auto_spec_u64_to_from_le_bytes();
    if !(op is Initialize) {
        assert(instr_data(op, operand).subrange(1, 9) =~= spec_u64_to_le_bytes(operand));
    }
}

} // verus!
