use vending_client::ids::AccountId;
use vending_client::instruction::{build, AccountSet, Operation};
use vending_client::orchestrate::{judge_confirmation, operation_transaction, ConfirmStep};

fn id(byte: u8) -> AccountId {
    AccountId::from_bytes(vec![byte; 32]).unwrap()
}

fn sample_set() -> AccountSet {
    AccountSet {
        owner: id(1),
        state: id(2),
        buyer: id(3),
        buyer_token: id(4),
        owner_token: id(5),
        token_program: id(6),
        system_program: id(7),
    }
}

#[test]
fn add_stock_amount_ten_encodes_exactly() {
    let set = sample_set();
    let instr = build(Operation::AddStock, 10, &id(9), &set);
    assert_eq!(instr.data, vec![1, 10, 0, 0, 0, 0, 0, 0, 0]);
}

#[test]
fn update_price_2500_encodes_exactly() {
    let set = sample_set();
    let instr = build(Operation::UpdatePrice, 2500, &id(9), &set);
    assert_eq!(instr.data, vec![2, 0xC4, 0x09, 0, 0, 0, 0, 0, 0]);
}

#[test]
fn sell_encodes_discriminant_three() {
    let set = sample_set();
    let instr = build(Operation::Sell, 5, &id(9), &set);
    assert_eq!(instr.data, vec![3, 5, 0, 0, 0, 0, 0, 0, 0]);
}

#[test]
fn initialize_carries_no_operand() {
    let set = sample_set();
    let instr = build(Operation::Initialize, 10, &id(9), &set);
    assert_eq!(instr.data, vec![0]);
}

#[test]
fn every_operation_opens_with_its_discriminant() {
    let set = sample_set();
    let ops = [
        (Operation::Initialize, 0u8),
        (Operation::AddStock, 1u8),
        (Operation::UpdatePrice, 2u8),
        (Operation::Sell, 3u8),
    ];
    for (op, disc) in ops {
        let instr = build(op, 11, &id(9), &set);
        assert_eq!(instr.data[0], disc);
    }
}

#[test]
fn sell_carries_exactly_seven_accounts_in_fixed_order() {
    let set = sample_set();
    for amount in [5u64, 0, 10, u64::MAX] {
        let instr = build(Operation::Sell, amount, &id(9), &set);
        assert_eq!(instr.accounts.len(), 7);
        let expected: [(u8, bool, bool); 7] = [
            (1, true, true),   // owner
            (2, true, false),  // state
            (3, true, true),   // buyer
            (4, true, false),  // buyer token account
            (5, true, false),  // owner token account
            (6, false, false), // token program
            (7, false, false), // system program
        ];
        for (meta, (byte, writable, signer)) in instr.accounts.iter().zip(expected) {
            assert_eq!(meta.id.as_bytes(), &[byte; 32][..]);
            assert_eq!(meta.writable, writable);
            assert_eq!(meta.signer, signer);
        }
    }
}

#[test]
fn non_sell_operations_carry_owner_then_state() {
    let set = sample_set();
    for op in [Operation::Initialize, Operation::AddStock, Operation::UpdatePrice] {
        let instr = build(op, 4, &id(9), &set);
        assert_eq!(instr.accounts.len(), 2);
        assert_eq!(instr.accounts[0].id.as_bytes(), &[1u8; 32][..]);
        assert!(!instr.accounts[0].writable);
        assert!(instr.accounts[0].signer);
        assert_eq!(instr.accounts[1].id.as_bytes(), &[2u8; 32][..]);
        assert!(instr.accounts[1].writable);
        assert!(!instr.accounts[1].signer);
    }
}

#[test]
fn build_targets_the_given_program() {
    let set = sample_set();
    let instr = build(Operation::AddStock, 1, &id(9), &set);
    assert_eq!(instr.program.as_bytes(), &[9u8; 32][..]);
}

#[test]
fn operation_transaction_signs_with_payer_then_owner() {
    let set = sample_set();
    let instr = build(Operation::Sell, 5, &id(9), &set);
    let plan = operation_transaction(instr, &id(8), &id(1));
    assert_eq!(plan.instructions.len(), 1);
    assert_eq!(plan.instructions[0].data[0], 3);
    assert_eq!(plan.fee_payer.as_bytes(), &[8u8; 32][..]);
    assert_eq!(plan.signers.len(), 2);
    assert_eq!(plan.signers[0].as_bytes(), &[8u8; 32][..]);
    assert_eq!(plan.signers[1].as_bytes(), &[1u8; 32][..]);
}

#[test]
fn confirmation_polls_decide_exactly() {
    assert_eq!(judge_confirmation(false, false, false), ConfirmStep::Wait);
    assert_eq!(judge_confirmation(true, false, false), ConfirmStep::Wait);
    assert_eq!(judge_confirmation(true, true, false), ConfirmStep::Failed);
    assert_eq!(judge_confirmation(true, true, true), ConfirmStep::Failed);
    assert_eq!(judge_confirmation(true, false, true), ConfirmStep::Finalized);
}
