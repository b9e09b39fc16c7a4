use ore_miner::instr::{AccountRef, Instr};
use ore_miner::mine::{assemble_mine_transaction, find_bus, plan_mine_transaction, reset_chosen, ComputeBudget};
use solana_program::instruction::Instruction;
use solana_program::pubkey::Pubkey;

fn same(ours: &Instr, theirs: &Instruction) -> bool {
    ours.program_id == theirs.program_id.to_bytes()
        && ours.data == theirs.data
        && ours.accounts.len() == theirs.accounts.len()
        && ours.accounts.iter().zip(theirs.accounts.iter()).all(|(a, m)| {
            *a == AccountRef { pubkey: m.pubkey.to_bytes(), is_signer: m.is_signer, is_writable: m.is_writable }
        })
}

#[test]
fn bus_is_one_of_the_eight() {
    let buses: Vec<[u8; 32]> = ore_api::consts::BUS_ADDRESSES.iter().map(|b| b.to_bytes()).collect();
    assert_eq!(buses.len(), 8);
    for _ in 0..50 {
        assert!(buses.contains(&find_bus()));
    }
}

#[test]
fn mine_transaction_without_reset() {
    let signer = Pubkey::new_unique();
    let bus = ore_api::consts::BUS_ADDRESSES[3];
    let digest = [9u8; 16];
    let t = assemble_mine_transaction(signer.to_bytes(), bus.to_bytes(), digest, 42, false);
    assert_eq!(t.compute_budget, ComputeBudget::Fixed(500_000));
    assert_eq!(t.instructions.len(), 2);
    let proof = ore_api::state::proof_pda(signer).0;
    assert!(same(&t.instructions[0], &ore_api::sdk::auth(proof)));
    assert_eq!(t.instructions[0].data, proof.to_bytes().to_vec());
    let mine = ore_api::sdk::mine(signer, signer, bus, drillx::Solution::new(digest, 42u64.to_le_bytes()), vec![]);
    assert!(same(&t.instructions[1], &mine));
}

#[test]
fn mine_transaction_with_reset() {
    let signer = Pubkey::new_unique();
    let bus = ore_api::consts::BUS_ADDRESSES[0];
    let t = assemble_mine_transaction(signer.to_bytes(), bus.to_bytes(), [1u8; 16], 7, true);
    assert_eq!(t.compute_budget, ComputeBudget::Fixed(600_000));
    assert_eq!(t.instructions.len(), 3);
    assert!(same(&t.instructions[1], &ore_api::sdk::reset(signer)));
    assert_eq!(t.instructions[1].accounts[0], AccountRef { pubkey: signer.to_bytes(), is_signer: true, is_writable: true });
}

#[test]
fn no_reset_unless_due() {
    let signer = Pubkey::new_unique();
    for _ in 0..20 {
        let t = plan_mine_transaction(signer.to_bytes(), [2u8; 16], 3, false);
        assert_eq!(t.compute_budget, ComputeBudget::Fixed(500_000));
        assert_eq!(t.instructions.len(), 2);
    }
}

#[test]
fn due_reset_is_rare_but_well_formed() {
    let signer = Pubkey::new_unique();
    for _ in 0..20 {
        let t = plan_mine_transaction(signer.to_bytes(), [2u8; 16], 3, true);
        match t.compute_budget {
            ComputeBudget::Fixed(500_000) => assert_eq!(t.instructions.len(), 2),
            ComputeBudget::Fixed(600_000) => assert_eq!(t.instructions.len(), 3),
            _ => panic!("unexpected budget"),
        }
    }
}

#[test]
fn reset_rule() {
    assert!(reset_chosen(true, 0));
    assert!(!reset_chosen(true, 1));
    assert!(!reset_chosen(true, 99));
    assert!(!reset_chosen(false, 0));
}

#[test]
fn mine_instruction_carries_digest_and_nonce() {
    let signer = Pubkey::new_unique();
    let bus = ore_api::consts::BUS_ADDRESSES[1];
    let digest = [5u8; 16];
    let t = assemble_mine_transaction(signer.to_bytes(), bus.to_bytes(), digest, 0x1122_3344_5566_7788, false);
    let last = t.instructions.last().unwrap();
    let mut data = vec![2u8];
    data.extend_from_slice(&digest);
    data.extend_from_slice(&0x1122_3344_5566_7788u64.to_le_bytes());
    assert_eq!(last.data, data);
    assert_eq!(last.program_id, ore_api::ID.to_bytes());
    assert_eq!(last.accounts[1], AccountRef { pubkey: bus.to_bytes(), is_signer: false, is_writable: true });
}
