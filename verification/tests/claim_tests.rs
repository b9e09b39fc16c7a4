use ore_miner::claim::{
    balance_too_low, beneficiary_tokens, claim_amount, claim_instructions, parse_wallet,
    MIN_SOL_BALANCE_LAMPORTS,
};
use ore_miner::instr::{AccountRef, Instr};
use solana_program::instruction::Instruction;
use solana_program::pubkey::Pubkey;

fn same(ours: &Instr, theirs: &Instruction) -> bool {
    ours.program_id == theirs.program_id.to_bytes()
        && ours.data == theirs.data
        && ours.accounts.len() == theirs.accounts.len()
        && ours.accounts.iter().zip(theirs.accounts.iter()).all(|(a, m)| {
            *a == AccountRef { pubkey: m.pubkey.to_bytes(), is_signer: m.is_signer, is_writable: m.is_writable }
        })
}

#[test]
fn amount_defaults_to_whole_balance() {
    assert_eq!(claim_amount(None, 1_234), 1_234);
    assert_eq!(claim_amount(Some(7), 1_234), 7);
    assert_eq!(claim_amount(Some(0), 1_234), 0);
}

#[test]
fn low_balance_threshold() {
    assert_eq!(MIN_SOL_BALANCE_LAMPORTS, 5_000_000);
    assert!(balance_too_low(Some(0)));
    assert!(balance_too_low(Some(5_000_000)));
    assert!(!balance_too_low(Some(5_000_001)));
    assert!(!balance_too_low(None));
}

#[test]
fn wallet_parsing() {
    let pk = Pubkey::new_unique();
    assert_eq!(parse_wallet(&pk.to_string()), Some(pk.to_bytes()));
    assert_eq!(parse_wallet("not a key"), None);
    assert_eq!(parse_wallet(""), None);
    assert_eq!(parse_wallet("11111111111111111111111111111111"), Some([0u8; 32]));
}

#[test]
fn beneficiary_is_ore_token_account() {
    let wallet = Pubkey::new_unique();
    let expected = spl_associated_token_account::get_associated_token_address(
        &wallet,
        &ore_api::consts::MINT_ADDRESS,
    );
    assert_eq!(beneficiary_tokens(wallet.to_bytes()), expected.to_bytes());
    assert_ne!(beneficiary_tokens(wallet.to_bytes()), wallet.to_bytes());
}

#[test]
fn claim_into_existing_account() {
    let signer = Pubkey::new_unique();
    let wallet = Pubkey::new_unique();
    let ixs = claim_instructions(signer.to_bytes(), wallet.to_bytes(), true, 99);
    assert_eq!(ixs.len(), 1);
    let ata = spl_associated_token_account::get_associated_token_address(&wallet, &ore_api::consts::MINT_ADDRESS);
    assert!(same(&ixs[0], &ore_api::sdk::claim(signer, ata, 99)));
}

#[test]
fn claim_creates_missing_account_first() {
    let signer = Pubkey::new_unique();
    let wallet = Pubkey::new_unique();
    let ixs = claim_instructions(signer.to_bytes(), wallet.to_bytes(), false, 5);
    assert_eq!(ixs.len(), 2);
    let create = spl_associated_token_account::instruction::create_associated_token_account(
        &signer,
        &wallet,
        &ore_api::consts::MINT_ADDRESS,
        &spl_token::id(),
    );
    assert!(same(&ixs[0], &create));
    assert_eq!(ixs[0].accounts[0], AccountRef { pubkey: signer.to_bytes(), is_signer: true, is_writable: true });
    let ata = spl_associated_token_account::get_associated_token_address(&wallet, &ore_api::consts::MINT_ADDRESS);
    assert!(same(&ixs[1], &ore_api::sdk::claim(signer, ata, 5)));
}

#[test]
fn claim_instruction_carries_amount() {
    let signer = Pubkey::new_unique();
    let wallet = Pubkey::new_unique();
    let ixs = claim_instructions(signer.to_bytes(), wallet.to_bytes(), true, 258);
    let mut data = vec![0u8];
    data.extend_from_slice(&258u64.to_le_bytes());
    assert_eq!(ixs[0].data, data);
    assert_eq!(ixs[0].program_id, ore_api::ID.to_bytes());
    assert_eq!(ixs[0].accounts[1].pubkey, beneficiary_tokens(wallet.to_bytes()));
}
