//! Claiming mined ORE: the amount, the beneficiary's token account, the
//! instructions, and the balance below which a wallet is not used.

use crate::chain::{
    claim_instruction, create_ore_token_account_instruction, create_token_account_instruction,
    ore_claim_instruction, ore_token_address, token_address,
};
use crate::chain::{le_bytes_u64, ore_program_id};
use crate::instr::{instrs_view, Instr, InstrView};
use solana_program::pubkey::Pubkey;
use std::str::FromStr;
use vstd::prelude::*;

verus! {

/// The least SOL balance, in lamports (0.005 SOL), that a wallet needs to pay
/// for its transactions.
pub const MIN_SOL_BALANCE_LAMPORTS: u64 = 5_000_000;

/// Whether a wallet whose balance was read as `balance` (`None` if the read
/// failed) is known to hold too little SOL: only a balance that was read and
/// is at most [`MIN_SOL_BALANCE_LAMPORTS`] counts.
pub fn balance_too_low(balance: Option<u64>) -> (r: bool)
    ensures
        r == (balance matches Some(b) && b <= MIN_SOL_BALANCE_LAMPORTS),
{
    match balance {
        Some(b) => b <= MIN_SOL_BALANCE_LAMPORTS,
        None => false,
    }
}

/// The amount to claim: the requested amount, or the whole balance of the
/// proof account when none was requested.
pub fn claim_amount(requested: Option<u64>, proof_balance: u64) -> (r: u64)
    ensures
        r == match requested {
            Some(a) => a,
            None => proof_balance,
        },
{
    match requested {
        Some(a) => a,
        None => proof_balance,
    }
}

/// The address that `solana_program::pubkey::Pubkey::from_str` decodes from
/// a base58 text, or `None` where it returns an error.
pub uninterp spec fn base58_address(text: Seq<char>) -> Option<Seq<u8>>;

/// Calls `Pubkey::from_str` and keeps the address's bytes.
#[verifier::external_body]
fn pubkey_from_str(text: &str) -> (r: Option<[u8; 32]>)
    ensures
        r is Some <==> base58_address(text@) is Some,
        r matches Some(a) ==> a@ == base58_address(text@)->0,
{
    match Pubkey::from_str(text) {
        Ok(pk) => Some(pk.to_bytes()),
        Err(_) => None,
    }
}

/// Parses the beneficiary's wallet address, written in base58.
pub fn parse_wallet(text: &str) -> (r: Option<[u8; 32]>)
    ensures
        r is Some <==> base58_address(text@) is Some,
        r matches Some(a) ==> a@ == base58_address(text@)->0,
{
    pubkey_from_str(text)
}

/// The ORE token account of a wallet, which receives the claimed tokens.
pub fn beneficiary_tokens(wallet: [u8; 32]) -> (r: [u8; 32])
    ensures
        r@ == ore_token_address(wallet@),
{
    token_address(wallet)
}

/// The instructions that claim `amount` for `signer` into the ORE token
/// account of `wallet`, creating that account first when it does not exist.
pub open spec fn claim_instructions_spec(
    signer: Seq<u8>,
    wallet: Seq<u8>,
    beneficiary_exists: bool,
    amount: u64,
) -> Seq<InstrView> {
    let create = if beneficiary_exists {
        Seq::empty()
    } else {
        seq![create_ore_token_account_instruction(signer, wallet)]
    };
    create + seq![ore_claim_instruction(signer, ore_token_address(wallet), amount)]
}

/// Whatever the signer and the wallet (the same or not), a missing token
/// account is created first and the claim then pays into it; an existing one
/// only receives the claim.
pub proof fn lemma_claim_creates_missing_account(
    signer: Seq<u8>,
    wallet: Seq<u8>,
    beneficiary_exists: bool,
    amount: u64,
)
    ensures
        !beneficiary_exists ==> claim_instructions_spec(signer, wallet, beneficiary_exists, amount)
            == seq![
            create_ore_token_account_instruction(signer, wallet),
            ore_claim_instruction(signer, ore_token_address(wallet), amount),
        ],
        beneficiary_exists ==> claim_instructions_spec(signer, wallet, beneficiary_exists, amount)
            == seq![ore_claim_instruction(signer, ore_token_address(wallet), amount)],
{
    if beneficiary_exists {
        assert(claim_instructions_spec(signer, wallet, beneficiary_exists, amount) =~= seq![
            ore_claim_instruction(signer, ore_token_address(wallet), amount),
        ]);
    } else {
        assert(claim_instructions_spec(signer, wallet, beneficiary_exists, amount) =~= seq![
            create_ore_token_account_instruction(signer, wallet),
            ore_claim_instruction(signer, ore_token_address(wallet), amount),
        ]);
    }
}

/// Builds the instructions of a claim; see [`claim_instructions_spec`].
pub fn claim_instructions(
    signer: [u8; 32],
    wallet: [u8; 32],
    beneficiary_exists: bool,
    amount: u64,
) -> (r: Vec<Instr>)
    ensures
        instrs_view(r@) == claim_instructions_spec(signer@, wallet@, beneficiary_exists, amount),
        !beneficiary_exists ==> r@.len() == 2 && r@[0]@ == create_ore_token_account_instruction(
            signer@,
            wallet@,
        ) && r@[1]@ == ore_claim_instruction(signer@, ore_token_address(wallet@), amount),
        beneficiary_exists ==> r@.len() == 1 && r@[0]@ == ore_claim_instruction(
            signer@,
            ore_token_address(wallet@),
            amount,
        ),
        r@.len() > 0,
        r@.last().program_id@ == ore_program_id(),
        r@.last().data@ == seq![0u8] + le_bytes_u64(amount),
        r@.last().accounts@.len() > 1,
        r@.last().accounts@[1].pubkey@ == ore_token_address(wallet@),
{
    let mut ixs: Vec<Instr> = Vec::new();
    let beneficiary = beneficiary_tokens(wallet);
    if !beneficiary_exists {
        ixs.push(create_token_account_instruction(signer, wallet));
    }
    ixs.push(claim_instruction(signer, beneficiary, amount));
    assert(instrs_view(ixs@) =~= claim_instructions_spec(
        signer@,
        wallet@,
        beneficiary_exists,
        amount,
    ));
    proof {
        lemma_claim_creates_missing_account(signer@, wallet@, beneficiary_exists, amount);
        assert(instrs_view(ixs@)[0] == ixs@[0]@);
        if !beneficiary_exists {
            assert(instrs_view(ixs@)[1] == ixs@[1]@);
        }
    }
    ixs
}

} // verus!
