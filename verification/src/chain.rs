//! The calls into the ORE program's SDK, the SPL token programs and the Solana
//! system program that build instructions and derive addresses. Each result
//! that depends only on the arguments is given a name; where the source shows
//! more, the contract says so.

use crate::instr::{AccountRef, Instr, InstrView};
use solana_program::instruction::Instruction;
use solana_program::pubkey::Pubkey;
use vstd::prelude::*;

verus! {

#[verifier::external_type_specification]
#[verifier::external_body]
pub struct ExInstruction(Instruction);

/// What `ore_api::sdk::claim(signer, beneficiary, amount)` builds.
pub uninterp spec fn ore_claim_instruction(
    signer: Seq<u8>,
    beneficiary: Seq<u8>,
    amount: u64,
) -> InstrView;

/// The address of the noop program, `ore_api::consts::NOOP_PROGRAM_ID`
/// (`noop8ytexvkpCuqbf6FB89BSuNemHtPRqaNC31GWivW`).
pub open spec fn noop_program_id() -> Seq<u8> {
    seq![
        11u8, 188, 15, 182, 203, 29, 221, 28, 227, 242, 242, 171, 26, 14, 188, 177,
        157, 107, 138, 3, 18, 82, 116, 20, 91, 31, 128, 139, 185, 154, 240, 91,
    ]
}

/// The address of the ORE program, `ore_api::ID`
/// (`oreV2ZymfyeXgNgBdqMkumTqqAprVqgBWQfoYkrtKWQ`).
pub open spec fn ore_program_id() -> Seq<u8> {
    seq![
        12u8, 0, 218, 56, 141, 104, 231, 117, 177, 181, 197, 109, 1, 141, 62, 76,
        214, 134, 116, 12, 241, 199, 17, 129, 167, 81, 49, 80, 203, 81, 31, 217,
    ]
}

/// What `ore_api::sdk::auth(proof)` builds: a call of the noop program with
/// no accounts whose data are the 32 bytes of `proof`.
pub open spec fn ore_auth_instruction(proof: Seq<u8>) -> InstrView {
    InstrView { program_id: noop_program_id(), accounts: Seq::empty(), data: proof }
}

/// What `ore_api::sdk::reset(signer)` builds.
pub uninterp spec fn ore_reset_instruction(signer: Seq<u8>) -> InstrView;

/// What `ore_api::sdk::mine` builds for a solution with this digest and the
/// little-endian bytes of this nonce, with no boost accounts.
pub uninterp spec fn ore_mine_instruction(
    signer: Seq<u8>,
    authority: Seq<u8>,
    bus: Seq<u8>,
    digest: Seq<u8>,
    nonce: u64,
) -> InstrView;

/// The address of the proof account of `authority`: `ore_api::state::proof_pda(authority).0`.
pub uninterp spec fn ore_proof_address(authority: Seq<u8>) -> Seq<u8>;

/// `ore_api::consts::BUS_ADDRESSES[index]`.
pub uninterp spec fn ore_bus_address(index: int) -> Seq<u8>;

/// The ORE token account of `wallet`:
/// `spl_associated_token_account::get_associated_token_address(wallet, MINT_ADDRESS)`.
pub uninterp spec fn ore_token_address(wallet: Seq<u8>) -> Seq<u8>;

/// What `spl_associated_token_account::instruction::create_associated_token_account`
/// builds for the ORE mint and the SPL token program.
pub uninterp spec fn create_ore_token_account_instruction(
    funding: Seq<u8>,
    wallet: Seq<u8>,
) -> InstrView;

/// The little-endian bytes of `x`.
pub open spec fn le_bytes_u64(x: u64) -> Seq<u8> {
    Seq::new(8, |i: int| ((x as int / pow256(i)) % 256) as u8)
}

/// `256` to the power `i`, for `0 <= i`.
pub open spec fn pow256(i: int) -> int
    decreases i,
{
    if i <= 0 {
        1
    } else {
        256 * pow256(i - 1)
    }
}

/// What `solana_program::system_instruction::transfer(from, to, lamports)`
/// builds: a call of the system program (address all zeros) naming `from`
/// as a writable signer and `to` as writable, whose data are the bincode
/// encoding of `SystemInstruction::Transfer { lamports }`: the variant index
/// 2 as four little-endian bytes, then the eight little-endian bytes of
/// `lamports`.
pub open spec fn system_transfer_instruction(from: [u8; 32], to: [u8; 32], lamports: u64) -> InstrView {
    InstrView {
        program_id: Seq::new(32, |i: int| 0u8),
        accounts: seq![
            AccountRef { pubkey: from, is_signer: true, is_writable: true },
            AccountRef { pubkey: to, is_signer: false, is_writable: true },
        ],
        data: seq![2u8, 0u8, 0u8, 0u8] + le_bytes_u64(lamports),
    }
}

/// Copies a `solana_program` instruction into plain values, field by field:
/// the program id's bytes, each account meta's address bytes and flags in
/// order, and the data bytes. Nothing is stated of the result, since the
/// argument is opaque here; the builders below state what comes back.
#[verifier::external_body]
fn instr_from(ix: Instruction) -> Instr {
    Instr {
        program_id: ix.program_id.to_bytes(),
        accounts: ix.accounts.iter().map(|m| AccountRef {
            pubkey: m.pubkey.to_bytes(),
            is_signer: m.is_signer,
            is_writable: m.is_writable,
        }).collect(),
        data: ix.data,
    }
}

/// Copies plain values back into a `solana_program` instruction, field by
/// field. Nothing is stated of the result, which is opaque here.
#[verifier::external_body]
pub(crate) fn instruction_of(ix: &Instr) -> Instruction {
    Instruction {
        program_id: Pubkey::new_from_array(ix.program_id),
        accounts: ix.accounts.iter().map(|a| solana_program::instruction::AccountMeta {
            pubkey: Pubkey::new_from_array(a.pubkey),
            is_signer: a.is_signer,
            is_writable: a.is_writable,
        }).collect(),
        data: ix.data.clone(),
    }
}

/// Calls `ore_api::sdk::claim`. Its source calls the ORE program, names the
/// signer first as a writable signer and the beneficiary second as
/// writable, and its data are the `Claim` discriminator 0 and the
/// little-endian bytes of `amount`.
#[verifier::external_body]
pub(crate) fn claim_instruction(signer: [u8; 32], beneficiary: [u8; 32], amount: u64) -> (r: Instr)
    ensures
        r@ == ore_claim_instruction(signer@, beneficiary@, amount),
        r.program_id@ == ore_program_id(),
        r.accounts@.len() > 1,
        r.accounts@[0] == (AccountRef { pubkey: signer, is_signer: true, is_writable: true }),
        r.accounts@[1] == (AccountRef { pubkey: beneficiary, is_signer: false, is_writable: true }),
        r.data@ == seq![0u8] + le_bytes_u64(amount),
{
    let ix = ore_api::sdk::claim(
        Pubkey::new_from_array(signer),
        Pubkey::new_from_array(beneficiary),
        amount,
    );
    instr_from(ix)
}

/// Calls `ore_api::sdk::auth`; see [`ore_auth_instruction`] for what its
/// source builds.
#[verifier::external_body]
pub(crate) fn auth_instruction(proof: [u8; 32]) -> (r: Instr)
    ensures
        r@ == ore_auth_instruction(proof@),
{
    instr_from(ore_api::sdk::auth(Pubkey::new_from_array(proof)))
}

/// Calls `ore_api::sdk::reset`. Its source calls the ORE program, names the
/// signer first as a writable signer, and its data are the `Reset`
/// discriminator 4.
#[verifier::external_body]
pub(crate) fn reset_instruction(signer: [u8; 32]) -> (r: Instr)
    ensures
        r@ == ore_reset_instruction(signer@),
        r.program_id@ == ore_program_id(),
        r.data@ == seq![4u8],
        r.accounts@.len() > 0,
        r.accounts@[0] == (AccountRef { pubkey: signer, is_signer: true, is_writable: true }),
{
    instr_from(ore_api::sdk::reset(Pubkey::new_from_array(signer)))
}

/// Calls `ore_api::sdk::mine` with `drillx::Solution::new(digest, nonce.to_le_bytes())`
/// and no boost accounts. Its source calls the ORE program, names the
/// signer first as a writable signer and the bus second as writable, and
/// its data are the `Mine` discriminator 2, the digest and the little-endian
/// bytes of the nonce.
#[verifier::external_body]
pub(crate) fn mine_instruction(
    signer: [u8; 32],
    authority: [u8; 32],
    bus: [u8; 32],
    digest: [u8; 16],
    nonce: u64,
) -> (r: Instr)
    ensures
        r@ == ore_mine_instruction(signer@, authority@, bus@, digest@, nonce),
        r.program_id@ == ore_program_id(),
        r.accounts@.len() > 1,
        r.accounts@[0] == (AccountRef { pubkey: signer, is_signer: true, is_writable: true }),
        r.accounts@[1] == (AccountRef { pubkey: bus, is_signer: false, is_writable: true }),
        r.data@ == seq![2u8] + digest@ + le_bytes_u64(nonce),
{
    let solution = drillx::Solution::new(digest, nonce.to_le_bytes());
    let ix = ore_api::sdk::mine(
        Pubkey::new_from_array(signer),
        Pubkey::new_from_array(authority),
        Pubkey::new_from_array(bus),
        solution,
        vec![],
    );
    instr_from(ix)
}

/// Calls `ore_api::state::proof_pda` and keeps the address.
#[verifier::external_body]
pub(crate) fn proof_address(authority: [u8; 32]) -> (r: [u8; 32])
    ensures
        r@ == ore_proof_address(authority@),
{
    ore_api::state::proof_pda(Pubkey::new_from_array(authority)).0.to_bytes()
}

/// `ore_api::consts::BUS_COUNT`, which its source sets to 8.
#[verifier::external_body]
pub(crate) fn bus_count() -> (r: usize)
    ensures
        r == 8,
{
    ore_api::consts::BUS_COUNT
}

/// Reads `ore_api::consts::BUS_ADDRESSES[index]`; the array has `BUS_COUNT` entries.
#[verifier::external_body]
pub(crate) fn bus_address(index: usize) -> (r: [u8; 32])
    requires
        index < 8,
    ensures
        r@ == ore_bus_address(index as int),
{
    ore_api::consts::BUS_ADDRESSES[index].to_bytes()
}

/// `ore_api::consts::EPOCH_DURATION`, which its source sets to
/// `ONE_MINUTE * EPOCH_MINUTES` = 60 * 5 seconds.
#[verifier::external_body]
pub(crate) fn epoch_duration() -> (r: i64)
    ensures
        r == 300,
{
    ore_api::consts::EPOCH_DURATION
}

/// Calls `spl_associated_token_account::get_associated_token_address` for the
/// ORE mint (`ore_api::consts::MINT_ADDRESS`).
#[verifier::external_body]
pub(crate) fn token_address(wallet: [u8; 32]) -> (r: [u8; 32])
    ensures
        r@ == ore_token_address(wallet@),
{
    spl_associated_token_account::get_associated_token_address(
        &Pubkey::new_from_array(wallet),
        &ore_api::consts::MINT_ADDRESS,
    ).to_bytes()
}

/// Calls `spl_associated_token_account::instruction::create_associated_token_account`
/// for the ORE mint and `spl_token::id()`. Its source names the funding
/// account first, as a writable signer.
#[verifier::external_body]
pub(crate) fn create_token_account_instruction(funding: [u8; 32], wallet: [u8; 32]) -> (r: Instr)
    ensures
        r@ == create_ore_token_account_instruction(funding@, wallet@),
        r.accounts@.len() > 0,
        r.accounts@[0] == (AccountRef { pubkey: funding, is_signer: true, is_writable: true }),
{
    instr_from(spl_associated_token_account::instruction::create_associated_token_account(
        &Pubkey::new_from_array(funding),
        &Pubkey::new_from_array(wallet),
        &ore_api::consts::MINT_ADDRESS,
        &spl_token::id(),
    ))
}

/// Calls `solana_program::system_instruction::transfer`; see
/// [`system_transfer_instruction`] for what its source builds.
#[verifier::external_body]
pub(crate) fn transfer_instruction(from: [u8; 32], to: [u8; 32], lamports: u64) -> (r: Instr)
    ensures
        r@ == system_transfer_instruction(from, to, lamports),
{
    instr_from(solana_program::system_instruction::transfer(
        &Pubkey::new_from_array(from),
        &Pubkey::new_from_array(to),
        lamports,
    ))
}

} // verus!
