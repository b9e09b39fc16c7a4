//! The miner's settings and its signing key.

use crate::chain::instruction_of;
use crate::instr::{instrs_view, Instr, InstrView};
use solana_program::pubkey::Pubkey;
use solana_sdk::signature::Keypair;
use solana_sdk::signer::Signer;
use solana_sdk::transaction::Transaction;
use vstd::prelude::*;

verus! {

#[verifier::external_type_specification]
#[verifier::external_body]
pub struct ExKeypair(Keypair);

#[verifier::external_type_specification]
#[verifier::external_body]
pub struct ExTransaction(Transaction);

/// The settings of a miner: its key, in base58, and the tip it pays per
/// transaction, in lamports.
pub struct Miner {
    pub private_key: Option<String>,
    pub priority_fee: u64,
}

/// A decoded signing key with the bytes of its public address and its 64
/// keypair bytes. It is only built from a keypair, with the address and the
/// bytes read from that keypair.
pub struct MinerSigner {
    keypair: Keypair,
    address: [u8; 32],
    bytes: [u8; 64],
}

/// What identifies a signing key: its public address and its 64 keypair
/// bytes (secret key, then public key).
pub struct MinerSignerView {
    pub address: Seq<u8>,
    pub keypair_bytes: Seq<u8>,
}

impl View for MinerSigner {
    type V = MinerSignerView;

    closed spec fn view(&self) -> MinerSignerView {
        MinerSignerView { address: self.address@, keypair_bytes: self.bytes@ }
    }
}

impl MinerSigner {
    /// The public address of the key.
    pub fn address(&self) -> (r: [u8; 32])
        ensures
            r@ == self@.address,
    {
        self.address
    }

    /// The 64 keypair bytes of the key.
    pub fn keypair_bytes(&self) -> (r: [u8; 64])
        ensures
            r@ == self@.keypair_bytes,
    {
        self.bytes
    }
}

/// Why no signing key could be had.
#[derive(Clone, Copy, Debug, PartialEq, Eq, Structural)]
pub enum SignerError {
    /// The miner was built without a key.
    NoPrivateKey,
    /// The key is not base58 of a valid keypair.
    InvalidKey,
}

/// The bytes that `bs58::decode(text).into_vec()` yields, or `None` where it
/// returns an error.
pub uninterp spec fn base58_bytes(text: Seq<char>) -> Option<Seq<u8>>;

/// The public address of the keypair that `Keypair::from_bytes(bytes)`
/// builds, or `None` where it returns an error.
pub uninterp spec fn keypair_address(bytes: Seq<u8>) -> Option<Seq<u8>>;

/// Calls `bs58::decode(text).into_vec()` (the decoder that
/// `Keypair::from_base58_string` uses).
#[verifier::external_body]
fn decode_base58(text: &str) -> (r: Option<Vec<u8>>)
    ensures
        r is Some <==> base58_bytes(text@) is Some,
        r matches Some(b) ==> b@ == base58_bytes(text@)->0,
{
    match solana_sdk::bs58::decode(text).into_vec() {
        Ok(bytes) => Some(bytes),
        Err(_) => None,
    }
}

/// Calls `Keypair::from_bytes` and, on success, reads the keypair's public
/// address (`Signer::pubkey`) and its bytes (`Keypair::to_bytes`). Its source
/// accepts only 64 bytes (a 32-byte secret key, then the 32-byte public key
/// that the secret key derives), keeps them as they are, and the address is
/// that public key.
#[verifier::external_body]
fn keypair_from_bytes(bytes: &[u8]) -> (r: Option<MinerSigner>)
    ensures
        r is Some <==> keypair_address(bytes@) is Some,
        r matches Some(s) ==> {
            &&& s@.address == keypair_address(bytes@)->0
            &&& s@.keypair_bytes == bytes@
            &&& bytes@.len() == 64
            &&& s@.address == bytes@.subrange(32, 64)
        },
{
    match Keypair::from_bytes(bytes) {
        Ok(keypair) => {
            let address = keypair.pubkey().to_bytes();
            let bytes = keypair.to_bytes();
            Some(MinerSigner { keypair, address, bytes })
        },
        Err(_) => None,
    }
}

/// The address of the key written as `text`, if it decodes to a valid keypair.
pub open spec fn key_address(text: Seq<char>) -> Option<Seq<u8>> {
    match base58_bytes(text) {
        Some(bytes) => keypair_address(bytes),
        None => None,
    }
}

/// Calls `Keypair::to_base58_string` on the signer's keypair. Its source
/// writes the keypair's 64 bytes (secret key, then public key) in base58;
/// `bs58` decodes that text back to those bytes, and `Keypair::from_bytes`
/// accepts them, giving a keypair of the same address.
#[verifier::external_body]
fn encode_keypair(signer: &MinerSigner) -> (r: String)
    ensures
        base58_bytes(r@) == Some(signer@.keypair_bytes),
        key_address(r@) == Some(signer@.address),
{
    signer.keypair.to_base58_string()
}

/// A transaction before it is signed: who pays its fees, the blockhash it
/// is bound to, and its instructions in order.
pub struct TransactionPlan {
    pub payer: [u8; 32],
    pub recent_blockhash: [u8; 32],
    pub instructions: Vec<Instr>,
}

/// The bytes of the legacy message that `Transaction::new_with_payer`
/// compiles from these instructions with this fee payer, once bound to this
/// blockhash (`Transaction::message_data`).
pub uninterp spec fn legacy_message_bytes(
    payer: Seq<u8>,
    blockhash: Seq<u8>,
    ixs: Seq<InstrView>,
) -> Seq<u8>;

/// The ed25519 signature that `Keypair::sign_message` makes of `message`
/// with the keypair of these 64 bytes.
pub uninterp spec fn ed25519_signature(keypair_bytes: Seq<u8>, message: Seq<u8>) -> Seq<u8>;

/// Whether every account that the instructions ask to sign is `payer`.
pub open spec fn only_payer_signs(payer: Seq<u8>, ixs: Seq<InstrView>) -> bool {
    forall|i: int, j: int|
        0 <= i < ixs.len() && 0 <= j < ixs[i].accounts.len() && (#[trigger] ixs[i].accounts[j]).is_signer
            ==> ixs[i].accounts[j].pubkey@ == payer
}

/// A signed transaction with its message bytes and signatures.
pub struct SignedTransaction {
    transaction: Transaction,
    message: Vec<u8>,
    signatures: Vec<[u8; 64]>,
}

/// What a signed transaction carries: its message bytes and its signatures.
pub struct SignedTransactionView {
    pub message: Seq<u8>,
    pub signatures: Seq<Seq<u8>>,
}

impl View for SignedTransaction {
    type V = SignedTransactionView;

    closed spec fn view(&self) -> SignedTransactionView {
        SignedTransactionView {
            message: self.message@,
            signatures: self.signatures@.map_values(|s: [u8; 64]| s@),
        }
    }
}

impl SignedTransaction {
    /// The transaction, to be sent.
    pub fn transaction(&self) -> &Transaction {
        &self.transaction
    }

    /// The message bytes that were signed.
    pub fn message(&self) -> (r: &Vec<u8>)
        ensures
            r@ == self@.message,
    {
        &self.message
    }
}

/// Builds the transaction of `plan` with `Transaction::new_with_payer` and
/// signs it with `signer`'s keypair by `Transaction::try_sign` at the plan's
/// blockhash, then reads its message bytes (`message_data`) and signatures.
/// `new_with_payer` panics when the message has more than 255 signers,
/// read-only signers or read-only non-signers, which `requires` rules out.
/// `try_sign` succeeds when the keypair is the fee payer and no other account
/// signs; on success the one signature is the keypair's of the message,
/// since a single keypair fills a single signature.
#[verifier::external_body]
fn sign_transaction(plan: &TransactionPlan, signer: &MinerSigner) -> (r: Option<SignedTransaction>)
    requires
        crate::message::message_keys_fit(plan.payer@, instrs_view(plan.instructions@)),
    ensures
        plan.payer@ == signer@.address && only_payer_signs(plan.payer@, instrs_view(plan.instructions@))
            ==> r is Some,
        r matches Some(t) ==> t@.message == legacy_message_bytes(
            plan.payer@,
            plan.recent_blockhash@,
            instrs_view(plan.instructions@),
        ) && t@.signatures == seq![ed25519_signature(signer@.keypair_bytes, t@.message)],
{
    let ixs: Vec<_> = plan.instructions.iter().map(instruction_of).collect();
    let mut tx = Transaction::new_with_payer(&ixs, Some(&Pubkey::new_from_array(plan.payer)));
    let hash = solana_program::hash::Hash::new_from_array(plan.recent_blockhash);
    match tx.try_sign(&[&signer.keypair], hash) {
        Ok(()) => {
            let signatures = tx.signatures.iter().map(|s| <[u8; 64]>::from(*s)).collect();
            Some(SignedTransaction { message: tx.message_data(), signatures, transaction: tx })
        },
        Err(_) => None,
    }
}

/// The transaction of a bundle: `ixs` followed by the tip, paid for by the
/// signer and bound to `blockhash`.
pub fn plan_bundle_transaction(
    ixs: Vec<Instr>,
    signer: &MinerSigner,
    recipient: [u8; 32],
    tip: u64,
    blockhash: [u8; 32],
) -> (r: TransactionPlan)
    ensures
        r.payer@ == signer@.address,
        r.recent_blockhash == blockhash,
        instrs_view(r.instructions@) == instrs_view(ixs@).push(
            crate::chain::system_transfer_instruction(r.payer, recipient, tip),
        ),
{
    let payer = signer.address();
    let instructions = crate::jito::with_tip(ixs, payer, recipient, tip);
    TransactionPlan { payer, recent_blockhash: blockhash, instructions }
}

/// Signs the transaction of `plan` with the signer's key, as a bundle of one
/// transaction: the legacy message of the plan's payer, blockhash and
/// instructions, with the signer's signature of it. Signing succeeds when
/// the signer pays the fees and no other account signs; `None` otherwise.
pub fn signed_bundle(plan: &TransactionPlan, signer: &MinerSigner) -> (r: Option<
    Vec<SignedTransaction>,
>)
    requires
        crate::message::message_keys_fit(plan.payer@, instrs_view(plan.instructions@)),
    ensures
        plan.payer@ == signer@.address && only_payer_signs(plan.payer@, instrs_view(plan.instructions@))
            ==> r is Some,
        r matches Some(bundle) ==> {
            &&& bundle@.len() == 1
            &&& bundle@[0]@.message == legacy_message_bytes(
                plan.payer@,
                plan.recent_blockhash@,
                instrs_view(plan.instructions@),
            )
            &&& bundle@[0]@.signatures == seq![
                ed25519_signature(signer@.keypair_bytes, bundle@[0]@.message),
            ]
        },
{
    match sign_transaction(plan, signer) {
        Some(t) => {
            let mut bundle = Vec::new();
            bundle.push(t);
            Some(bundle)
        },
        None => None,
    }
}

impl Miner {
    /// A miner with this tip and the key of `signer`, written in base58 as
    /// `Keypair::to_base58_string` does; its [`Miner::signer`] decodes back to
    /// the same keypair bytes and address.
    pub fn with_signer(priority_fee: u64, signer: &MinerSigner) -> (r: Self)
        ensures
            r.priority_fee == priority_fee,
            r.private_key matches Some(k) && base58_bytes(k@) == Some(signer@.keypair_bytes)
                && key_address(k@) == Some(signer@.address),
    {
        Miner { private_key: Some(encode_keypair(signer)), priority_fee }
    }

    /// A miner with this tip and key.
    pub fn new(priority_fee: u64, private_key: Option<String>) -> (r: Self)
        ensures
            r.priority_fee == priority_fee,
            r.private_key == private_key,
    {
        Miner { private_key, priority_fee }
    }

    /// Decodes the miner's key, as `Keypair::from_base58_string` does.
    pub fn signer(&self) -> (r: Result<MinerSigner, SignerError>)
        ensures
            self.private_key is None ==> r matches Err(SignerError::NoPrivateKey),
            self.private_key matches Some(k) ==> match key_address(k@) {
                Some(a) => r matches Ok(s) && s@.address == a && s@.keypair_bytes == base58_bytes(
                    k@,
                )->0,
                None => r matches Err(SignerError::InvalidKey),
            },
    {
        match &self.private_key {
            None => Err(SignerError::NoPrivateKey),
            Some(key) => match decode_base58(key.as_str()) {
                None => Err(SignerError::InvalidKey),
                Some(bytes) => match keypair_from_bytes(bytes.as_slice()) {
                    Some(s) => Ok(s),
                    None => Err(SignerError::InvalidKey),
                },
            },
        }
    }

    /// Reads the number of cores of this machine and returns it when fewer
    /// than `threads`, so that the caller can warn; `None` otherwise. The
    /// count depends on the machine; whatever it is (at least 1), the result
    /// is [`cores_exceeded`] of it.
    pub fn check_num_cores(&self, threads: u64) -> (r: Option<u64>)
        ensures
            exists|cores: u64| #![trigger exceeded(threads, cores)]
                cores >= 1 && r == exceeded(threads, cores),
            r matches Some(cores) ==> 1 <= cores < threads,
            threads <= 1 ==> r is None,
    {
        cores_exceeded(threads, available_cores())
    }
}

/// `Some(cores)` when more threads were asked for than there are cores.
pub open spec fn exceeded(threads: u64, cores: u64) -> Option<u64> {
    if threads > cores {
        Some(cores)
    } else {
        None
    }
}

/// `Some(cores)` when more threads were asked for than there are cores.
pub fn cores_exceeded(threads: u64, cores: u64) -> (r: Option<u64>)
    ensures
        r == exceeded(threads, cores),
{
    if threads > cores {
        Some(cores)
    } else {
        None
    }
}

/// Calls `num_cpus::get`, the number of cores of this machine, which its
/// documentation says is always at least 1.
#[verifier::external_body]
fn available_cores() -> (r: u64)
    ensures
        r >= 1,
{
    num_cpus::get() as u64
}

} // verus!
