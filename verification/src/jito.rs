//! Tipping a block engine and reading its replies.

use crate::chain::{system_transfer_instruction, transfer_instruction};
use crate::instr::{instrs_view, Instr, InstrView};
use crate::random::random_below;
use vstd::prelude::*;

verus! {

/// The reply of the block engine's JSON-RPC endpoint.
pub struct JitoResponse<T> {
    pub result: T,
}

/// The tip accounts of the Jito block engine, in this order:
/// `96gYZGLnJYVFmbjzopPSU6QiEV5fGqZNyN9nmNhvrZU5`,
/// `HFqU5x63VTqvQss8hp11i4wVV8bD44PvwucfZ2bU7gRe`,
/// `Cw8CFyM9FkoMi7K7Crf6HNQqf4uEMzpKw6QNghXLvLkY`,
/// `ADaUMid9yfUytqMBgopwjb2DTLSokTSzL1zt6iGPaS49`,
/// `DfXygSm4jCyNCybVYYK6DwvWqjKee8pbDmJGcLWNDXjh`,
/// `ADuUkR4vqLUMWXxW9gh6D6L8pMSawimctcNZ5pGwDcEt`,
/// `DttWaMuVvTiduZRnguLF7jNxTgiMBZ1hyAumKUiL2KRL`,
/// `3AVi9Tg9Uo68tJfuvoKvqKNWKkC5wPdSSdeBnizKZ6jT`,
pub const JITO_TIP_ACCOUNTS: [[u8; 32]; 8] = [
    [
        120, 82, 28, 177, 121, 206, 187, 133, 137, 181, 86, 162, 213, 236, 148, 210,
        73, 134, 130, 253, 249, 187, 42, 245, 173, 100, 228, 145, 204, 65, 83, 218,
    ],
    [
        241, 135, 236, 135, 209, 247, 69, 203, 58, 3, 56, 74, 38, 166, 158, 218,
        12, 162, 209, 170, 15, 65, 228, 36, 22, 55, 126, 145, 255, 91, 93, 49,
    ],
    [
        177, 78, 13, 229, 94, 159, 186, 134, 57, 110, 191, 213, 72, 207, 248, 201,
        32, 17, 234, 199, 183, 91, 170, 155, 45, 156, 106, 134, 245, 161, 113, 65,
    ],
    [
        136, 241, 255, 163, 162, 223, 230, 23, 189, 196, 227, 87, 50, 81, 163, 34,
        227, 252, 174, 129, 229, 164, 87, 57, 14, 100, 117, 28, 0, 164, 101, 226,
    ],
    [
        188, 43, 87, 6, 94, 241, 221, 102, 84, 48, 190, 96, 107, 166, 89, 108,
        2, 149, 48, 27, 173, 239, 139, 90, 252, 65, 1, 65, 80, 244, 18, 116,
    ],
    [
        137, 7, 125, 85, 165, 187, 19, 48, 118, 62, 183, 103, 245, 94, 192, 119,
        180, 26, 13, 7, 95, 125, 225, 215, 63, 186, 202, 60, 99, 213, 84, 113,
    ],
    [
        191, 151, 27, 89, 16, 139, 91, 133, 160, 79, 176, 147, 241, 226, 27, 78,
        63, 212, 196, 200, 244, 135, 221, 9, 185, 87, 82, 118, 159, 13, 216, 195,
    ],
    [
        32, 38, 16, 30, 194, 3, 40, 150, 74, 50, 171, 171, 19, 108, 84, 5,
        185, 31, 58, 227, 142, 228, 246, 76, 182, 189, 232, 121, 184, 104, 56, 210,
    ],
];

/// One of the tip accounts, at random.
pub fn pick_jito_recipient() -> (r: [u8; 32])
    ensures
        exists|i: int| 0 <= i < 8 && r == #[trigger] JITO_TIP_ACCOUNTS@[i],
{
    let i = random_below(8);
    JITO_TIP_ACCOUNTS[i]
}

/// The instruction that pays `value` lamports from `pubkey` to the tip
/// account `recipient`.
pub fn build_bribe_ix(pubkey: [u8; 32], recipient: [u8; 32], value: u64) -> (r: Instr)
    ensures
        r@ == system_transfer_instruction(pubkey, recipient, value),
{
    transfer_instruction(pubkey, recipient, value)
}

/// The instructions of a bundle's transaction: the given ones, then the tip.
pub fn with_tip(ixs: Vec<Instr>, pubkey: [u8; 32], recipient: [u8; 32], tip: u64) -> (r: Vec<Instr>)
    ensures
        instrs_view(r@) == instrs_view(ixs@).push(
            system_transfer_instruction(pubkey, recipient, tip),
        ),
{
    let mut ixs = ixs;
    let ghost before = ixs@;
    ixs.push(build_bribe_ix(pubkey, recipient, tip));
    assert(instrs_view(ixs@) =~= instrs_view(before).push(
        system_transfer_instruction(pubkey, recipient, tip),
    ));
    ixs
}

/// Why a bundle has no signature to report.
#[derive(Clone, Copy, Debug, PartialEq, Eq, Structural)]
pub enum BundleError {
    /// The bundle holds no transaction.
    EmptyBundle,
    /// Its first transaction holds no signature.
    EmptyTransaction,
}

/// The signature by which a bundle is followed: the first signature of its
/// first transaction. `signatures[i]` are the signatures of transaction `i`.
pub fn bundle_signature(signatures: &Vec<Vec<[u8; 64]>>) -> (r: Result<[u8; 64], BundleError>)
    ensures
        signatures@.len() == 0 ==> r == Err::<[u8; 64], BundleError>(BundleError::EmptyBundle),
        signatures@.len() > 0 && signatures@[0]@.len() == 0 ==> r == Err::<[u8; 64], BundleError>(
            BundleError::EmptyTransaction,
        ),
        signatures@.len() > 0 && signatures@[0]@.len() > 0 ==> r == Ok::<[u8; 64], BundleError>(
            signatures@[0]@[0],
        ),
{
    if signatures.len() == 0 {
        return Err(BundleError::EmptyBundle);
    }
    let first = &signatures[0];
    if first.len() == 0 {
        return Err(BundleError::EmptyTransaction);
    }
    Ok(first[0])
}

/// What the JSON body `body` holds under `result`: `None` if it is not JSON,
/// `Some(None)` if it has no string there (as `serde_json::Value::get` and
/// `as_str` read it).
pub uninterp spec fn json_result_text(body: Seq<char>) -> Option<Option<Seq<char>>>;

/// Calls `serde_json::from_str::<serde_json::Value>` and reads the string
/// under `result`.
#[verifier::external_body]
fn parse_result_field(body: &str) -> (r: Option<Option<String>>)
    ensures
        r is None <==> json_result_text(body@) is None,
        r matches Some(field) ==> json_result_text(body@) matches Some(f) && (field is None <==> f is None)
            && (field matches Some(s) ==> f == Some(s@)),
{
    match serde_json::from_str::<serde_json::Value>(body) {
        Ok(v) => Some(match v.get("result") {
            Some(serde_json::Value::String(s)) => Some(s.clone()),
            _ => None,
        }),
        Err(_) => None,
    }
}

/// How a reply of the block engine reads.
pub enum JitoReply {
    /// The status code was not a success.
    Rejected,
    /// The body is not JSON.
    Unparsable,
    /// The body has no string under `result`.
    MissingResult,
    /// The string under `result`.
    Accepted(String),
}

/// Reads a reply of the block engine, given whether its status code was a
/// success and its body.
pub fn read_jito_reply(success: bool, body: &str) -> (r: JitoReply)
    ensures
        !success ==> r is Rejected,
        success ==> match json_result_text(body@) {
            None => r is Unparsable,
            Some(None) => r is MissingResult,
            Some(Some(text)) => r matches JitoReply::Accepted(s) && s@ == text,
        },
{
    if !success {
        return JitoReply::Rejected;
    }
    match parse_result_field(body) {
        None => JitoReply::Unparsable,
        Some(None) => JitoReply::MissingResult,
        Some(Some(s)) => JitoReply::Accepted(s),
    }
}

} // verus!
