//! The exchange with a solution relay over a websocket: the message that
//! hands it the proof account, and the reading of its replies until one
//! carries the best hash.

use vstd::prelude::*;
use vstd::string::*;

verus! {

/// The ASCII digit for `d < 10`.
pub open spec fn digit_char(d: nat) -> char {
    (48 + d) as char
}

/// The decimal digits of `n`, most significant first, without leading zeros.
pub open spec fn decimal(n: nat) -> Seq<char>
    decreases n,
{
    if n < 10 {
        seq![digit_char(n)]
    } else {
        decimal(n / 10) + seq![digit_char(n % 10)]
    }
}

/// The numbers of `bytes` in decimal, separated by commas.
pub open spec fn comma_separated(bytes: Seq<u8>) -> Seq<char>
    decreases bytes.len(),
{
    if bytes.len() == 0 {
        Seq::empty()
    } else if bytes.len() == 1 {
        decimal(bytes[0] as nat)
    } else {
        comma_separated(bytes.drop_last()) + seq![','] + decimal(bytes.last() as nat)
    }
}

/// Compact JSON of a byte sequence: an array of its numbers, `[1,2,3]`.
pub open spec fn json_byte_array(bytes: Seq<u8>) -> Seq<char> {
    seq!['['] + comma_separated(bytes) + seq![']']
}

/// The text before the serialized proof in the message to the relay.
pub open spec fn proof_tag() -> Seq<char> {
    seq!['p', 'r', 'o', 'o', 'f', ':']
}

/// The text before the solution in a reply of the relay.
pub open spec fn best_hash_tag() -> Seq<char> {
    seq!['b', 'e', 's', 't', '_', 'h', 'a', 's', 'h', ':']
}

/// Calls `serde_json::to_string` on a byte slice. Its source writes a
/// sequence as `[`, the elements separated by `,`, and `]`, and a `u8` in
/// decimal; writing into a string cannot fail, so the error arm is never taken.
#[verifier::external_body]
fn json_of_bytes(bytes: &[u8]) -> (r: String)
    ensures
        r@ == json_byte_array(bytes@),
{
    match serde_json::to_string(bytes) {
        Ok(s) => s,
        Err(_) => String::new(),
    }
}

/// Calls `str::strip_prefix`, which returns the rest of `s` when `s` starts
/// with `prefix`, and `None` otherwise.
#[verifier::external_body]
fn strip_prefix<'a>(s: &'a str, prefix: &str) -> (r: Option<&'a str>)
    ensures
        r is Some <==> prefix@.is_prefix_of(s@),
        r matches Some(rest) ==> rest@ == s@.skip(prefix@.len() as int),
{
    s.strip_prefix(prefix)
}

/// The message that hands the relay the bytes of the proof account:
/// `proof:` followed by the bytes as a JSON array.
pub fn proof_message(proof_bytes: &[u8]) -> (r: String)
    ensures
        r@ == proof_tag() + json_byte_array(proof_bytes@),
{
    let tag = "proof:";
    proof {
        reveal_strlit("proof:");
    }
    assert(tag@ == proof_tag());
    let mut msg = String::from_str(tag);
    let json = json_of_bytes(proof_bytes);
    msg.append(json.as_str());
    msg
}

/// The solution text of a relay reply: what follows `best_hash:` when the
/// reply starts with it.
pub fn best_hash_payload(text: &str) -> (r: Option<String>)
    ensures
        r is Some <==> best_hash_tag().is_prefix_of(text@),
        r matches Some(rest) ==> rest@ == text@.skip(10),
{
    let tag = "best_hash:";
    proof {
        reveal_strlit("best_hash:");
    }
    assert(tag@ == best_hash_tag());
    match strip_prefix(text, tag) {
        Some(rest) => Some(rest.to_owned()),
        None => None,
    }
}

/// The hash part of the relay's best solution.
pub struct HashWrapper {
    pub h: Vec<u8>,
    pub d: [u8; 16],
}

/// The relay's best solution: its nonce, difficulty and hash.
pub struct ClientSolution {
    pub nonce: u64,
    pub difficulty: u32,
    pub hash: HashWrapper,
}

/// What a solution hands to the mine instruction: its digest and nonce.
pub fn solution_parts(solution: &ClientSolution) -> (r: ([u8; 16], u64))
    ensures
        r == (solution.hash.d, solution.nonce),
{
    (solution.hash.d, solution.nonce)
}

/// One item of the relay's stream of replies.
pub enum RelayMessage {
    /// A text message.
    Text(String),
    /// A text message whose text could not be read.
    Unreadable,
    /// A message of another kind (binary, ping, ...).
    Other,
    /// The connection failed.
    Failed,
}

/// What to do after a reply.
pub enum RelayStep {
    /// Wait for the next reply.
    Continue,
    /// The relay sent its best solution, as this text.
    Found(String),
    /// The connection failed; stop reading.
    Stop,
}

/// The outcome of a reply, by its view.
pub enum RelayStepView {
    Continue,
    Found(Seq<char>),
    Stop,
}

impl View for RelayStep {
    type V = RelayStepView;

    open spec fn view(&self) -> RelayStepView {
        match self {
            RelayStep::Continue => RelayStepView::Continue,
            RelayStep::Found(s) => RelayStepView::Found(s@),
            RelayStep::Stop => RelayStepView::Stop,
        }
    }
}

/// How the relay's replies are read: a text reply that starts with
/// `best_hash:` ends the exchange with the rest of its text; a failed
/// connection ends it without a solution; anything else is passed over.
pub open spec fn relay_step(msg: RelayMessage) -> RelayStepView {
    match msg {
        RelayMessage::Text(t) => if best_hash_tag().is_prefix_of(t@) {
            RelayStepView::Found(t@.skip(10))
        } else {
            RelayStepView::Continue
        },
        RelayMessage::Failed => RelayStepView::Stop,
        _ => RelayStepView::Continue,
    }
}

/// Reads one reply of the relay; see [`relay_step`].
pub fn on_relay_message(msg: &RelayMessage) -> (r: RelayStep)
    ensures
        r@ == relay_step(*msg),
{
    match msg {
        RelayMessage::Text(t) => match best_hash_payload(t.as_str()) {
            Some(rest) => RelayStep::Found(rest),
            None => RelayStep::Continue,
        },
        RelayMessage::Failed => RelayStep::Stop,
        _ => RelayStep::Continue,
    }
}

/// A text reply made of `best_hash:` and a solution text reads back as
/// exactly that solution text.
pub proof fn lemma_tagged_reply_found(reply: String, solution: Seq<char>)
    requires
        reply@ == best_hash_tag() + solution,
    ensures
        relay_step(RelayMessage::Text(reply)) == RelayStepView::Found(solution),
{
    assert(best_hash_tag().is_prefix_of(reply@)) by {
        assert(reply@.subrange(0, 10) =~= best_hash_tag());
    }
    assert(reply@.skip(10) =~= solution);
}

} // verus!
