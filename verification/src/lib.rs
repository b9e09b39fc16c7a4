//! Decision logic of an ORE mining and claiming client: when a mining round
//! ends, when the network epoch is due for a reset, how the nonce space is
//! split among worker threads and which hash wins, which instructions a
//! transaction carries, and how a submitted bundle is retried and confirmed.
//! Network, terminal and file work stays with the caller.

pub mod timing;
pub mod instr;
pub mod chain;
pub mod confirm;
pub mod clock;
pub mod search;
pub mod random;
pub mod mine;
pub mod relay;
pub mod claim;
pub mod miner;
pub mod jito;
pub mod message;
