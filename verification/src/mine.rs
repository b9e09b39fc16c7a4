//! What one mining round sends: the instructions of the transaction that
//! submits a solution, and its compute budget.

use crate::chain::{
    auth_instruction, bus_address, bus_count, mine_instruction, ore_auth_instruction, ore_bus_address,
    ore_mine_instruction, ore_proof_address, ore_reset_instruction, proof_address, reset_instruction,
};
use crate::chain::{le_bytes_u64, ore_program_id};
use crate::instr::{instrs_view, AccountRef, Instr, InstrView};
use crate::random::{random_below, DrawLog};
use vstd::prelude::*;

verus! {

/// How the compute budget of a transaction is set.
#[derive(Clone, Copy, Debug, PartialEq, Eq, Structural)]
pub enum ComputeBudget {
    Dynamic,
    Fixed(u32),
}

/// Compute units of a transaction that submits a solution.
pub const MINE_COMPUTE_UNITS: u32 = 500_000;

/// Compute units added when the transaction also resets the epoch.
pub const RESET_COMPUTE_UNITS: u32 = 100_000;

/// One in this many due resets is sent by a given miner.
pub const RESET_ODDS: usize = 100;

/// Picks one of the ORE bus accounts at random.
pub fn find_bus() -> (r: [u8; 32])
    ensures
        exists|i: int| 0 <= i < 8 && r@ == ore_bus_address(i),
{
    let i = random_below(bus_count());
    bus_address(i)
}

/// A transaction that submits a solution.
pub struct MineTransaction {
    pub compute_budget: ComputeBudget,
    pub instructions: Vec<Instr>,
}

/// The instructions that submit the solution (`digest`, `nonce`) for
/// `signer` through the bus `bus`: an auth instruction naming the signer's
/// proof account, then, if `with_reset`, a reset, then the mine instruction.
pub open spec fn mine_instructions(
    signer: Seq<u8>,
    bus: Seq<u8>,
    digest: Seq<u8>,
    nonce: u64,
    with_reset: bool,
) -> Seq<InstrView> {
    let auth = seq![ore_auth_instruction(ore_proof_address(signer))];
    let reset = if with_reset {
        seq![ore_reset_instruction(signer)]
    } else {
        Seq::empty()
    };
    auth + reset + seq![ore_mine_instruction(signer, signer, bus, digest, nonce)]
}

/// The compute budget of a mining transaction, with or without a reset.
pub open spec fn mine_budget(with_reset: bool) -> ComputeBudget {
    if with_reset {
        ComputeBudget::Fixed((MINE_COMPUTE_UNITS + RESET_COMPUTE_UNITS) as u32)
    } else {
        ComputeBudget::Fixed(MINE_COMPUTE_UNITS)
    }
}

/// Builds the mining transaction for chosen values of the random choices:
/// whether a reset goes along and which bus is used.
pub fn assemble_mine_transaction(
    signer: [u8; 32],
    bus: [u8; 32],
    digest: [u8; 16],
    nonce: u64,
    with_reset: bool,
) -> (r: MineTransaction)
    ensures
        r.compute_budget == mine_budget(with_reset),
        instrs_view(r.instructions@) == mine_instructions(signer@, bus@, digest@, nonce, with_reset),
        r.instructions@.len() > 0,
        r.instructions@.last().program_id@ == ore_program_id(),
        r.instructions@.last().data@ == seq![2u8] + digest@ + le_bytes_u64(nonce),
        r.instructions@.last().accounts@.len() > 1,
        r.instructions@.last().accounts@[0] == (AccountRef { pubkey: signer, is_signer: true, is_writable: true }),
        r.instructions@.last().accounts@[1] == (AccountRef { pubkey: bus, is_signer: false, is_writable: true }),
{
    let mut compute_budget: u32 = MINE_COMPUTE_UNITS;
    let mut instructions: Vec<Instr> = Vec::new();
    instructions.push(auth_instruction(proof_address(signer)));
    if with_reset {
        compute_budget = compute_budget + RESET_COMPUTE_UNITS;
        instructions.push(reset_instruction(signer));
    }
    instructions.push(mine_instruction(signer, signer, bus, digest, nonce));
    let ghost expected = mine_instructions(signer@, bus@, digest@, nonce, with_reset);
    assert(instrs_view(instructions@) =~= expected);
    MineTransaction { compute_budget: ComputeBudget::Fixed(compute_budget), instructions }
}

/// Whether a reset goes along: only when it is due and the draw, a number
/// below `RESET_ODDS`, came out 0.
pub fn reset_chosen(reset_due: bool, draw: usize) -> (r: bool)
    ensures
        r == (reset_due && draw == 0),
{
    reset_due && draw == 0
}

/// Builds the mining transaction of a round with draws from `draws`: when a
/// reset is due, a first draw below 100 decides, and the reset goes along
/// exactly when it is 0 (one round in a hundred); then a draw below 8 picks
/// the bus. When no reset is due, only the bus is drawn.
pub fn plan_mine_transaction_drawn(
    draws: &mut DrawLog,
    signer: [u8; 32],
    digest: [u8; 16],
    nonce: u64,
    reset_due: bool,
) -> (r: MineTransaction)
    ensures
        ({
            let taken = final(draws).draws().skip(old(draws).draws().len() as int);
            &&& final(draws).draws().len() >= old(draws).draws().len()
            &&& final(draws).draws().take(old(draws).draws().len() as int) == old(draws).draws()
            &&& reset_due ==> {
                &&& taken.len() == 2
                &&& taken[0] < 100
                &&& taken[1] < 8
                &&& r.compute_budget == (if taken[0] == 0 {
                    ComputeBudget::Fixed(600_000)
                } else {
                    ComputeBudget::Fixed(500_000)
                })
                &&& r.instructions@.len() == (if taken[0] == 0 {
                    3int
                } else {
                    2int
                })
                &&& instrs_view(r.instructions@) == mine_instructions(
                    signer@,
                    ore_bus_address(taken[1] as int),
                    digest@,
                    nonce,
                    taken[0] == 0,
                )
            }
            &&& !reset_due ==> {
                &&& taken.len() == 1
                &&& taken[0] < 8
                &&& r.compute_budget == ComputeBudget::Fixed(500_000)
                &&& r.instructions@.len() == 2
                &&& instrs_view(r.instructions@) == mine_instructions(
                    signer@,
                    ore_bus_address(taken[0] as int),
                    digest@,
                    nonce,
                    false,
                )
            }
        }),
{
    let ghost before = draws.draws();
    let mut draw: usize = 1;
    if reset_due {
        draw = draws.draw_below(RESET_ODDS);
    }
    let with_reset = reset_chosen(reset_due, draw);
    let i = draws.draw_below(bus_count());
    let bus = bus_address(i);
    let r = assemble_mine_transaction(signer, bus, digest, nonce, with_reset);
    proof {
        let after = draws.draws();
        let taken = after.skip(before.len() as int);
        assert(after.take(before.len() as int) =~= before);
        if reset_due {
            assert(taken =~= seq![draw as nat, i as nat]);
        } else {
            assert(taken =~= seq![i as nat]);
        }
        assert(instrs_view(r.instructions@).len() == r.instructions@.len());
    }
    r
}

/// Builds the mining transaction of a round: when a reset is due, a draw
/// below 100 decides, and the reset goes along when it comes out 0 (one
/// miner in a hundred); the bus is picked at random. Whatever the draws, the
/// transaction has the shape that [`assemble_mine_transaction`] states; see
/// [`plan_mine_transaction_drawn`] for how the draws decide.
pub fn plan_mine_transaction(signer: [u8; 32], digest: [u8; 16], nonce: u64, reset_due: bool) -> (r:
    MineTransaction)
    ensures
        exists|draw: nat, i: int|
            #![trigger ore_bus_address(i), draw_decides(reset_due, draw)]
            draw < RESET_ODDS && 0 <= i < 8 && r.compute_budget == mine_budget(
                draw_decides(reset_due, draw),
            ) && instrs_view(r.instructions@) == mine_instructions(
                signer@,
                ore_bus_address(i),
                digest@,
                nonce,
                draw_decides(reset_due, draw),
            ),
{
    let mut draws = DrawLog::new();
    let r = plan_mine_transaction_drawn(&mut draws, signer, digest, nonce, reset_due);
    proof {
        let taken = draws.draws().skip(0);
        assert(taken =~= draws.draws());
        if reset_due {
            let d = taken[0];
            let i = taken[1] as int;
            assert(draw_decides(reset_due, d) == (d == 0));
            assert(d < RESET_ODDS && 0 <= i < 8 && r.compute_budget == mine_budget(
                draw_decides(reset_due, d),
            ) && instrs_view(r.instructions@) == mine_instructions(
                signer@,
                ore_bus_address(i),
                digest@,
                nonce,
                draw_decides(reset_due, d),
            ));
        } else {
            let i = taken[0] as int;
            assert(draw_decides(reset_due, 1) == false);
            assert(1 < RESET_ODDS && 0 <= i < 8 && r.compute_budget == mine_budget(
                draw_decides(reset_due, 1),
            ) && instrs_view(r.instructions@) == mine_instructions(
                signer@,
                ore_bus_address(i),
                digest@,
                nonce,
                draw_decides(reset_due, 1),
            ));
        }
    }
    r
}

/// The reset rule for a draw: a due reset goes along when the draw is 0.
pub open spec fn draw_decides(reset_due: bool, draw: nat) -> bool {
    reset_due && draw == 0
}

} // verus!
