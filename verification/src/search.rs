//! Searching the nonce space for the most difficult drillx hash: how the
//! space is split among worker threads, what one worker keeps while it hashes
//! until its time is up, and which of the workers' results wins.

use drillx::equix::SolverMemory;
use crate::clock::Stopwatch;
use vstd::prelude::*;
use vstd::std_specs::bits::u8_leading_zeros;

verus! {

broadcast use vstd::std_specs::bits::axiom_u8_leading_zeros;

#[verifier::external_type_specification]
#[verifier::external_body]
pub struct ExSolverMemory(SolverMemory);

/// A drillx hash: the equihash digest and the hash of digest and nonce.
#[derive(Clone, Copy, Debug, PartialEq, Eq)]
pub struct HashBytes {
    pub d: [u8; 16],
    pub h: [u8; 32],
}

/// The all-zero hash, which the search starts from.
pub open spec fn zero_hash() -> HashBytes {
    HashBytes { d: [0u8; 16usize], h: [0u8; 32usize] }
}

/// The best hash seen so far, with its nonce and difficulty.
#[derive(Clone, Copy, Debug, PartialEq, Eq)]
pub struct Best {
    pub nonce: u64,
    pub difficulty: u32,
    pub hash: HashBytes,
}

/// What `drillx::hash_with_memory(memory, challenge, nonce.to_le_bytes())`
/// returns: `None` where it returns an error.
pub uninterp spec fn drillx_hash_of(challenge: Seq<u8>, nonce: u64) -> Option<HashBytes>;

/// The number of leading zero bits of a byte string, from its first byte on.
pub open spec fn leading_zero_bits(h: Seq<u8>) -> nat
    decreases h.len(),
{
    if h.len() == 0 {
        0
    } else if h[0] == 0 {
        8 + leading_zero_bits(h.drop_first())
    } else {
        u8_leading_zeros(h[0]) as nat
    }
}

proof fn lemma_leading_zero_bits_bound(h: Seq<u8>)
    ensures
        leading_zero_bits(h) <= 8 * h.len(),
    decreases h.len(),
{
    if h.len() > 0 {
        lemma_leading_zero_bits_bound(h.drop_first());
    }
}

/// The difficulty of a hash: the number of leading zero bits of its 32 bytes
/// (`drillx::Hash::difficulty`).
pub fn difficulty(h: &[u8; 32]) -> (r: u32)
    ensures
        r == leading_zero_bits(h@),
{
    let mut count: u32 = 0;
    let mut i: usize = 0;
    assert(h@.subrange(0, 32) == h@);
    while i < 32
        invariant
            i <= 32,
            h@.len() == 32,
            count == 8 * i,
            leading_zero_bits(h@) == count + leading_zero_bits(h@.subrange(i as int, 32)),
        decreases 32 - i,
    {
        let ghost rest = h@.subrange(i as int, 32);
        assert(rest[0] == h@[i as int]);
        assert(rest.drop_first() == h@.subrange(i + 1, 32));
        let lz = h[i].leading_zeros();
        if lz < 8 {
            return count + lz;
        }
        count = count + 8;
        i = i + 1;
    }
    assert(h@.subrange(32, 32).len() == 0);
    count
}

/// The first nonce of worker `i` of `threads`: `u64::MAX / threads` times
/// `i`, saturating at `u64::MAX`.
pub open spec fn start_nonce(threads: u64, i: u64) -> int {
    let step = u64::MAX / threads;
    if step * i > u64::MAX {
        u64::MAX as int
    } else {
        step * i
    }
}

/// The first nonce that worker `i` of `threads` hashes.
pub fn thread_start_nonce(threads: u64, i: u64) -> (r: u64)
    requires
        threads > 0,
    ensures
        r == start_nonce(threads, i),
{
    let step = u64::MAX / threads;
    match step.checked_mul(i) {
        Some(v) => v,
        None => u64::MAX,
    }
}

/// Workers start `u64::MAX / threads` nonces apart, in order of their number,
/// with no saturation: the stretches they would cover before reaching the next
/// worker's start do not overlap and lie within the nonce space.
pub proof fn lemma_thread_starts_spaced(threads: u64, i: u64)
    requires
        threads > 0,
        i < threads,
    ensures
        start_nonce(threads, i) == (u64::MAX / threads) * i,
        start_nonce(threads, i) + u64::MAX / threads <= u64::MAX,
        i + 1 < threads ==> start_nonce(threads, (i + 1) as u64) == start_nonce(threads, i)
            + u64::MAX / threads,
{
    let step = u64::MAX / threads;
    assert(step * threads <= u64::MAX) by (nonlinear_arith)
        requires
            step == u64::MAX / threads,
            threads > 0,
    ;
    assert(step * i + step <= step * threads) by (nonlinear_arith)
        requires
            i < threads,
            step >= 0,
    ;
    assert(step * (i + 1) == step * i + step) by (nonlinear_arith);
}

/// Keeps the earlier best unless `outcome` is a hash of strictly greater difficulty.
pub open spec fn observe(best: Best, nonce: u64, outcome: Option<HashBytes>) -> Best {
    match outcome {
        Some(hx) => if leading_zero_bits(hx.h@) > best.difficulty {
            Best { nonce, difficulty: leading_zero_bits(hx.h@) as u32, hash: hx }
        } else {
            best
        },
        None => best,
    }
}

/// Where a worker that starts at `start` stands before it hashes anything.
pub open spec fn search_start(start: u64) -> Best {
    Best { nonce: start, difficulty: 0, hash: zero_hash() }
}

/// The best of the first `count` nonces from `start` on, hashed in order.
pub open spec fn search_from(challenge: Seq<u8>, start: u64, count: nat) -> Best
    decreases count,
{
    if count == 0 {
        search_start(start)
    } else {
        observe(
            search_from(challenge, start, (count - 1) as nat),
            (start + count - 1) as u64,
            drillx_hash_of(challenge, (start + count - 1) as u64),
        )
    }
}

/// Calls `drillx::hash_with_memory` on the little-endian bytes of `nonce`,
/// using `memory` as scratch space. The hash depends on `challenge` and
/// `nonce` alone; nothing is stated of what is left in `memory`.
#[verifier::external_body]
fn drillx_hash(memory: &mut SolverMemory, challenge: &[u8; 32], nonce: u64) -> (r: Option<
    HashBytes,
>)
    ensures
        r == drillx_hash_of(challenge@, nonce),
{
    match drillx::hash_with_memory(memory, challenge, &nonce.to_le_bytes()) {
        Ok(hx) => Some(HashBytes { d: hx.d, h: hx.h }),
        Err(_) => None,
    }
}

/// Calls `equix::SolverMemory::new`, the scratch space of a worker.
#[verifier::external_body]
fn new_solver_memory() -> SolverMemory {
    SolverMemory::new()
}

/// Whether a worker hashes another nonce, given the whole seconds elapsed
/// since it started: only while fewer than `cutoff_time` have passed.
pub fn keep_hashing(elapsed: u64, cutoff_time: u64) -> (r: bool)
    ensures
        r == (elapsed < cutoff_time),
{
    elapsed < cutoff_time
}

/// A result that names its hash truly: of positive difficulty, it is the
/// drillx hash of its nonce with that many leading zero bits.
pub open spec fn sound_best(challenge: Seq<u8>, b: Best) -> bool {
    b.difficulty > 0 ==> {
        &&& drillx_hash_of(challenge, b.nonce) == Some(b.hash)
        &&& leading_zero_bits(b.hash.h@) == b.difficulty
    }
}

/// Takes the outcome of hashing `nonce` into account: a hash of strictly
/// greater difficulty than the best so far replaces it.
pub fn observe_hash(best: Best, nonce: u64, outcome: Option<HashBytes>) -> (r: Best)
    ensures
        r == observe(best, nonce, outcome),
{
    match outcome {
        Some(hx) => {
            let d = difficulty(&hx.h);
            if d > best.difficulty {
                Best { nonce, difficulty: d, hash: hx }
            } else {
                best
            }
        },
        None => best,
    }
}

/// One worker: hashes the nonces from `start` on, in order, reading the
/// clock before each one and stopping once `cutoff_time` seconds have passed
/// since it started (see [`keep_hashing`]) or the nonce space ends, and keeps
/// the first hash of the greatest difficulty seen. How many nonces it reaches
/// depends on the clock; whatever that number, the result is the best of
/// exactly those nonces. With a cutoff of 0 it hashes nothing.
pub fn search_nonces(challenge: &[u8; 32], start: u64, cutoff_time: u64) -> (r: Best)
    ensures
        exists|count: nat|
            #![trigger search_from(challenge@, start, count)]
            start + count <= 0x1_0000_0000_0000_0000int && r == search_from(
                challenge@,
                start,
                count,
            ),
        cutoff_time == 0 ==> r == search_start(start),
        sound_best(challenge@, r),
        r.difficulty == 0 ==> r == search_start(start),
{
    let mut memory = new_solver_memory();
    let mut clock = Stopwatch::start();
    search_nonces_timed(&mut memory, &mut clock, challenge, start, cutoff_time)
}

/// The number of nonces a worker hashes, by the readings of its clock: it
/// reads the clock before each nonce and hashes while the reading is below
/// the cutoff, so the count is the number of readings below the cutoff, and
/// the last reading, if there is one more, is at least the cutoff. The one
/// other way to stop is the end of the nonce space.
pub open spec fn stopped_by_clock(readings: Seq<u64>, cutoff_time: u64, start: u64, count: nat) -> bool {
    &&& forall|k: int| 0 <= k < count ==> #[trigger] readings[k] < cutoff_time
    &&& ((readings.len() == count + 1 && readings[count as int] >= cutoff_time) || (readings.len()
        == count && start + count == 0x1_0000_0000_0000_0000int))
}

/// The readings alone fix how many nonces a worker hashes: two counts that
/// both fit the same readings are equal, whatever the hashes found.
pub proof fn lemma_clock_fixes_count(
    readings: Seq<u64>,
    cutoff_time: u64,
    start: u64,
    c1: nat,
    c2: nat,
)
    requires
        stopped_by_clock(readings, cutoff_time, start, c1),
        stopped_by_clock(readings, cutoff_time, start, c2),
    ensures
        c1 == c2,
{
    if c1 < c2 {
        assert(readings[c1 as int] < cutoff_time);
    } else if c2 < c1 {
        assert(readings[c2 as int] < cutoff_time);
    }
}

/// One worker, timed by `clock`; see [`search_nonces`]. Exactly the
/// readings the worker takes say how many nonces it hashes: all those below
/// the cutoff, one per nonce, then one at or past the cutoff (or the nonce
/// space ends). What it found plays no part in when it stops.
pub fn search_nonces_timed(
    memory: &mut SolverMemory,
    clock: &mut Stopwatch,
    challenge: &[u8; 32],
    start: u64,
    cutoff_time: u64,
) -> (r: Best)
    ensures
        final(clock).readings().len() >= old(clock).readings().len(),
        final(clock).readings().take(old(clock).readings().len() as int) == old(clock).readings(),
        exists|count: nat|
            #![trigger search_from(challenge@, start, count)]
            start + count <= 0x1_0000_0000_0000_0000int && r == search_from(
                challenge@,
                start,
                count,
            ) && stopped_by_clock(
                final(clock).readings().skip(old(clock).readings().len() as int),
                cutoff_time,
                start,
                count,
            ),
        cutoff_time == 0 ==> r == search_start(start),
        sound_best(challenge@, r),
        r.difficulty == 0 ==> r == search_start(start),
{
    let ghost before = clock.readings();
    let mut nonce: u64 = start;
    let mut best = Best { nonce: start, difficulty: 0, hash: HashBytes { d: [0u8; 16], h: [0u8; 32] } };
    assert(best == search_start(start));
    loop
        invariant_except_break
            start <= nonce,
            best == search_from(challenge@, start, (nonce - start) as nat),
            cutoff_time == 0 ==> nonce == start,
            clock.readings().len() == before.len() + (nonce - start),
            clock.readings().take(before.len() as int) == before,
            forall|k: int|
                before.len() <= k < clock.readings().len() ==> #[trigger] clock.readings()[k]
                    < cutoff_time,
        ensures
            clock.readings().len() >= before.len(),
            clock.readings().take(before.len() as int) == before,
            exists|count: nat|
                #![trigger search_from(challenge@, start, count)]
                start + count <= 0x1_0000_0000_0000_0000int && best == search_from(
                    challenge@,
                    start,
                    count,
                ) && stopped_by_clock(
                    clock.readings().skip(before.len() as int),
                    cutoff_time,
                    start,
                    count,
                ),
            cutoff_time == 0 ==> best == search_start(start),
        decreases u64::MAX - nonce,
    {
        let ghost prev = clock.readings();
        let reading = clock.read();
        proof {
            assert(clock.readings().take(before.len() as int) =~= before);
        }
        if !keep_hashing(reading, cutoff_time) {
            proof {
                let count = (nonce - start) as nat;
                let h = clock.readings().skip(before.len() as int);
                assert(h.len() == count + 1);
                assert(h[count as int] == reading);
                assert forall|k: int| 0 <= k < count implies #[trigger] h[k] < cutoff_time by {
                    assert(h[k] == clock.readings()[before.len() + k]);
                    assert(clock.readings()[before.len() + k] == prev[before.len() + k]);
                }
                assert(stopped_by_clock(h, cutoff_time, start, count));
            }
            break;
        }
        let outcome = drillx_hash(memory, challenge, nonce);
        best = observe_hash(best, nonce, outcome);
        assert(best == search_from(challenge@, start, (nonce - start + 1) as nat));
        if nonce == u64::MAX {
            proof {
                let count = (nonce - start + 1) as nat;
                let h = clock.readings().skip(before.len() as int);
                assert(h.len() == count);
                assert forall|k: int| 0 <= k < count implies #[trigger] h[k] < cutoff_time by {
                    assert(h[k] == clock.readings()[before.len() + k]);
                    if before.len() + k < prev.len() {
                        assert(clock.readings()[before.len() + k] == prev[before.len() + k]);
                    }
                }
                assert(stopped_by_clock(h, cutoff_time, start, count));
            }
            break;
        }
        nonce = nonce + 1;
    }
    proof {
        let count = choose|count: nat|
            #![trigger search_from(challenge@, start, count)]
            start + count <= 0x1_0000_0000_0000_0000int && best == search_from(
                challenge@,
                start,
                count,
            ) && stopped_by_clock(
                clock.readings().skip(before.len() as int),
                cutoff_time,
                start,
                count,
            );
        lemma_search_sound(challenge@, start, count);
    }
    best
}

/// Every worker's result names its hash truly, and one of difficulty 0 is
/// where it started: its start nonce and the all-zero hash.
pub proof fn lemma_search_sound(challenge: Seq<u8>, start: u64, count: nat)
    requires
        start + count <= 0x1_0000_0000_0000_0000int,
    ensures
        sound_best(challenge, search_from(challenge, start, count)),
        search_from(challenge, start, count).difficulty == 0 ==> search_from(
            challenge,
            start,
            count,
        ) == search_start(start),
    decreases count,
{
    if count > 0 {
        lemma_search_sound(challenge, start, (count - 1) as nat);
        let outcome = drillx_hash_of(challenge, (start + count - 1) as u64);
        if outcome is Some {
            lemma_leading_zero_bits_bound(outcome->0.h@);
        }
    }
}

/// A worker's result is at least as difficult as every hash it computed, and
/// it names a nonce it reached (or its start, if no hash beat difficulty 0).
pub proof fn lemma_search_dominates(challenge: Seq<u8>, start: u64, count: nat, k: nat)
    requires
        k < count,
        start + count <= 0x1_0000_0000_0000_0000int,
        drillx_hash_of(challenge, (start + k) as u64) is Some,
    ensures
        search_from(challenge, start, count).difficulty >= leading_zero_bits(
            drillx_hash_of(challenge, (start + k) as u64)->0.h@,
        ),
        start <= search_from(challenge, start, count).nonce < start + count,
    decreases count,
{
    lemma_search_monotone(challenge, start, count);
    lemma_search_nonce_in_range(challenge, start, count);
    lemma_leading_zero_bits_bound(drillx_hash_of(challenge, (start + k) as u64)->0.h@);
    if k < count - 1 {
        lemma_search_dominates(challenge, start, (count - 1) as nat, k);
    }
}

proof fn lemma_search_monotone(challenge: Seq<u8>, start: u64, count: nat)
    requires
        count > 0,
    ensures
        search_from(challenge, start, count).difficulty >= search_from(
            challenge,
            start,
            (count - 1) as nat,
        ).difficulty,
{
    let outcome = drillx_hash_of(challenge, (start + count - 1) as u64);
    if outcome is Some {
        lemma_leading_zero_bits_bound(outcome->0.h@);
    }
}

proof fn lemma_search_nonce_in_range(challenge: Seq<u8>, start: u64, count: nat)
    requires
        count > 0,
        start + count <= 0x1_0000_0000_0000_0000int,
    ensures
        start <= search_from(challenge, start, count).nonce < start + count,
    decreases count,
{
    reveal_with_fuel(search_from, 2);
    if count > 1 {
        lemma_search_nonce_in_range(challenge, start, (count - 1) as nat);
    }
}

/// Keeps the earlier best unless `result` is a worker's result of strictly
/// greater difficulty.
pub open spec fn prefer(best: Best, result: Option<Best>) -> Best {
    match result {
        Some(b) => if b.difficulty > best.difficulty {
            b
        } else {
            best
        },
        None => best,
    }
}

/// Nonce 0, difficulty 0 and the all-zero hash: where the merge starts.
pub open spec fn merge_start() -> Best {
    Best { nonce: 0, difficulty: 0, hash: zero_hash() }
}

/// The merge of the workers' results, in order; a worker that failed is `None`.
pub open spec fn best_of(results: Seq<Option<Best>>) -> Best
    decreases results.len(),
{
    if results.len() == 0 {
        merge_start()
    } else {
        prefer(best_of(results.drop_last()), results.last())
    }
}

/// Merges the workers' results: the first result of the greatest difficulty,
/// or nonce 0 with the all-zero hash if none has a difficulty above 0.
pub fn best_of_threads(results: &Vec<Option<Best>>) -> (r: Best)
    ensures
        r == best_of(results@),
        r.difficulty == 0 ==> r == merge_start(),
{
    proof {
        lemma_best_of_zero(results@);
    }
    let mut best = Best { nonce: 0, difficulty: 0, hash: HashBytes { d: [0u8; 16], h: [0u8; 32] } };
    let n = results.len();
    let mut i: usize = 0;
    assert(results@.take(0).len() == 0);
    while i < n
        invariant
            n == results@.len(),
            i <= n,
            best == best_of(results@.take(i as int)),
        decreases n - i,
    {
        assert(results@.take(i + 1).drop_last() == results@.take(i as int));
        assert(results@.take(i + 1).last() == results@[i as int]);
        match results[i] {
            Some(b) => {
                if b.difficulty > best.difficulty {
                    best = b;
                }
            },
            None => {},
        }
        i = i + 1;
    }
    assert(results@.take(n as int) == results@);
    best
}

/// The merged result is at least as difficult as every worker's result.
pub proof fn lemma_best_of_dominates(results: Seq<Option<Best>>, i: int)
    requires
        0 <= i < results.len(),
        results[i] is Some,
    ensures
        best_of(results).difficulty >= results[i]->0.difficulty,
    decreases results.len(),
{
    lemma_best_of_monotone(results);
    if i < results.len() - 1 {
        lemma_best_of_dominates(results.drop_last(), i);
    }
}

/// Across workers: when worker `i` returned the best of the nonces it
/// reached, the merged result is at least as difficult as every hash that
/// worker computed.
pub proof fn lemma_merged_dominates_all_hashes(
    challenge: Seq<u8>,
    results: Seq<Option<Best>>,
    i: int,
    start: u64,
    count: nat,
    k: nat,
)
    requires
        0 <= i < results.len(),
        start + count <= 0x1_0000_0000_0000_0000int,
        results[i] == Some(search_from(challenge, start, count)),
        k < count,
        drillx_hash_of(challenge, (start + k) as u64) is Some,
    ensures
        best_of(results).difficulty >= leading_zero_bits(
            drillx_hash_of(challenge, (start + k) as u64)->0.h@,
        ),
{
    lemma_search_dominates(challenge, start, count, k);
    lemma_best_of_dominates(results, i);
}

/// A merge of difficulty 0 is where the merge starts: nonce 0 and the
/// all-zero hash.
pub proof fn lemma_best_of_zero(results: Seq<Option<Best>>)
    ensures
        best_of(results).difficulty == 0 ==> best_of(results) == merge_start(),
    decreases results.len(),
{
    if results.len() > 0 {
        lemma_best_of_zero(results.drop_last());
    }
}

/// The merge of sound results is sound: of positive difficulty it is the
/// drillx hash of its nonce with that difficulty; of difficulty 0 it is
/// nonce 0 with the all-zero hash.
pub proof fn lemma_merge_sound(challenge: Seq<u8>, results: Seq<Option<Best>>)
    requires
        forall|i: int| 0 <= i < results.len() && #[trigger] results[i] is Some ==> sound_best(
            challenge,
            results[i]->0,
        ),
    ensures
        sound_best(challenge, best_of(results)),
        best_of(results).difficulty == 0 ==> best_of(results) == merge_start(),
{
    lemma_best_of_zero(results);
    if best_of(results).difficulty > 0 {
        lemma_best_of_chosen(results);
        let i = choose|i: int|
            0 <= i < results.len() && results[i] == Some(best_of(results)) && forall|j: int|
                0 <= j < i ==> !(#[trigger] results[j] matches Some(b) && b.difficulty
                    >= best_of(results).difficulty);
        assert(results[i] is Some);
    }
}

/// The result of a search over workers: when every worker returned the best
/// of the nonces it reached, the merge is the drillx hash of its nonce with
/// its difficulty, or nonce 0 with the all-zero hash at difficulty 0.
pub proof fn lemma_workers_merge_sound(
    challenge: Seq<u8>,
    results: Seq<Option<Best>>,
    starts: Seq<u64>,
    counts: Seq<nat>,
)
    requires
        starts.len() == results.len(),
        counts.len() == results.len(),
        forall|i: int|
            0 <= i < results.len() ==> starts[i] + counts[i] <= 0x1_0000_0000_0000_0000int,
        forall|i: int|
            0 <= i < results.len() && #[trigger] results[i] is Some ==> results[i]->0
                == search_from(challenge, starts[i], counts[i]),
    ensures
        sound_best(challenge, best_of(results)),
        best_of(results).difficulty == 0 ==> best_of(results) == merge_start(),
{
    assert forall|i: int| 0 <= i < results.len() && #[trigger] results[i] is Some implies sound_best(
        challenge,
        results[i]->0,
    ) by {
        lemma_search_sound(challenge, starts[i], counts[i]);
    }
    lemma_merge_sound(challenge, results);
}

proof fn lemma_best_of_monotone(results: Seq<Option<Best>>)
    requires
        results.len() > 0,
    ensures
        best_of(results).difficulty >= best_of(results.drop_last()).difficulty,
{
}

/// A merged result of difficulty above 0 is one of the workers' results, and
/// no earlier worker reached that difficulty.
pub proof fn lemma_best_of_chosen(results: Seq<Option<Best>>)
    requires
        best_of(results).difficulty > 0,
    ensures
        exists|i: int|
            0 <= i < results.len() && results[i] == Some(best_of(results)) && forall|j: int|
                0 <= j < i ==> !(#[trigger] results[j] matches Some(b) && b.difficulty
                    >= best_of(results).difficulty),
    decreases results.len(),
{
    let prev = results.drop_last();
    let r = best_of(results);
    if best_of(prev) == r && prev.len() > 0 && best_of(prev).difficulty > 0 {
        lemma_best_of_chosen(prev);
        let i = choose|i: int|
            0 <= i < prev.len() && prev[i] == Some(best_of(prev)) && forall|j: int|
                0 <= j < i ==> !(#[trigger] prev[j] matches Some(b) && b.difficulty
                    >= best_of(prev).difficulty);
        assert(results[i] == prev[i]);
        assert forall|j: int| 0 <= j < i implies !(#[trigger] results[j] matches Some(b)
            && b.difficulty >= r.difficulty) by {
            assert(results[j] == prev[j]);
        }
    } else {
        let i = results.len() - 1;
        assert(r == prefer(best_of(prev), results.last()));
        assert(r != best_of(prev));
        assert(r.difficulty > best_of(prev).difficulty);
        assert(results[i] == Some(r));
        assert forall|j: int| 0 <= j < i implies !(#[trigger] results[j] matches Some(b)
            && b.difficulty >= r.difficulty) by {
            assert(results[j] == prev[j]);
            if results[j] is Some {
                lemma_best_of_dominates(prev, j);
            }
        }
    }
}

} // verus!
