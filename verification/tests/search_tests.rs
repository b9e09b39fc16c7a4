use ore_miner::search::{
    best_of_threads, difficulty, keep_hashing, observe_hash, search_nonces, thread_start_nonce,
    Best, HashBytes,
};

fn zero() -> HashBytes {
    HashBytes { d: [0u8; 16], h: [0u8; 32] }
}

fn best(nonce: u64, difficulty: u32, tag: u8) -> Best {
    Best { nonce, difficulty, hash: HashBytes { d: [tag; 16], h: [tag; 32] } }
}

#[test]
fn difficulty_counts_leading_zero_bits() {
    assert_eq!(difficulty(&[0u8; 32]), 256);
    assert_eq!(difficulty(&[0xffu8; 32]), 0);
    let mut h = [0xffu8; 32];
    h[0] = 0x0f;
    assert_eq!(difficulty(&h), 4);
    h[0] = 0;
    h[1] = 1;
    assert_eq!(difficulty(&h), 15);
    h[1] = 0;
    h[2] = 0x80;
    assert_eq!(difficulty(&h), 16);
}

#[test]
fn difficulty_agrees_with_drillx() {
    let mut h = [0u8; 32];
    for i in 0..32 {
        h[i] = (i as u8).wrapping_mul(37);
        let hx = drillx::Hash { d: [0u8; 16], h };
        assert_eq!(difficulty(&h), hx.difficulty());
    }
}

#[test]
fn thread_starts_are_evenly_spaced() {
    let step = u64::MAX / 4;
    assert_eq!(thread_start_nonce(4, 0), 0);
    assert_eq!(thread_start_nonce(4, 1), step);
    assert_eq!(thread_start_nonce(4, 3), 3 * step);
    assert_eq!(thread_start_nonce(4, 1), 4611686018427387903);
    assert_eq!(thread_start_nonce(1, 0), 0);
}

#[test]
fn thread_start_saturates() {
    assert_eq!(thread_start_nonce(1, 2), u64::MAX);
    assert_eq!(thread_start_nonce(3, 4), u64::MAX);
}

#[test]
fn merge_keeps_first_most_difficult() {
    let results = vec![None, Some(best(10, 3, 1)), Some(best(20, 5, 2)), Some(best(30, 5, 3)), Some(best(40, 4, 4))];
    assert_eq!(best_of_threads(&results), best(20, 5, 2));
}

#[test]
fn merge_of_nothing_is_zero() {
    let empty: Vec<Option<Best>> = vec![];
    assert_eq!(best_of_threads(&empty), Best { nonce: 0, difficulty: 0, hash: zero() });
    let failed = vec![None, None];
    assert_eq!(best_of_threads(&failed), Best { nonce: 0, difficulty: 0, hash: zero() });
    // a worker of difficulty 0 does not beat the start
    let flat = vec![Some(best(7, 0, 9))];
    assert_eq!(best_of_threads(&flat), Best { nonce: 0, difficulty: 0, hash: zero() });
}

#[test]
fn merge_dominates_every_result() {
    let results = vec![Some(best(1, 2, 1)), Some(best(2, 9, 2)), None, Some(best(3, 7, 3))];
    let m = best_of_threads(&results);
    for r in results.iter().flatten() {
        assert!(m.difficulty >= r.difficulty);
    }
    assert!(results.contains(&Some(m)));
}

#[test]
fn search_with_no_time_hashes_nothing() {
    let r = search_nonces(&[7u8; 32], 12345, 0);
    assert_eq!(r, Best { nonce: 12345, difficulty: 0, hash: zero() });
}

#[test]
fn search_result_is_a_real_drillx_hash() {
    let challenge = [3u8; 32];
    let start = 1_000u64;
    let r = search_nonces(&challenge, start, 1);
    assert!(r.nonce >= start);
    if r.difficulty > 0 {
        let hx = drillx::hash(&challenge, &r.nonce.to_le_bytes()).unwrap();
        assert_eq!(r.hash.h, hx.h);
        assert_eq!(r.hash.d, hx.d);
        assert_eq!(r.difficulty, hx.difficulty());
        assert_eq!(difficulty(&r.hash.h), r.difficulty);
    } else {
        assert_eq!(r, Best { nonce: start, difficulty: 0, hash: zero() });
    }
}

#[test]
fn observing_keeps_first_strictly_better_hash() {
    let start = Best { nonce: 5, difficulty: 0, hash: zero() };
    let mut h = [0xffu8; 32];
    h[0] = 0x0f; // difficulty 4
    let four = HashBytes { d: [1u8; 16], h };
    let b = observe_hash(start, 6, Some(four));
    assert_eq!(b, Best { nonce: 6, difficulty: 4, hash: four });
    // an equal difficulty does not replace it
    let other = HashBytes { d: [2u8; 16], h };
    assert_eq!(observe_hash(b, 7, Some(other)), b);
    // a failed hash does not change it
    assert_eq!(observe_hash(b, 8, None), b);
    // a hash of difficulty 0 does not beat the start
    assert_eq!(observe_hash(start, 9, Some(HashBytes { d: [3u8; 16], h: [0xffu8; 32] })), start);
}

#[test]
fn worker_hashes_only_before_cutoff() {
    assert!(keep_hashing(0, 1));
    assert!(keep_hashing(4, 5));
    assert!(!keep_hashing(5, 5));
    assert!(!keep_hashing(9, 5));
    assert!(!keep_hashing(0, 0));
}
