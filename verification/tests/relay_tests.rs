use ore_miner::relay::{best_hash_payload, on_relay_message, proof_message, RelayMessage, RelayStep};

#[test]
fn proof_message_is_tagged_json_array() {
    assert_eq!(proof_message(&[1, 2, 255]), "proof:[1,2,255]");
    assert_eq!(proof_message(&[]), "proof:[]");
    assert_eq!(proof_message(&[0]), "proof:[0]");
}

#[test]
fn proof_message_matches_serde_json() {
    let bytes: Vec<u8> = (0u8..=200).step_by(7).collect();
    let expected = format!("proof:{}", serde_json::to_string(&bytes[..]).unwrap());
    assert_eq!(proof_message(&bytes), expected);
}

#[test]
fn best_hash_prefix_is_stripped() {
    assert_eq!(best_hash_payload("best_hash:{\"nonce\":1}"), Some("{\"nonce\":1}".to_string()));
    assert_eq!(best_hash_payload("best_hash:"), Some(String::new()));
    assert_eq!(best_hash_payload("best_hash"), None);
    assert_eq!(best_hash_payload("hello best_hash:x"), None);
    assert_eq!(best_hash_payload(""), None);
}

#[test]
fn relay_replies_are_read_in_turn() {
    assert!(matches!(on_relay_message(&RelayMessage::Text("progress 10%".to_string())), RelayStep::Continue));
    assert!(matches!(on_relay_message(&RelayMessage::Other), RelayStep::Continue));
    assert!(matches!(on_relay_message(&RelayMessage::Unreadable), RelayStep::Continue));
    assert!(matches!(on_relay_message(&RelayMessage::Failed), RelayStep::Stop));
    match on_relay_message(&RelayMessage::Text("best_hash:abc".to_string())) {
        RelayStep::Found(s) => assert_eq!(s, "abc"),
        _ => panic!("expected the solution"),
    }
}

#[test]
fn tagged_reply_round_trips() {
    let solution = "{\"nonce\":42,\"difficulty\":20}";
    let reply = format!("best_hash:{}", solution);
    match on_relay_message(&RelayMessage::Text(reply)) {
        RelayStep::Found(s) => assert_eq!(s, solution),
        _ => panic!("expected the solution"),
    }
}

#[test]
fn solution_parts_are_digest_and_nonce() {
    use_solution();
}

fn use_solution() {
    let s = ore_miner::relay::ClientSolution {
        nonce: 99,
        difficulty: 12,
        hash: ore_miner::relay::HashWrapper { h: vec![1, 2], d: [7u8; 16] },
    };
    assert_eq!(ore_miner::relay::solution_parts(&s), ([7u8; 16], 99));
}
