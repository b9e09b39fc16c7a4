use ore_miner::instr::AccountRef;
use ore_miner::jito::{bundle_signature, build_bribe_ix, pick_jito_recipient, read_jito_reply, with_tip, BundleError, JitoReply, JitoResponse, JITO_TIP_ACCOUNTS};
use std::str::FromStr;
use solana_program::pubkey::Pubkey;

#[test]
fn bribe_is_a_system_transfer() {
    let from = Pubkey::new_unique();
    let to = Pubkey::new_unique();
    let ix = build_bribe_ix(from.to_bytes(), to.to_bytes(), 12_345);
    let expected = solana_program::system_instruction::transfer(&from, &to, 12_345);
    assert_eq!(ix.program_id, expected.program_id.to_bytes());
    assert_eq!(ix.data, expected.data);
    assert_eq!(
        ix.accounts,
        vec![
            AccountRef { pubkey: from.to_bytes(), is_signer: true, is_writable: true },
            AccountRef { pubkey: to.to_bytes(), is_signer: false, is_writable: true },
        ]
    );
}

#[test]
fn tip_goes_last() {
    let from = Pubkey::new_unique();
    let to = Pubkey::new_unique();
    let first = build_bribe_ix(from.to_bytes(), from.to_bytes(), 1);
    let all = with_tip(vec![first], from.to_bytes(), to.to_bytes(), 2);
    assert_eq!(all.len(), 2);
    assert_eq!(all[0].accounts[1].pubkey, from.to_bytes());
    assert_eq!(all[1].accounts[1].pubkey, to.to_bytes());
    let none = with_tip(vec![], from.to_bytes(), to.to_bytes(), 2);
    assert_eq!(none.len(), 1);
}

#[test]
fn bundle_signature_is_first_of_first() {
    let a = [1u8; 64];
    let b = [2u8; 64];
    assert_eq!(bundle_signature(&vec![vec![a, b], vec![b]]), Ok(a));
    assert_eq!(bundle_signature(&vec![]), Err(BundleError::EmptyBundle));
    assert_eq!(bundle_signature(&vec![vec![], vec![a]]), Err(BundleError::EmptyTransaction));
}

#[test]
fn jito_replies() {
    assert!(matches!(read_jito_reply(false, "{\"result\":\"x\"}"), JitoReply::Rejected));
    assert!(matches!(read_jito_reply(true, "not json"), JitoReply::Unparsable));
    assert!(matches!(read_jito_reply(true, "{\"error\":1}"), JitoReply::MissingResult));
    assert!(matches!(read_jito_reply(true, "{\"result\":5}"), JitoReply::MissingResult));
    match read_jito_reply(true, "{\"jsonrpc\":\"2.0\",\"result\":\"bundle-id\",\"id\":1}") {
        JitoReply::Accepted(s) => assert_eq!(s, "bundle-id"),
        _ => panic!("expected the result"),
    }
}

#[test]
fn jito_response_holds_result() {
    let r = JitoResponse { result: 3u32 };
    assert_eq!(r.result, 3);
}

#[test]
fn bribe_data_is_bincode_transfer() {
    let ix = build_bribe_ix([1u8; 32], [2u8; 32], 0x0102_0304_0506_0708);
    assert_eq!(ix.program_id, [0u8; 32]);
    assert_eq!(ix.data, vec![2, 0, 0, 0, 8, 7, 6, 5, 4, 3, 2, 1]);
}

#[test]
fn tip_recipient_is_a_jito_tip_account() {
    assert_eq!(
        JITO_TIP_ACCOUNTS[0],
        Pubkey::from_str("96gYZGLnJYVFmbjzopPSU6QiEV5fGqZNyN9nmNhvrZU5").unwrap().to_bytes()
    );
    assert_eq!(
        JITO_TIP_ACCOUNTS[7],
        Pubkey::from_str("3AVi9Tg9Uo68tJfuvoKvqKNWKkC5wPdSSdeBnizKZ6jT").unwrap().to_bytes()
    );
    for _ in 0..40 {
        assert!(JITO_TIP_ACCOUNTS.contains(&pick_jito_recipient()));
    }
}
