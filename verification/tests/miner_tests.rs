use ore_miner::instr::{AccountRef, Instr};
use ore_miner::message::message_fits;
use ore_miner::miner::{cores_exceeded, plan_bundle_transaction, signed_bundle, Miner, SignerError};
use solana_sdk::signature::Keypair;
use solana_sdk::signer::Signer;

#[test]
fn new_keeps_settings() {
    let m = Miner::new(1_000, Some("abc".to_string()));
    assert_eq!(m.priority_fee, 1_000);
    assert_eq!(m.private_key, Some("abc".to_string()));
}

#[test]
fn signer_without_key() {
    let m = Miner::new(0, None);
    assert!(matches!(m.signer(), Err(SignerError::NoPrivateKey)));
}

#[test]
fn signer_with_bad_key() {
    assert!(matches!(Miner::new(0, Some("0OIl".to_string())).signer(), Err(SignerError::InvalidKey)));
    assert!(matches!(Miner::new(0, Some("abc".to_string())).signer(), Err(SignerError::InvalidKey)));
}

#[test]
fn signer_decodes_base58_keypair() {
    let kp = Keypair::new();
    let m = Miner::new(0, Some(kp.to_base58_string()));
    let s = m.signer().ok().unwrap();
    assert_eq!(s.address(), kp.pubkey().to_bytes());
}

#[test]
fn signer_round_trips_through_base58() {
    let kp = Keypair::new();
    let s = Miner::new(0, Some(kp.to_base58_string())).signer().ok().unwrap();
    let m = Miner::with_signer(77, &s);
    assert_eq!(m.priority_fee, 77);
    assert_eq!(m.private_key, Some(kp.to_base58_string()));
    let again = m.signer().ok().unwrap();
    assert_eq!(again.address(), kp.pubkey().to_bytes());
}

#[test]
fn bundle_is_one_signed_transaction() {
    let kp = Keypair::new();
    let s = Miner::new(0, Some(kp.to_base58_string())).signer().ok().unwrap();
    let tip_to = [9u8; 32];
    let blockhash = [4u8; 32];
    let plan = plan_bundle_transaction(vec![], &s, tip_to, 1_000, blockhash);
    assert_eq!(plan.payer, kp.pubkey().to_bytes());
    assert_eq!(plan.recent_blockhash, blockhash);
    assert_eq!(plan.instructions.len(), 1);
    assert!(message_fits(plan.payer, &plan.instructions));
    let bundle = signed_bundle(&plan, &s).unwrap();
    assert_eq!(bundle.len(), 1);
    let tx = bundle[0].transaction();
    assert_eq!(*bundle[0].message(), tx.message_data());
    assert_eq!(tx.message.account_keys[0], kp.pubkey());
    assert_eq!(tx.message.recent_blockhash.to_bytes(), blockhash);
    assert_eq!(tx.signatures.len(), 1);
    assert!(tx.verify().is_ok());
    let expected = solana_sdk::signature::Signer::sign_message(&kp, &tx.message_data());
    assert_eq!(tx.signatures[0], expected);
    // the same plan signs to the same transaction
    let again = signed_bundle(&plan, &s).unwrap();
    assert_eq!(*again[0].transaction(), *tx);
}

#[test]
fn keypair_bytes_round_trip() {
    let kp = Keypair::new();
    let s = Miner::new(0, Some(kp.to_base58_string())).signer().ok().unwrap();
    assert_eq!(s.keypair_bytes(), kp.to_bytes());
    let back = Miner::with_signer(1, &s).signer().ok().unwrap();
    assert_eq!(back.keypair_bytes(), kp.to_bytes());
    assert_eq!(back.address(), kp.pubkey().to_bytes());
}

#[test]
fn message_key_limits() {
    let payer = [1u8; 32];
    // 300 references to one signer account are one signer
    let same: Vec<AccountRef> = (0..300).map(|_| AccountRef { pubkey: [2u8; 32], is_signer: true, is_writable: false }).collect();
    let ix = Instr { program_id: [3u8; 32], accounts: same, data: vec![] };
    assert!(message_fits(payer, &vec![ix]));
    // 255 distinct signers and the payer are 256 signers
    let many: Vec<AccountRef> = (0..255u32)
        .map(|i| {
            let mut k = [0u8; 32];
            k[0] = (i % 256) as u8;
            k[1] = 7;
            AccountRef { pubkey: k, is_signer: true, is_writable: true }
        })
        .collect();
    let ix = Instr { program_id: [3u8; 32], accounts: many.clone(), data: vec![] };
    assert!(!message_fits(payer, &vec![ix]));
    let ix = Instr { program_id: [3u8; 32], accounts: many[..254].to_vec(), data: vec![] };
    assert!(message_fits(payer, &vec![ix]));
    // 256 read-only programs are too many read-only non-signers
    let ixs: Vec<Instr> = (0..256u32)
        .map(|i| {
            let mut k = [9u8; 32];
            k[0] = (i % 256) as u8;
            Instr { program_id: k, accounts: vec![], data: vec![] }
        })
        .collect();
    assert!(!message_fits(payer, &ixs));
    assert!(message_fits(payer, &ixs[..255].to_vec()));
}

#[test]
fn bundle_signing_fails_without_required_signer() {
    let kp = Keypair::new();
    let s = Miner::new(0, Some(kp.to_base58_string())).signer().ok().unwrap();
    let other = ore_miner::jito::build_bribe_ix([5u8; 32], [6u8; 32], 1);
    let ixs: Vec<Instr> = vec![other];
    let plan = plan_bundle_transaction(ixs, &s, [9u8; 32], 1, [4u8; 32]);
    assert!(signed_bundle(&plan, &s).is_none());
}

#[test]
fn core_check() {
    assert_eq!(cores_exceeded(8, 4), Some(4));
    assert_eq!(cores_exceeded(4, 4), None);
    assert_eq!(cores_exceeded(0, 4), None);
    let m = Miner::new(0, None);
    assert_eq!(m.check_num_cores(0), None);
    assert_eq!(m.check_num_cores(u64::MAX), Some(num_cpus::get() as u64));
}
