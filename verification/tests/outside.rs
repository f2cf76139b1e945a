use eth_call_engine::{
    init_db_plan, Address, InitDbAction, ReplayTx, StateSnapshot, VersionFileCheck,
};

fn addr(n: u8) -> Address {
    let mut bytes = [0u8; 20];
    bytes[19] = n;
    Address { bytes }
}

#[test]
fn recover_signer_roundtrip() {
    let sk = ethers_core::k256::ecdsa::SigningKey::from_slice(&[0x11u8; 32]).unwrap();
    let expected = ethers_core::utils::secret_key_to_address(&sk);
    let hash = [0x22u8; 32];
    let (sig, recid) = sk.sign_prehash_recoverable(&hash).unwrap();
    let bytes = sig.to_bytes();
    let mut sig_r = [0u8; 32];
    let mut sig_s = [0u8; 32];
    sig_r.copy_from_slice(&bytes[..32]);
    sig_s.copy_from_slice(&bytes[32..]);
    let tx = ReplayTx {
        sig_r,
        sig_s,
        sig_v: 27 + recid.to_byte() as u64,
        sig_hash: hash,
        to: Some(addr(9)),
        value: 0,
        input: Vec::new(),
        gas_limit: 21_000,
        gas_price: 0,
    };
    let recovered = eth_call_engine::bundle::recover_replay_sender(&tx).unwrap();
    assert_eq!(recovered.bytes, expected.0);
}

#[test]
fn recover_signer_rejects_garbage() {
    let tx = ReplayTx {
        sig_r: [0u8; 32],
        sig_s: [0u8; 32],
        sig_v: 27,
        sig_hash: [0x42u8; 32],
        to: None,
        value: 0,
        input: Vec::new(),
        gas_limit: 21_000,
        gas_price: 0,
    };
    assert!(eth_call_engine::bundle::recover_replay_sender(&tx).is_none());
}

#[test]
fn predicted_contract_address_differs_from_sender() {
    let alice = addr(1);
    let snapshot = StateSnapshot { accounts: Vec::new() };
    let predicted = eth_call_engine::access::predict_create_address(&snapshot, &alice);
    assert_ne!(predicted.bytes, alice.bytes);
    // a different sender nonce gives a different address
    let with_nonce = StateSnapshot {
        accounts: vec![(
            alice,
            eth_call_engine::Account {
                balance: 0,
                nonce: 1,
                code: Vec::new(),
                storage: Vec::new(),
            },
        )],
    };
    let predicted_at_one = eth_call_engine::access::predict_create_address(&with_nonce, &alice);
    assert_ne!(predicted.bytes, predicted_at_one.bytes);
    // the rule matches the standard derivation
    let reference = ethers_core::utils::get_contract_address(
        ethers_core::types::H160(alice.bytes),
        ethers_core::types::U256::from(0u64),
    );
    assert_eq!(predicted.bytes, reference.0);
}

#[test]
fn init_db_plan_covers_every_finding() {
    assert_eq!(
        init_db_plan(true, VersionFileCheck::Malformed),
        InitDbAction::CreateDirAndVersionFile
    );
    assert_eq!(init_db_plan(false, VersionFileCheck::Matches), InitDbAction::OpenExisting);
    assert_eq!(init_db_plan(false, VersionFileCheck::Missing), InitDbAction::CreateVersionFile);
    assert_eq!(init_db_plan(false, VersionFileCheck::Malformed), InitDbAction::FailMalformed);
    assert_eq!(
        init_db_plan(false, VersionFileCheck::Mismatch(0)),
        InitDbAction::FailVersionMismatch(0)
    );
}
