//! The scanner: classification, the note pipeline against a stand-in
//! field hash, and the wallet state's add/remove semantics.
use mithras::address::MithrasAddr;
use mithras::envelope::HpkeEnvelope;
use mithras::keypairs::{DiscoveryKeypair, SpendSeed};
use mithras::metadata::{SupportedHpkeSuite, SupportedNetwork, TransactionMetadata};
use mithras::scanner::{
    commitment_preimage, deposit_selector, key_reconstruction_matches, nullifier_preimage,
    spend_selector, subscription_matches, MithrasMethod, WalletState,
};
use mithras::utxo::{UtxoInputs, UtxoSecrets};
use sha2::Digest;

fn bytes32(x: u8) -> Vec<u8> {
    vec![x; 32]
}

/// Deterministic stand-in for the external MiMC field hash. The scanner
/// treats the hash as an opaque collaborator, so the state-machine tests
/// may use any deterministic 32-byte function.
fn stub_field_hash(inputs: &[Vec<u8>]) -> Vec<u8> {
    let mut hasher = sha2::Sha256::new();
    for input in inputs {
        hasher.update(input);
    }
    hasher.finalize().to_vec()
}

#[test]
fn test_selectors_match_sha512_256_of_signatures() {
    let deposit_sig: &[u8] = b"deposit(uint256[],(byte[96],byte[96],byte[96],byte[96],byte[96],byte[96],byte[96],byte[96],byte[96],uint256,uint256,uint256,uint256,uint256,uint256),byte[250],pay,txn)void";
    let spend_sig: &[u8] = b"spend(uint256[],(byte[96],byte[96],byte[96],byte[96],byte[96],byte[96],byte[96],byte[96],byte[96],uint256,uint256,uint256,uint256,uint256,uint256),byte[250],byte[250],txn)void";
    assert_eq!(
        deposit_selector(),
        sha2::Sha512_256::digest(deposit_sig).to_vec()
    );
    assert_eq!(spend_selector(), sha2::Sha512_256::digest(spend_sig).to_vec());
    assert_ne!(deposit_selector(), spend_selector());
}

struct TestNote {
    spend: SpendSeed,
    discovery: DiscoveryKeypair,
    metadata: TransactionMetadata,
    inputs: UtxoInputs,
    commitment: Vec<u8>,
    nullifier: Vec<u8>,
}

fn make_note(amount: u64) -> TestNote {
    let spend = SpendSeed::from_bytes(bytes32(0x01));
    let discovery = DiscoveryKeypair::from_bytes(bytes32(0x02));
    let addr = MithrasAddr::from_keys(
        spend.public_key(),
        discovery.public_key(),
        1,
        SupportedNetwork::Custom(bytes32(0x0c)),
        SupportedHpkeSuite::Base25519Sha512ChaCha20Poly1305,
    );
    let metadata = TransactionMetadata {
        sender: bytes32(3),
        first_valid: 5,
        last_valid: 9,
        lease: bytes32(0),
        network: SupportedNetwork::Custom(bytes32(0x0c)),
        app_id: 42,
    };
    let inputs = UtxoInputs::generate(&metadata, amount, &addr).unwrap();
    let commitment = stub_field_hash(&commitment_preimage(&inputs.secrets));
    let nullifier = stub_field_hash(&nullifier_preimage(&commitment, &inputs.secrets));
    TestNote { spend, discovery, metadata, inputs, commitment, nullifier }
}

fn deposit_args(note: &TestNote) -> Vec<Vec<u8>> {
    vec![
        deposit_selector(),
        note.commitment.clone(),
        Vec::new(),
        note.inputs.hpke_envelope.to_bytes(),
    ]
}

fn spend_args(note: &TestNote) -> Vec<Vec<u8>> {
    let mut signals = vec![0u8; 128];
    signals[96..128].copy_from_slice(&note.nullifier);
    vec![
        spend_selector(),
        signals,
        Vec::new(),
        note.inputs.hpke_envelope.to_bytes(),
        note.inputs.hpke_envelope.to_bytes(),
    ]
}

/// One pass of the note pipeline over a classified event, with the field
/// hash injected, mirroring how a driver feeds the wallet state.
fn process_event(state: &mut WalletState, note: &TestNote, args: &Vec<Vec<u8>>) {
    let method = match MithrasMethod::from_args(args) {
        Some(m) => m,
        None => return,
    };
    if let Some(nullifier) = method.nullifier() {
        let nullifier = nullifier.clone();
        if state.settle_spend(&nullifier) {
            return;
        }
    }
    for envelope in method.hpke_envelopes() {
        if !envelope.discovery_check(note.discovery.private_key(), &note.metadata) {
            continue;
        }
        let utxo = match UtxoSecrets::from_hpke_envelope(
            envelope.clone(),
            note.discovery.clone(),
            &note.metadata,
        ) {
            Ok(u) => u,
            Err(_) => continue,
        };
        let commitment = stub_field_hash(&commitment_preimage(&utxo));
        if !method.verify_commitment(&commitment) {
            continue;
        }
        let nullifier = stub_field_hash(&nullifier_preimage(&commitment, &utxo));
        if !key_reconstruction_matches(&note.spend, &utxo) {
            continue;
        }
        state.record_note(&nullifier, utxo.amount, &utxo.tweaked_pubkey);
    }
}

#[test]
fn scenario_deposit_then_spend_drains_the_wallet() {
    let note = make_note(1000);
    let mut state = WalletState::new();

    process_event(&mut state, &note, &deposit_args(&note));
    assert_eq!(state.amount, 1000);
    assert_eq!(state.recorded_utxos.len(), 1);
    assert_eq!(state.addrs.len(), 1);

    process_event(&mut state, &note, &spend_args(&note));
    assert_eq!(state.amount, 0);
    assert!(state.recorded_utxos.is_empty());
    assert_eq!(state.addrs.len(), 1);
}

#[test]
fn scenario_duplicate_deposit_is_recorded_once() {
    let note = make_note(777);
    let mut state = WalletState::new();

    process_event(&mut state, &note, &deposit_args(&note));
    process_event(&mut state, &note, &deposit_args(&note));

    assert_eq!(state.recorded_utxos.len(), 1);
    assert_eq!(state.amount, 777);
}

#[test]
fn test_scanner_drops_foreign_and_malformed_events() {
    let note = make_note(50);
    let mut state = WalletState::new();

    let unknown_selector = vec![bytes32(9), bytes32(0), Vec::new(), bytes32(1)];
    process_event(&mut state, &note, &unknown_selector);
    assert_eq!(state.amount, 0);

    let mut wrong_commitment = deposit_args(&note);
    wrong_commitment[1] = bytes32(0xaa);
    process_event(&mut state, &note, &wrong_commitment);
    assert_eq!(state.amount, 0);
    assert!(state.recorded_utxos.is_empty());

    let mut bad_envelope = deposit_args(&note);
    bad_envelope[3] = vec![0u8; 10];
    process_event(&mut state, &note, &bad_envelope);
    assert_eq!(state.amount, 0);
}

#[test]
fn test_classifier_shapes() {
    let note = make_note(10);

    match MithrasMethod::from_args(&deposit_args(&note)) {
        Some(MithrasMethod::Deposit { commitment, hpke_envelope }) => {
            assert_eq!(commitment, note.commitment);
            assert_eq!(hpke_envelope.to_bytes(), note.inputs.hpke_envelope.to_bytes());
        }
        other => panic!("expected a deposit, got {:?}", other.is_some()),
    }

    match MithrasMethod::from_args(&spend_args(&note)) {
        Some(MithrasMethod::Spend { nullifier, commitment0, commitment1, .. }) => {
            assert_eq!(nullifier, note.nullifier);
            assert_eq!(commitment0, bytes32(0));
            assert_eq!(commitment1, bytes32(0));
        }
        other => panic!("expected a spend, got {:?}", other.is_some()),
    }

    let mut too_few = deposit_args(&note);
    too_few.pop();
    assert!(MithrasMethod::from_args(&too_few).is_none());
    assert!(MithrasMethod::from_args(&Vec::new()).is_none());
}

#[test]
fn test_wallet_conservation_over_many_notes() {
    let mut state = WalletState::new();
    let amounts: [u64; 4] = [10, 20, 30, 40];
    for (i, amount) in amounts.iter().enumerate() {
        assert!(state.record_note(&bytes32(i as u8), *amount, &bytes32(0x40 + i as u8)));
    }
    assert_eq!(state.amount, 100);
    assert_eq!(state.addrs.len(), 4);

    assert!(state.settle_spend(&bytes32(1)));
    assert!(state.settle_spend(&bytes32(3)));
    assert!(!state.settle_spend(&bytes32(7)));
    assert_eq!(state.amount, 10 + 30);
    assert_eq!(state.recorded_utxos.len(), 2);

    assert!(!state.settle_spend(&bytes32(1)));
    assert_eq!(state.amount, 40);
}

#[test]
fn test_record_note_is_idempotent_per_nullifier() {
    let mut state = WalletState::new();
    assert!(state.record_note(&bytes32(5), 123, &bytes32(6)));
    assert!(!state.record_note(&bytes32(5), 123, &bytes32(6)));
    assert!(!state.record_note(&bytes32(5), 999, &bytes32(7)));
    assert_eq!(state.amount, 123);
    assert_eq!(state.recorded_utxos.len(), 1);
    assert_eq!(state.addrs.len(), 1);
    assert_eq!(state.lookup(&bytes32(5)), Some(123));
    assert_eq!(state.lookup(&bytes32(6)), None);
}

#[test]
fn test_record_note_refuses_overflow() {
    let mut state = WalletState::new();
    assert!(state.record_note(&bytes32(1), u64::MAX - 1, &bytes32(2)));
    assert!(!state.record_note(&bytes32(3), 2, &bytes32(4)));
    assert_eq!(state.amount, u64::MAX - 1);
    assert_eq!(state.recorded_utxos.len(), 1);
}

#[test]
fn test_subscription_matches_filters() {
    let args = vec![bytes32(1), bytes32(2)];

    assert!(subscription_matches(Some(7), Some(7), &Vec::new(), &args));
    assert!(subscription_matches(Some(7), None, &Vec::new(), &args));
    assert!(subscription_matches(None, Some(9), &Vec::new(), &args));
    assert!(!subscription_matches(Some(7), Some(9), &Vec::new(), &args));

    let filters = vec![(1u64, Some(bytes32(2)))];
    assert!(subscription_matches(None, None, &filters, &args));

    let wrong = vec![(1u64, Some(bytes32(3)))];
    assert!(!subscription_matches(None, None, &wrong, &args));

    let absent = vec![(5u64, None)];
    assert!(subscription_matches(None, None, &absent, &args));

    let expects_present = vec![(5u64, Some(bytes32(2)))];
    assert!(!subscription_matches(None, None, &expects_present, &args));
}

#[test]
fn test_key_reconstruction_rejects_foreign_note() {
    let note = make_note(10);
    let opened = UtxoSecrets::from_hpke_envelope(
        note.inputs.hpke_envelope.clone(),
        note.discovery.clone(),
        &note.metadata,
    )
    .unwrap();
    assert!(key_reconstruction_matches(&note.spend, &opened));

    let other_seed = SpendSeed::from_bytes(bytes32(0x33));
    assert!(!key_reconstruction_matches(&other_seed, &opened));
}
