//! End-to-end sender/receiver flows: discovery checks, sealing and
//! opening, metadata binding, and signing under the reconstructed key.
use ed25519_dalek::Verifier;
use mithras::address::MithrasAddr;
use mithras::keypairs::{DiscoveryKeypair, SpendSeed, TweakedSigner};
use mithras::metadata::{SupportedHpkeSuite, SupportedNetwork, TransactionMetadata};
use mithras::utxo::{UtxoInputs, UtxoSecrets};

fn bytes32(x: u8) -> Vec<u8> {
    vec![x; 32]
}

fn receiver_address(spend: &SpendSeed, discovery: &DiscoveryKeypair) -> MithrasAddr {
    MithrasAddr::from_keys(
        spend.public_key(),
        discovery.public_key(),
        1,
        SupportedNetwork::Mainnet,
        SupportedHpkeSuite::Base25519Sha512ChaCha20Poly1305,
    )
}

#[test]
fn test_complete_mithras_protocol_flow_with_utxo_generate() {
    let spend_keypair = SpendSeed::generate().unwrap();
    let discovery_keypair = DiscoveryKeypair::generate().unwrap();

    let mithras_addr = receiver_address(&spend_keypair, &discovery_keypair);

    let txn_metadata = TransactionMetadata {
        sender: spend_keypair.public_key().clone(),
        first_valid: 1000,
        last_valid: 2000,
        lease: bytes32(0),
        network: SupportedNetwork::Mainnet,
        app_id: 1,
    };
    let amount: u64 = 1000;

    let utxo_inputs = UtxoInputs::generate(&txn_metadata, amount, &mithras_addr).unwrap();

    let recovered_secrets = UtxoSecrets::from_hpke_envelope(
        utxo_inputs.hpke_envelope.clone(),
        discovery_keypair.clone(),
        &txn_metadata,
    )
    .unwrap();

    assert!(recovered_secrets == utxo_inputs.secrets);

    let msg: Vec<u8> = b"example spend authorization".to_vec();
    let tweaked_signer =
        TweakedSigner::derive(&spend_keypair, &recovered_secrets.tweak_scalar).unwrap();
    let sig = tweaked_signer.sign(&msg).unwrap();

    let tweak_pubkey_from_sender = utxo_inputs.secrets.tweaked_pubkey.clone();
    let vk_bytes: [u8; 32] = tweak_pubkey_from_sender.as_slice().try_into().unwrap();
    let vk = ed25519_dalek::VerifyingKey::from_bytes(&vk_bytes).unwrap();
    let sig_bytes: [u8; 64] = sig.as_slice().try_into().unwrap();
    let signature = ed25519_dalek::Signature::from_bytes(&sig_bytes);
    let verify_res = vk.verify_strict(&msg, &signature);
    if verify_res.is_err() {
        vk.verify(&msg, &signature).unwrap();
    }
}

#[test]
fn scenario_discovery_check_accepts_owner_and_rejects_stranger() {
    let metadata = TransactionMetadata {
        sender: bytes32(0),
        first_valid: 10,
        last_valid: 20,
        lease: bytes32(0),
        network: SupportedNetwork::Mainnet,
        app_id: 42,
    };
    let amount: u64 = 12345;

    let spend = SpendSeed::from_bytes(bytes32(0x01));
    let discovery = DiscoveryKeypair::from_bytes(bytes32(0x02));
    let addr = receiver_address(&spend, &discovery);

    let inputs = UtxoInputs::generate(&metadata, amount, &addr).unwrap();
    assert!(inputs
        .hpke_envelope
        .discovery_check(discovery.private_key(), &metadata));

    let stranger = DiscoveryKeypair::generate().unwrap();
    assert!(!inputs
        .hpke_envelope
        .discovery_check(stranger.private_key(), &metadata));
}

#[test]
fn scenario_sender_receiver_secrets_and_signature_agree() {
    let spend = SpendSeed::from_bytes(bytes32(0x01));
    let discovery = DiscoveryKeypair::from_bytes(bytes32(0x02));
    let addr = receiver_address(&spend, &discovery);
    let metadata = TransactionMetadata {
        sender: bytes32(3),
        first_valid: 5,
        last_valid: 9,
        lease: bytes32(4),
        network: SupportedNetwork::Testnet,
        app_id: 77,
    };

    let inputs = UtxoInputs::generate(&metadata, 5000, &addr).unwrap();
    let opened = UtxoSecrets::from_hpke_envelope(
        inputs.hpke_envelope.clone(),
        discovery.clone(),
        &metadata,
    )
    .unwrap();
    assert!(opened == inputs.secrets);
    assert_eq!(opened.to_bytes(), inputs.secrets.to_bytes());

    let msg: Vec<u8> = b"example spend authorization".to_vec();
    let signer = TweakedSigner::derive(&spend, &opened.tweak_scalar).unwrap();
    let sig = signer.sign(&msg).unwrap();
    assert!(mithras::keypairs::verify_signature(&inputs.secrets.tweaked_pubkey, &msg, &sig)
        .unwrap());
}

#[test]
fn test_metadata_binding_rejects_any_changed_field() {
    let spend = SpendSeed::from_bytes(bytes32(0x01));
    let discovery = DiscoveryKeypair::from_bytes(bytes32(0x02));
    let addr = receiver_address(&spend, &discovery);
    let metadata = TransactionMetadata {
        sender: bytes32(3),
        first_valid: 5,
        last_valid: 9,
        lease: bytes32(4),
        network: SupportedNetwork::Testnet,
        app_id: 77,
    };
    let inputs = UtxoInputs::generate(&metadata, 5000, &addr).unwrap();

    let rejects = |changed: &TransactionMetadata| {
        let tag_ok = inputs
            .hpke_envelope
            .discovery_check(discovery.private_key(), changed);
        let open_ok = UtxoSecrets::from_hpke_envelope(
            inputs.hpke_envelope.clone(),
            discovery.clone(),
            changed,
        )
        .is_ok();
        !tag_ok || !open_ok
    };

    let mut m = metadata.clone();
    m.sender = bytes32(8);
    assert!(rejects(&m));

    let mut m = metadata.clone();
    m.first_valid = 6;
    assert!(rejects(&m));

    let mut m = metadata.clone();
    m.last_valid = 10;
    assert!(rejects(&m));

    let mut m = metadata.clone();
    m.lease = bytes32(9);
    assert!(rejects(&m));

    let mut m = metadata.clone();
    m.network = SupportedNetwork::Mainnet;
    assert!(rejects(&m));

    let mut m = metadata.clone();
    m.app_id = 78;
    assert!(rejects(&m));

    assert!(inputs
        .hpke_envelope
        .discovery_check(discovery.private_key(), &metadata));
    assert!(UtxoSecrets::from_hpke_envelope(
        inputs.hpke_envelope.clone(),
        discovery.clone(),
        &metadata
    )
    .is_ok());
}

#[test]
fn test_open_fails_on_tampered_ciphertext() {
    let spend = SpendSeed::from_bytes(bytes32(0x01));
    let discovery = DiscoveryKeypair::from_bytes(bytes32(0x02));
    let addr = receiver_address(&spend, &discovery);
    let metadata = TransactionMetadata {
        sender: bytes32(3),
        first_valid: 5,
        last_valid: 9,
        lease: bytes32(4),
        network: SupportedNetwork::Testnet,
        app_id: 77,
    };
    let inputs = UtxoInputs::generate(&metadata, 5000, &addr).unwrap();

    let mut tampered = inputs.hpke_envelope.clone();
    tampered.ciphertext[0] ^= 1;
    assert_eq!(
        UtxoSecrets::from_hpke_envelope(tampered, discovery.clone(), &metadata),
        Err(mithras::errors::MithrasError::HpkeOperation)
    );
}
