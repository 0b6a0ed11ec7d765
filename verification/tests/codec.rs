//! Address, envelope and payload codecs: round trips, exact renderings,
//! and every rejection the decoders promise.
use mithras::address::MithrasAddr;
use mithras::envelope::{HpkeEnvelope, ENVELOPE_SIZE, SECRET_SIZE};
use mithras::errors::MithrasError;
use mithras::keypairs::{derive_tweak_scalar, DiscoveryKeypair, SpendSeed, TweakedSigner};
use mithras::metadata::{SupportedHpkeSuite, SupportedNetwork, TransactionMetadata};
use mithras::utxo::UtxoSecrets;

fn bytes32(x: u8) -> Vec<u8> {
    vec![x; 32]
}

#[test]
fn test_mithras_address_encoding_decoding() {
    let spend_keypair = SpendSeed::generate().unwrap();
    let discovery_keypair = DiscoveryKeypair::generate().unwrap();
    let discovery_secret = vec![42u8; 32];
    let tweak_scalar = derive_tweak_scalar(&discovery_secret);
    let tweaked_keypair_receiver = TweakedSigner::derive(&spend_keypair, &tweak_scalar).unwrap();

    let mithras_addr = MithrasAddr::from_keys(
        tweaked_keypair_receiver.public_key(),
        discovery_keypair.public_key(),
        1,
        SupportedNetwork::Mainnet,
        SupportedHpkeSuite::Base25519Sha512ChaCha20Poly1305,
    );

    let encoded_addr = mithras_addr.encode().unwrap();
    let decoded_addr = MithrasAddr::decode(&encoded_addr).unwrap();

    assert_eq!(decoded_addr.version, mithras_addr.version);
    assert_eq!(decoded_addr.network, mithras_addr.network);
    assert_eq!(decoded_addr.suite, mithras_addr.suite);
    assert_eq!(decoded_addr.spend_ed25519, mithras_addr.spend_ed25519);
    assert_eq!(decoded_addr.disc_x25519, mithras_addr.disc_x25519);
}

#[test]
fn scenario_fixed_seed_address_round_trip() {
    let spend_seed = SpendSeed::from_bytes(bytes32(0x01));
    let discovery = DiscoveryKeypair::from_bytes(bytes32(0x02));

    let address = MithrasAddr::from_keys(
        spend_seed.public_key(),
        discovery.public_key(),
        1,
        SupportedNetwork::Testnet,
        SupportedHpkeSuite::Base25519Sha512ChaCha20Poly1305,
    );

    let encoded = address.encode().unwrap();
    assert!(encoded.starts_with("mith1"));
    let decoded = MithrasAddr::decode(&encoded).unwrap();
    assert!(decoded == address);
}

#[test]
fn scenario_shared_secret_tweak_agreement() {
    let s = vec![0x42u8; 32];
    let spend_seed = SpendSeed::from_bytes(bytes32(0x01));

    let h_sender = derive_tweak_scalar(&s);
    let h_receiver = derive_tweak_scalar(&s);
    assert_eq!(h_sender, h_receiver);

    let sender_pubkey =
        mithras::keypairs::derive_tweaked_pubkey(spend_seed.public_key(), &h_sender).unwrap();
    let receiver_signer = TweakedSigner::derive(&spend_seed, &h_receiver).unwrap();
    assert_eq!(sender_pubkey, *receiver_signer.public_key());
}

#[test]
fn test_address_decode_rejections() {
    assert_eq!(
        MithrasAddr::decode("this is not bech32"),
        Err(MithrasError::AddressBech32)
    );

    let other_hrp = bech32::encode::<bech32::Bech32m>(
        bech32::Hrp::parse_unchecked("abc"),
        &[0u8; 67],
    )
    .unwrap();
    assert_eq!(
        MithrasAddr::decode(&other_hrp),
        Err(MithrasError::AddressWrongHrp)
    );

    let short = bech32::encode::<bech32::Bech32m>(bech32::Hrp::parse_unchecked("mith"), &[0u8; 10])
        .unwrap();
    assert_eq!(
        MithrasAddr::decode(&short),
        Err(MithrasError::AddressWrongLength)
    );

    let mut payload = vec![0u8; 67];
    payload[1] = 9;
    let bad_network =
        bech32::encode::<bech32::Bech32m>(bech32::Hrp::parse_unchecked("mith"), &payload).unwrap();
    assert_eq!(
        MithrasAddr::decode(&bad_network),
        Err(MithrasError::AddressUnknownNetwork)
    );

    let mut payload = vec![0u8; 67];
    payload[2] = 5;
    let bad_suite =
        bech32::encode::<bech32::Bech32m>(bech32::Hrp::parse_unchecked("mith"), &payload).unwrap();
    assert_eq!(
        MithrasAddr::decode(&bad_suite),
        Err(MithrasError::AddressUnknownSuite)
    );
}

#[test]
fn test_envelope_round_trip_and_rejections() {
    let env = HpkeEnvelope {
        version: 1,
        suite: SupportedHpkeSuite::Base25519Sha512ChaCha20Poly1305,
        encapsulated_key: bytes32(3),
        ciphertext: vec![7u8; SECRET_SIZE + 16],
        discovery_tag: bytes32(4),
        discovery_ephemeral: bytes32(5),
    };
    let bytes = env.to_bytes();
    assert_eq!(bytes.len(), ENVELOPE_SIZE);
    let back = HpkeEnvelope::from_bytes(&bytes).unwrap();
    assert_eq!(back.version, env.version);
    assert_eq!(back.suite, env.suite);
    assert_eq!(back.encapsulated_key, env.encapsulated_key);
    assert_eq!(back.ciphertext, env.ciphertext);
    assert_eq!(back.discovery_tag, env.discovery_tag);
    assert_eq!(back.discovery_ephemeral, env.discovery_ephemeral);

    let short = vec![0u8; ENVELOPE_SIZE - 1];
    assert!(matches!(
        HpkeEnvelope::from_bytes(&short),
        Err(MithrasError::EnvelopeWrongLength)
    ));

    let mut bad_version = bytes.clone();
    bad_version[0] = 2;
    assert!(matches!(
        HpkeEnvelope::from_bytes(&bad_version),
        Err(MithrasError::EnvelopeUnknownVersion)
    ));

    let mut bad_suite = bytes.clone();
    bad_suite[1] = 1;
    assert!(matches!(
        HpkeEnvelope::from_bytes(&bad_suite),
        Err(MithrasError::EnvelopeUnknownSuite)
    ));
}

#[test]
fn test_utxo_secrets_codec_round_trip() {
    let secrets = UtxoSecrets {
        spending_secret: bytes32(42),
        nullifier_secret: bytes32(43),
        amount: 1000,
        tweak_scalar: {
            let mut v = vec![0u8; 32];
            v[0] = 7;
            v
        },
        tweaked_pubkey: bytes32(0),
    };
    let bytes = secrets.to_bytes();
    assert_eq!(bytes.len(), SECRET_SIZE);
    assert_eq!(&bytes[64..72], &[0, 0, 0, 0, 0, 0, 3, 232]);
    let back = UtxoSecrets::from_bytes(&bytes).unwrap();
    assert!(back == secrets);

    let short = vec![0u8; SECRET_SIZE - 1];
    assert!(matches!(
        UtxoSecrets::from_bytes(&short),
        Err(MithrasError::DataConversion)
    ));
}

#[test]
fn test_utxo_secrets_rejects_bad_curve_point() {
    let mut candidate = bytes32(0);
    let mut found = false;
    for first in 0..=255u8 {
        candidate[0] = first;
        candidate[31] = 0xff;
        let arr: [u8; 32] = candidate.as_slice().try_into().unwrap();
        if ed25519_dalek::VerifyingKey::from_bytes(&arr).is_err() {
            found = true;
            break;
        }
    }
    assert!(found);

    let mut payload = vec![0u8; SECRET_SIZE];
    payload[104..136].copy_from_slice(&candidate);
    assert!(matches!(
        UtxoSecrets::from_bytes(&payload),
        Err(MithrasError::CurvePointDecompression)
    ));

    let spend = SpendSeed::from_bytes(bytes32(1));
    let h = derive_tweak_scalar(&bytes32(2));
    assert!(matches!(
        mithras::keypairs::derive_tweaked_pubkey(&candidate, &h),
        Err(MithrasError::CurvePointDecompression)
    ));
    assert!(mithras::keypairs::derive_tweaked_pubkey(spend.public_key(), &h).is_ok());
}

#[test]
fn test_info_and_aad_exact_renderings() {
    let meta = TransactionMetadata {
        sender: bytes32(0),
        first_valid: 1,
        last_valid: 2,
        lease: bytes32(0),
        network: SupportedNetwork::Mainnet,
        app_id: 1337,
    };
    assert_eq!(meta.info(), b"mithras|network:mainnet|app:1337|v:1".to_vec());

    let zeros64: String = "0".repeat(64);
    let expected_aad = format!("txid:{}|fv:1|lv:2|lease:{}", zeros64, zeros64);
    assert_eq!(meta.aad(), expected_aad.into_bytes());

    let custom = TransactionMetadata {
        sender: bytes32(0),
        first_valid: 1,
        last_valid: 2,
        lease: bytes32(0),
        network: SupportedNetwork::Custom({
            let mut t = vec![0u8; 32];
            t[0] = 0xde;
            t[1] = 0x05;
            t
        }),
        app_id: 7,
    };
    let info = custom.info();
    let rendered = String::from_utf8(info).unwrap();
    assert!(rendered.starts_with("mithras|network:[de, 5, 0, "));
    assert!(rendered.ends_with("|app:7|v:1"));
}

#[test]
fn test_context_strings_separate_distinct_metadata() {
    let meta = TransactionMetadata {
        sender: bytes32(1),
        first_valid: 12,
        last_valid: 120,
        lease: bytes32(2),
        network: SupportedNetwork::Custom(bytes32(3)),
        app_id: 9,
    };

    let mut other_sender = meta.clone();
    other_sender.sender = bytes32(4);
    assert_ne!(meta.aad(), other_sender.aad());

    let mut other_fv = meta.clone();
    other_fv.first_valid = 121;
    assert_ne!(meta.aad(), other_fv.aad());

    let mut other_lv = meta.clone();
    other_lv.last_valid = 1200;
    assert_ne!(meta.aad(), other_lv.aad());

    let mut other_lease = meta.clone();
    other_lease.lease = bytes32(5);
    assert_ne!(meta.aad(), other_lease.aad());

    let mut other_network = meta.clone();
    other_network.network = SupportedNetwork::Custom(bytes32(6));
    assert_ne!(meta.info(), other_network.info());

    let mut other_app = meta.clone();
    other_app.app_id = 90;
    assert_ne!(meta.info(), other_app.info());
}

#[test]
fn test_hpke_encryption_decryption() {
    let mut hpke = hpke_rs::Hpke::<hpke_rs_libcrux::HpkeLibcrux>::new(
        hpke_rs::Mode::Base,
        hpke_rs::hpke_types::KemAlgorithm::DhKem25519,
        hpke_rs::hpke_types::KdfAlgorithm::HkdfSha512,
        hpke_rs::hpke_types::AeadAlgorithm::ChaCha20Poly1305,
    );
    let hpke_recipient = hpke.generate_key_pair().unwrap();

    let info = b"mithras|network:mainnet|app:1337|v:1";
    let aad = b"txid:BLAH...BLAH";

    let mithras_secret = UtxoSecrets {
        spending_secret: bytes32(42),
        nullifier_secret: bytes32(43),
        amount: 1000,
        tweak_scalar: {
            let mut v = vec![0u8; 32];
            v[0] = 7;
            v
        },
        tweaked_pubkey: bytes32(0),
    };
    let secret_bytes = mithras_secret.to_bytes();
    let (encapsulated_key, ct) = hpke
        .seal(
            hpke_recipient.public_key(),
            info,
            aad,
            &secret_bytes,
            None,
            None,
            None,
        )
        .unwrap();

    let env = HpkeEnvelope {
        version: 1,
        suite: SupportedHpkeSuite::Base25519Sha512ChaCha20Poly1305,
        encapsulated_key: encapsulated_key.clone(),
        ciphertext: ct.clone(),
        discovery_tag: bytes32(0),
        discovery_ephemeral: bytes32(0),
    };

    let wire = env.to_bytes();
    let env2 = HpkeEnvelope::from_bytes(&wire).unwrap();

    let pt = hpke
        .open(
            &env2.encapsulated_key,
            hpke_recipient.private_key(),
            info,
            aad,
            &env2.ciphertext,
            None,
            None,
            None,
        )
        .unwrap();

    assert_eq!(&pt, &secret_bytes);
}
