//! Keypair, discovery and tweaked-signer behaviour, checked against the
//! underlying cryptographic crates directly.
use ed25519_dalek::Verifier;
use hmac::Mac;
use sha2::Digest;
use mithras::discovery::{
    compute_discovery_secret_receiver, compute_discovery_secret_sender, compute_discovery_tag,
};
use mithras::keypairs::{
    derive_tweak_scalar, derive_tweaked_pubkey, verify_signature, DiscoveryKeypair, SpendSeed,
    TweakedSigner,
};

fn bytes32(x: u8) -> Vec<u8> {
    vec![x; 32]
}

#[test]
fn test_keypair_generation() {
    let spend_keypair = SpendSeed::generate().unwrap();
    let discovery_keypair = DiscoveryKeypair::generate().unwrap();

    assert_eq!(spend_keypair.seed().len(), 32);
    assert_eq!(discovery_keypair.public_key().len(), 32);
}

#[test]
fn test_discovery_secret_computation() {
    let discovery_keypair = DiscoveryKeypair::generate().unwrap();
    let ephemeral_keypair = DiscoveryKeypair::generate().unwrap();

    let discovery_secret_sender = compute_discovery_secret_sender(
        ephemeral_keypair.private_key(),
        discovery_keypair.public_key(),
    );

    let discovery_secret_receiver = compute_discovery_secret_receiver(
        discovery_keypair.private_key(),
        ephemeral_keypair.public_key(),
    );

    assert_eq!(discovery_secret_sender, discovery_secret_receiver);
}

#[test]
fn test_tweaked_keypair_computation() {
    let spend_keypair = SpendSeed::generate().unwrap();
    let discovery_keypair = DiscoveryKeypair::generate().unwrap();
    let ephemeral_keypair = DiscoveryKeypair::generate().unwrap();

    let discovery_secret_sender = compute_discovery_secret_sender(
        ephemeral_keypair.private_key(),
        discovery_keypair.public_key(),
    );

    let tweak_scalar = derive_tweak_scalar(&discovery_secret_sender);

    let tweaked_keypair_sender =
        derive_tweaked_pubkey(spend_keypair.public_key(), &tweak_scalar).unwrap();

    let tweaked_keypair_receiver = TweakedSigner::derive(&spend_keypair, &tweak_scalar).unwrap();

    assert_eq!(tweaked_keypair_sender, *tweaked_keypair_receiver.public_key());
}

#[test]
fn test_discovery_tag() {
    let discovery_keypair = DiscoveryKeypair::generate().unwrap();
    let ephemeral_keypair = DiscoveryKeypair::generate().unwrap();

    let discovery_secret_sender = compute_discovery_secret_sender(
        ephemeral_keypair.private_key(),
        discovery_keypair.public_key(),
    );

    let discovery_secret_receiver = compute_discovery_secret_receiver(
        discovery_keypair.private_key(),
        ephemeral_keypair.public_key(),
    );

    let discovery_tag_sender = compute_discovery_tag(
        &discovery_secret_sender,
        &bytes32(0),
        1000,
        2000,
        &bytes32(0),
    );

    let discovery_tag_receiver = compute_discovery_tag(
        &discovery_secret_receiver,
        &bytes32(0),
        1000,
        2000,
        &bytes32(0),
    );

    assert_eq!(discovery_tag_sender, discovery_tag_receiver);
}

#[test]
fn test_ed25519_signing_with_tweaked_key() {
    let spend_keypair = SpendSeed::generate().unwrap();
    let discovery_secret = vec![42u8; 32];
    let tweak_scalar = derive_tweak_scalar(&discovery_secret);
    let tweaked_keypair_receiver =
        derive_tweaked_pubkey(spend_keypair.public_key(), &tweak_scalar).unwrap();

    let msg: Vec<u8> = b"example spend authorization".to_vec();
    let tweaked_priv = TweakedSigner::derive(&spend_keypair, &tweak_scalar).unwrap();
    let sig = tweaked_priv.sign(&msg).unwrap();

    let vk_bytes: [u8; 32] = tweaked_keypair_receiver.as_slice().try_into().unwrap();
    let vk = ed25519_dalek::VerifyingKey::from_bytes(&vk_bytes).unwrap();
    let sig_bytes: [u8; 64] = sig.as_slice().try_into().unwrap();
    let signature = ed25519_dalek::Signature::from_bytes(&sig_bytes);
    let verify_res = vk.verify_strict(&msg, &signature);
    if verify_res.is_err() {
        vk.verify(&msg, &signature).unwrap();
    }
}

#[test]
fn test_library_verify_agrees_with_dalek() {
    let spend_keypair = SpendSeed::from_bytes(bytes32(9));
    let tweak_scalar = derive_tweak_scalar(&bytes32(42));
    let signer = TweakedSigner::derive(&spend_keypair, &tweak_scalar).unwrap();
    let msg: Vec<u8> = b"another authorization".to_vec();
    let sig = signer.sign(&msg).unwrap();

    assert!(verify_signature(signer.public_key(), &msg, &sig).unwrap());

    let mut bad_sig = sig.clone();
    bad_sig[0] ^= 1;
    let library_says = verify_signature(signer.public_key(), &msg, &bad_sig).unwrap();
    let vk_bytes: [u8; 32] = signer.public_key().as_slice().try_into().unwrap();
    let vk = ed25519_dalek::VerifyingKey::from_bytes(&vk_bytes).unwrap();
    let sig_bytes: [u8; 64] = bad_sig.as_slice().try_into().unwrap();
    let dalek_says = vk
        .verify(&msg, &ed25519_dalek::Signature::from_bytes(&sig_bytes))
        .is_ok();
    assert_eq!(library_says, dalek_says);
    assert!(!library_says);
}

#[test]
fn test_discovery_secret_matches_x25519_dalek() {
    let private = bytes32(7);
    let public = bytes32(11);
    let ours = compute_discovery_secret_receiver(&private, &public);

    let sk = x25519_dalek::StaticSecret::from(<[u8; 32]>::try_from(private.as_slice()).unwrap());
    let pk = x25519_dalek::PublicKey::from(<[u8; 32]>::try_from(public.as_slice()).unwrap());
    let expected = sk.diffie_hellman(&pk).to_bytes().to_vec();
    assert_eq!(ours, expected);
}

#[test]
fn test_discovery_tag_matches_hkdf_hmac() {
    let secret = bytes32(0x42);
    let sender = bytes32(5);
    let lease = bytes32(6);
    let ours = compute_discovery_tag(&secret, &sender, 10, 20, &lease);

    let hk = hkdf::Hkdf::<sha2::Sha256>::new(Some(&[0u8; 0]), &secret);
    let mut tag_key = [0u8; 32];
    hk.expand(b"discovery-tag", &mut tag_key).unwrap();
    let mut mac = hmac::Hmac::<sha2::Sha256>::new_from_slice(&tag_key).unwrap();
    mac.update(&sender);
    mac.update(&10u64.to_le_bytes());
    mac.update(&20u64.to_le_bytes());
    mac.update(&lease);
    let expected = mac.finalize().into_bytes().to_vec();
    assert_eq!(ours, expected);
}

#[test]
fn test_tweak_scalar_matches_sha512_reduction() {
    let secret = vec![0x42u8; 32];
    let ours = derive_tweak_scalar(&secret);

    let mut hasher = sha2::Sha512::new();
    hasher.update(b"mithras-tweak-scalar");
    hasher.update(&secret);
    let hash = hasher.finalize();
    let mut scalar_bytes = [0u8; 32];
    scalar_bytes.copy_from_slice(&hash[..32]);
    let expected = curve25519_dalek::Scalar::from_bytes_mod_order(scalar_bytes)
        .to_bytes()
        .to_vec();
    assert_eq!(ours, expected);
    assert_ne!(ours, secret);
}

#[test]
fn test_tweaked_pubkey_matches_dalek_point_arithmetic() {
    let spend = SpendSeed::from_bytes(bytes32(1));
    let h = derive_tweak_scalar(&bytes32(0x42));
    let ours = derive_tweaked_pubkey(spend.public_key(), &h).unwrap();

    let compressed = curve25519_dalek::edwards::CompressedEdwardsY::from_slice(
        spend.public_key().as_slice(),
    )
    .unwrap();
    let point = compressed.decompress().unwrap();
    let scalar =
        curve25519_dalek::Scalar::from_bytes_mod_order(<[u8; 32]>::try_from(h.as_slice()).unwrap());
    let tweaked = point + curve25519_dalek::constants::ED25519_BASEPOINT_TABLE * &scalar;
    let expected = tweaked.compress().to_bytes().to_vec();
    assert_eq!(ours, expected);
}

#[test]
fn test_spend_public_key_matches_dalek_signing_key() {
    let seed = bytes32(1);
    let spend = SpendSeed::from_bytes(seed.clone());
    let sk = ed25519_dalek::SigningKey::from_bytes(&<[u8; 32]>::try_from(seed.as_slice()).unwrap());
    assert_eq!(*spend.public_key(), sk.verifying_key().to_bytes().to_vec());
}
