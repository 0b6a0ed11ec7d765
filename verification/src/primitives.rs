//! The trusted boundary: names for what the outside cryptographic crates
//! return, and thin wrappers whose contracts Verus believes. Everything
//! above this module is verified against these contracts.
use vstd::prelude::*;

use crate::errors::MithrasError;
use hmac::Mac;
use sha2::Digest;

verus! {

/// SHA-512 digest of `data` (64 bytes).
pub uninterp spec fn sha512_of(data: Seq<u8>) -> Seq<u8>;

/// SHA-512/256 digest of `data` (32 bytes).
pub uninterp spec fn sha512_256_of(data: Seq<u8>) -> Seq<u8>;

/// 32 bytes of HKDF-SHA-256 output for empty salt, the given keying
/// material and info string.
pub uninterp spec fn hkdf_sha256_of(ikm: Seq<u8>, info: Seq<u8>) -> Seq<u8>;

/// HMAC-SHA-256 of `data` under `key` (32 bytes).
pub uninterp spec fn hmac_sha256_of(key: Seq<u8>, data: Seq<u8>) -> Seq<u8>;

/// X25519 of a private scalar and a public point, both as raw bytes.
pub uninterp spec fn x25519_of(scalar: Seq<u8>, point: Seq<u8>) -> Seq<u8>;

/// The X25519 public key of a private scalar: X25519 of the scalar and the
/// curve basepoint.
pub uninterp spec fn x25519_base_of(scalar: Seq<u8>) -> Seq<u8>;

/// The canonical little-endian form of 32 little-endian bytes reduced mod
/// the Ed25519 group order.
pub uninterp spec fn scalar_mod_l_of(bytes: Seq<u8>) -> Seq<u8>;

/// The canonical form of the sum mod the group order of two scalars given
/// as little-endian bytes.
pub uninterp spec fn scalar_add_of(a: Seq<u8>, b: Seq<u8>) -> Seq<u8>;

/// The compressed Edwards form of scalar * basepoint.
pub uninterp spec fn ed_base_mul_of(scalar: Seq<u8>) -> Seq<u8>;

/// The compressed Edwards form of decompress(point) + scalar * basepoint.
pub uninterp spec fn ed_tweak_add_of(point: Seq<u8>, scalar: Seq<u8>) -> Seq<u8>;

/// Whether 32 bytes decompress to an Edwards curve point.
pub uninterp spec fn ed_decompressable(point: Seq<u8>) -> bool;

/// The standard Ed25519 signature from the expanded secret (scalar,
/// prefix), binding the given verifying key, over `msg` (64 bytes).
pub uninterp spec fn ed_sign_of(scalar: Seq<u8>, prefix: Seq<u8>, public: Seq<u8>, msg: Seq<u8>) -> Seq<u8>;

/// Whether standard Ed25519 verification accepts `sig` on `msg` under
/// `public`.
pub uninterp spec fn ed_verify_of(public: Seq<u8>, msg: Seq<u8>, sig: Seq<u8>) -> bool;

/// What HPKE open (base mode, X25519-HKDF-SHA-256 KEM, HKDF-SHA-512,
/// ChaCha20-Poly1305) yields for an encapsulated key, recipient private
/// key, info, aad and ciphertext: the plaintext, or nothing when
/// decapsulation or the AEAD tag fails.
pub uninterp spec fn hpke_open_of(
    enc: Seq<u8>,
    recipient_priv: Seq<u8>,
    info: Seq<u8>,
    aad: Seq<u8>,
    ct: Seq<u8>,
) -> Option<Seq<u8>>;

/// The bech32m string with the given human-readable prefix and payload.
pub uninterp spec fn bech32m_of(hrp: Seq<char>, data: Seq<u8>) -> Seq<char>;

/// What bech32 decoding yields for a string: prefix and payload when the
/// checksum is valid, nothing otherwise.
pub uninterp spec fn bech32_decode_of(s: Seq<char>) -> Option<(Seq<char>, Seq<u8>)>;

/// Relies on getrandom::fill: fills a buffer from the system CSPRNG or
/// reports failure. Nothing is assumed of the bytes themselves.
#[verifier::external_body]
pub(crate) fn random_bytes32() -> (r: Result<Vec<u8>, MithrasError>)
    ensures
        r matches Ok(b) ==> b@.len() == 32,
        r matches Err(e) ==> e == MithrasError::RandomGeneration,
{
    let mut buf = [0u8; 32];
    match getrandom::fill(&mut buf) {
        Ok(()) => Ok(buf.to_vec()),
        Err(_) => Err(MithrasError::RandomGeneration),
    }
}

/// Relies on sha2::Sha512: the 64-byte SHA-512 digest.
#[verifier::external_body]
pub(crate) fn sha512(data: &Vec<u8>) -> (r: Vec<u8>)
    ensures
        r@ == sha512_of(data@),
        r@.len() == 64,
{
    sha2::Sha512::digest(data.as_slice()).to_vec()
}

/// Relies on sha2::Sha512_256: the 32-byte SHA-512/256 digest.
#[verifier::external_body]
pub(crate) fn sha512_256(data: &Vec<u8>) -> (r: Vec<u8>)
    ensures
        r@ == sha512_256_of(data@),
        r@.len() == 32,
{
    sha2::Sha512_256::digest(data.as_slice()).to_vec()
}

/// Relies on hkdf::Hkdf::<Sha256>::new and expand: 32 bytes of
/// HKDF-SHA-256 output for empty salt, `ikm` and `info`. Expansion to 32
/// bytes is within the RFC 5869 limit, so it cannot fail.
#[verifier::external_body]
pub(crate) fn hkdf_sha256_expand32(ikm: &Vec<u8>, info: &Vec<u8>) -> (r: Vec<u8>)
    ensures
        r@ == hkdf_sha256_of(ikm@, info@),
        r@.len() == 32,
{
    let hk = hkdf::Hkdf::<sha2::Sha256>::new(Some(&[0u8; 0]), ikm.as_slice());
    let mut okm = [0u8; 32];
    hk.expand(info.as_slice(), &mut okm).unwrap();
    okm.to_vec()
}

/// Relies on hmac::Hmac::<Sha256>: the 32-byte MAC of `data` under `key`.
/// HMAC accepts keys of any length, so construction cannot fail.
#[verifier::external_body]
pub(crate) fn hmac_sha256(key: &Vec<u8>, data: &Vec<u8>) -> (r: Vec<u8>)
    ensures
        r@ == hmac_sha256_of(key@, data@),
        r@.len() == 32,
{
    let mut mac = hmac::Hmac::<sha2::Sha256>::new_from_slice(key.as_slice()).unwrap();
    mac.update(data.as_slice());
    mac.finalize().into_bytes().to_vec()
}

/// Relies on x25519_dalek::StaticSecret::diffie_hellman. The last clause is
/// Diffie-Hellman key agreement, which the crate documents: when the point
/// is another party's public key, both sides compute the same secret.
#[verifier::external_body]
pub(crate) fn x25519_dh(scalar: &Vec<u8>, point: &Vec<u8>) -> (r: Vec<u8>)
    requires
        scalar@.len() == 32,
        point@.len() == 32,
    ensures
        r@ == x25519_of(scalar@, point@),
        r@.len() == 32,
        forall|other: Seq<u8>|
            other.len() == 32 && point@ == x25519_base_of(other) ==> r@ == x25519_of(
                other,
                x25519_base_of(scalar@),
            ),
{
    let sk = x25519_dalek::StaticSecret::from(<[u8; 32]>::try_from(scalar.as_slice()).unwrap());
    let pk = x25519_dalek::PublicKey::from(<[u8; 32]>::try_from(point.as_slice()).unwrap());
    sk.diffie_hellman(&pk).to_bytes().to_vec()
}

/// Relies on x25519_dalek::PublicKey::from(&StaticSecret): the public key
/// belonging to a private scalar.
#[verifier::external_body]
pub(crate) fn x25519_public(scalar: &Vec<u8>) -> (r: Vec<u8>)
    requires
        scalar@.len() == 32,
    ensures
        r@ == x25519_base_of(scalar@),
        r@.len() == 32,
{
    let sk = x25519_dalek::StaticSecret::from(<[u8; 32]>::try_from(scalar.as_slice()).unwrap());
    x25519_dalek::PublicKey::from(&sk).to_bytes().to_vec()
}

/// Relies on curve25519_dalek::Scalar::from_bytes_mod_order and to_bytes:
/// the canonical form of the reduced value. Reducing a canonical value
/// changes nothing, so the result is a fixed point.
#[verifier::external_body]
pub(crate) fn scalar_mod_l(bytes: &Vec<u8>) -> (r: Vec<u8>)
    requires
        bytes@.len() == 32,
    ensures
        r@ == scalar_mod_l_of(bytes@),
        r@.len() == 32,
        scalar_mod_l_of(r@) == r@,
{
    let s = curve25519_dalek::Scalar::from_bytes_mod_order(
        <[u8; 32]>::try_from(bytes.as_slice()).unwrap(),
    );
    s.to_bytes().to_vec()
}

/// Relies on curve25519_dalek::Scalar addition: the canonical form of
/// (a + b) mod the group order. The last clause is the group law the
/// crate documents: multiplying the basepoint by a sum of scalars equals
/// adding the two scalar multiples, so (a + b) * B compresses to the same
/// bytes as decompress(compress(a * B)) + b * B.
#[verifier::external_body]
pub(crate) fn scalar_add(a: &Vec<u8>, b: &Vec<u8>) -> (r: Vec<u8>)
    requires
        a@.len() == 32,
        b@.len() == 32,
    ensures
        r@ == scalar_add_of(a@, b@),
        r@.len() == 32,
        scalar_mod_l_of(r@) == r@,
        ed_base_mul_of(r@) == ed_tweak_add_of(ed_base_mul_of(a@), b@),
{
    let x = curve25519_dalek::Scalar::from_bytes_mod_order(<[u8; 32]>::try_from(a.as_slice()).unwrap());
    let y = curve25519_dalek::Scalar::from_bytes_mod_order(<[u8; 32]>::try_from(b.as_slice()).unwrap());
    (x + y).to_bytes().to_vec()
}

/// Relies on curve25519_dalek's ED25519_BASEPOINT_TABLE multiplication and
/// Edwards compression: the compressed form of scalar * basepoint. A
/// freshly compressed point decompresses again.
#[verifier::external_body]
pub(crate) fn ed_base_mul(scalar: &Vec<u8>) -> (r: Vec<u8>)
    requires
        scalar@.len() == 32,
    ensures
        r@ == ed_base_mul_of(scalar@),
        r@.len() == 32,
        ed_decompressable(r@),
{
    let s = curve25519_dalek::Scalar::from_bytes_mod_order(
        <[u8; 32]>::try_from(scalar.as_slice()).unwrap(),
    );
    let p = curve25519_dalek::constants::ED25519_BASEPOINT_TABLE * &s;
    p.compress().to_bytes().to_vec()
}

/// Relies on curve25519_dalek Edwards decompression, point addition and
/// basepoint multiplication: compress(decompress(point) + scalar *
/// basepoint). Fails exactly when `point` does not decompress; a freshly
/// compressed point decompresses again.
#[verifier::external_body]
pub(crate) fn ed_tweak_add(point: &Vec<u8>, scalar: &Vec<u8>) -> (r: Result<
    Vec<u8>,
    MithrasError,
>)
    requires
        point@.len() == 32,
        scalar@.len() == 32,
    ensures
        r is Ok <==> ed_decompressable(point@),
        r matches Ok(p) ==> p@ == ed_tweak_add_of(point@, scalar@) && p@.len() == 32
            && ed_decompressable(p@),
        r matches Err(e) ==> e == MithrasError::CurvePointDecompression,
{
    let c = curve25519_dalek::edwards::CompressedEdwardsY::from_slice(point.as_slice()).unwrap();
    let p = match c.decompress() {
        Some(p) => p,
        None => return Err(MithrasError::CurvePointDecompression),
    };
    let s = curve25519_dalek::Scalar::from_bytes_mod_order(
        <[u8; 32]>::try_from(scalar.as_slice()).unwrap(),
    );
    let t = p + curve25519_dalek::constants::ED25519_BASEPOINT_TABLE * &s;
    Ok(t.compress().to_bytes().to_vec())
}

/// Relies on ed25519_dalek::VerifyingKey::from_bytes, which accepts exactly
/// the 32-byte strings that decompress to a curve point.
#[verifier::external_body]
pub(crate) fn ed_point_valid(point: &Vec<u8>) -> (r: bool)
    requires
        point@.len() == 32,
    ensures
        r == ed_decompressable(point@),
{
    ed25519_dalek::VerifyingKey::from_bytes(&<[u8; 32]>::try_from(point.as_slice()).unwrap())
        .is_ok()
}

/// Relies on ed25519_dalek::hazmat::raw_sign with SHA-512: the standard,
/// deterministic Ed25519 signature from the expanded secret (scalar,
/// prefix), binding the given verifying key.
#[verifier::external_body]
pub(crate) fn ed_raw_sign(scalar: &Vec<u8>, prefix: &Vec<u8>, public: &Vec<u8>, msg: &Vec<u8>) -> (r:
    Vec<u8>)
    requires
        scalar@.len() == 32,
        prefix@.len() == 32,
        public@.len() == 32,
        ed_decompressable(public@),
    ensures
        r@ == ed_sign_of(scalar@, prefix@, public@, msg@),
        r@.len() == 64,
{
    let esk = ed25519_dalek::hazmat::ExpandedSecretKey {
        scalar: curve25519_dalek::Scalar::from_bytes_mod_order(
            <[u8; 32]>::try_from(scalar.as_slice()).unwrap(),
        ),
        hash_prefix: <[u8; 32]>::try_from(prefix.as_slice()).unwrap(),
    };
    let vk = ed25519_dalek::VerifyingKey::from_bytes(
        &<[u8; 32]>::try_from(public.as_slice()).unwrap(),
    ).unwrap();
    ed25519_dalek::hazmat::raw_sign::<sha2::Sha512>(&esk, msg.as_slice(), &vk).to_bytes().to_vec()
}

/// Relies on ed25519_dalek::VerifyingKey::verify: standard Ed25519
/// verification. The last clause is RFC 8032 correctness, which the crate
/// documents: a signature raw_sign produced under a verifying key that
/// matches its scalar is accepted.
#[verifier::external_body]
pub(crate) fn ed_verify(public: &Vec<u8>, msg: &Vec<u8>, sig: &Vec<u8>) -> (r: bool)
    requires
        public@.len() == 32,
        sig@.len() == 64,
        ed_decompressable(public@),
    ensures
        r == ed_verify_of(public@, msg@, sig@),
        (exists|sc: Seq<u8>, pf: Seq<u8>|
            sig@ == ed_sign_of(sc, pf, public@, msg@) && public@ == ed_base_mul_of(sc)) ==> r,
{
    let vk = ed25519_dalek::VerifyingKey::from_bytes(
        &<[u8; 32]>::try_from(public.as_slice()).unwrap(),
    ).unwrap();
    let s = ed25519_dalek::Signature::from_bytes(&<[u8; 64]>::try_from(sig.as_slice()).unwrap());
    ed25519_dalek::Verifier::verify(&vk, msg.as_slice(), &s).is_ok()
}

/// Relies on hpke_rs::Hpke::seal in base mode with the X25519-HKDF-SHA-256
/// KEM, HKDF-SHA-512 and ChaCha20-Poly1305: a fresh 32-byte KEM
/// encapsulation and the AEAD ciphertext with its 16-byte tag. The round
/// trip clause is RFC 9180 correctness, which the crate documents: open
/// under the private key of the recipient with the same info and aad
/// yields the plaintext back.
#[verifier::external_body]
pub(crate) fn hpke_seal(recipient_pub: &Vec<u8>, info: &Vec<u8>, aad: &Vec<u8>, pt: &Vec<u8>) -> (r:
    Result<(Vec<u8>, Vec<u8>), MithrasError>)
    requires
        recipient_pub@.len() == 32,
    ensures
        r matches Ok(p) ==> p.0@.len() == 32 && p.1@.len() == pt@.len() + 16,
        r matches Ok(p) ==> forall|sk: Seq<u8>|
            sk.len() == 32 && recipient_pub@ == x25519_base_of(sk) ==> hpke_open_of(
                p.0@,
                sk,
                info@,
                aad@,
                p.1@,
            ) == Some(pt@),
        r matches Err(e) ==> e == MithrasError::HpkeOperation,
{
    let mut hpke = hpke_rs::Hpke::<hpke_rs_libcrux::HpkeLibcrux>::new(
        hpke_rs::Mode::Base,
        hpke_rs::hpke_types::KemAlgorithm::DhKem25519,
        hpke_rs::hpke_types::KdfAlgorithm::HkdfSha512,
        hpke_rs::hpke_types::AeadAlgorithm::ChaCha20Poly1305,
    );
    let pk = hpke_rs::HpkePublicKey::new(recipient_pub.clone());
    match hpke.seal(&pk, info.as_slice(), aad.as_slice(), pt.as_slice(), None, None, None) {
        Ok((enc, ct)) => Ok((enc, ct)),
        Err(_) => Err(MithrasError::HpkeOperation),
    }
}

/// Relies on hpke_rs::Hpke::open with the same suite: deterministic in its
/// inputs; yields the plaintext exactly when decapsulation and the AEAD
/// tag over the aad succeed, and the plaintext is the ciphertext without
/// its 16-byte tag.
#[verifier::external_body]
pub(crate) fn hpke_open(
    enc: &Vec<u8>,
    recipient_priv: &Vec<u8>,
    info: &Vec<u8>,
    aad: &Vec<u8>,
    ct: &Vec<u8>,
) -> (r: Result<Vec<u8>, MithrasError>)
    requires
        recipient_priv@.len() == 32,
    ensures
        r matches Ok(p) ==> hpke_open_of(enc@, recipient_priv@, info@, aad@, ct@) == Some(p@)
            && p@.len() + 16 == ct@.len(),
        r is Err ==> hpke_open_of(enc@, recipient_priv@, info@, aad@, ct@) is None,
        r matches Err(e) ==> e == MithrasError::HpkeOperation,
{
    let hpke = hpke_rs::Hpke::<hpke_rs_libcrux::HpkeLibcrux>::new(
        hpke_rs::Mode::Base,
        hpke_rs::hpke_types::KemAlgorithm::DhKem25519,
        hpke_rs::hpke_types::KdfAlgorithm::HkdfSha512,
        hpke_rs::hpke_types::AeadAlgorithm::ChaCha20Poly1305,
    );
    let sk = hpke_rs::HpkePrivateKey::new(recipient_priv.clone());
    match hpke.open(enc.as_slice(), &sk, info.as_slice(), aad.as_slice(), ct.as_slice(), None, None, None) {
        Ok(pt) => Ok(pt),
        Err(_) => Err(MithrasError::HpkeOperation),
    }
}

/// Relies on bech32::encode::<Bech32m>: the checksummed bech32m string for
/// the prefix and payload. Encoding fails only when the whole code would
/// exceed the checksum's 1023-character limit, which a payload of up to
/// 512 bytes under this prefix cannot reach.
#[verifier::external_body]
pub(crate) fn bech32m_encode(hrp: &str, data: &Vec<u8>) -> (r: Result<String, MithrasError>)
    requires
        hrp@ == "mith"@,
    ensures
        r matches Ok(s) ==> s@ == bech32m_of(hrp@, data@),
        data@.len() <= 512 ==> r is Ok,
        r matches Err(e) ==> e == MithrasError::AddressEncoding,
{
    match bech32::encode::<bech32::Bech32m>(bech32::Hrp::parse_unchecked(hrp), data.as_slice()) {
        Ok(s) => Ok(s),
        Err(_) => Err(MithrasError::AddressEncoding),
    }
}

/// Relies on bech32::decode: accepts exactly the strings carrying a valid
/// checksum and returns their prefix and payload; in particular a string
/// equal to a bech32m encoding yields that encoding's prefix and payload
/// back.
#[verifier::external_body]
pub(crate) fn bech32_decode(s: &str) -> (r: Result<(String, Vec<u8>), MithrasError>)
    ensures
        r matches Ok(p) ==> bech32_decode_of(s@) == Some((p.0@, p.1@)),
        r is Ok <==> bech32_decode_of(s@) is Some,
        r matches Err(e) ==> e == MithrasError::AddressBech32,
        (exists|h: Seq<char>, d: Seq<u8>| s@ == bech32m_of(h, d)) ==> r is Ok,
        r matches Ok(p) ==> forall|h: Seq<char>, d: Seq<u8>|
            s@ == bech32m_of(h, d) ==> p.0@ == h && p.1@ == d,
{
    match bech32::decode(s) {
        Ok((hrp, data)) => Ok((hrp.to_string(), data)),
        Err(_) => Err(MithrasError::AddressBech32),
    }
}

} // verus!
