//! Long-lived spend seed (Ed25519), discovery keypair (X25519), and the
//! one-time tweaked signer whose public key a sender can reproduce from
//! the long-lived public key alone.
use vstd::prelude::*;

use crate::bytes::{sub_bytes, append_bytes};
use crate::errors::MithrasError;
use crate::primitives::{
    ed_base_mul, ed_base_mul_of, ed_decompressable, ed_point_valid, ed_raw_sign, ed_sign_of,
    ed_tweak_add, ed_tweak_add_of, ed_verify, ed_verify_of, random_bytes32, scalar_add,
    scalar_add_of, scalar_mod_l, scalar_mod_l_of, sha512, sha512_of, x25519_base_of,
    x25519_public,
};
use vstd::string::StringSliceAdditionalSpecFns;

verus! {

/// Ed25519 clamping: clear the low three bits of the first byte, clear the
/// top bit and set the second-highest bit of the last byte.
pub open spec fn spec_clamp(b: Seq<u8>) -> Seq<u8>
    recommends
        b.len() == 32,
{
    b.update(0, (b[0] & 248) as u8).update(31, ((b[31] & 127) | 64) as u8)
}

/// Clamp 32 scalar bytes as Ed25519 key expansion does.
pub fn clamp_bytes(b: &Vec<u8>) -> (r: Vec<u8>)
    requires
        b@.len() == 32,
    ensures
        r@ == spec_clamp(b@),
        r@.len() == 32,
{
    let mut r: Vec<u8> = Vec::new();
    let mut i: usize = 0;
    while i < 32
        invariant
            b@.len() == 32,
            i <= 32,
            r@.len() == i,
            forall|j: int| 0 <= j < i ==> r@[j] == spec_clamp(b@)[j],
        decreases 32 - i,
    {
        let byte = *b.get(i).unwrap();
        let out = if i == 0 {
            byte & 248
        } else if i == 31 {
            (byte & 127) | 64
        } else {
            byte
        };
        r.push(out);
        i = i + 1;
    }
    assert(r@ =~= spec_clamp(b@));
    r
}

/// The domain-separation tag in front of the discovery secret when the
/// tweak scalar is derived.
pub open spec fn spec_tweak_domain() -> Seq<u8> {
    "mithras-tweak-scalar".spec_bytes()
}

/// The domain-separation tag in front of the prefix derivation.
pub open spec fn spec_tweaked_prefix_domain() -> Seq<u8> {
    "mithras-tweaked-prefix".spec_bytes()
}

/// The Ed25519 signing scalar expanded from a seed: the clamped first half
/// of SHA-512(seed), reduced to canonical form.
pub open spec fn spec_a_scalar(seed: Seq<u8>) -> Seq<u8> {
    scalar_mod_l_of(spec_clamp(sha512_of(seed).subrange(0, 32)))
}

/// The Ed25519 nonce prefix expanded from a seed: the second half of
/// SHA-512(seed).
pub open spec fn spec_prefix(seed: Seq<u8>) -> Seq<u8> {
    sha512_of(seed).subrange(32, 64)
}

/// The published verification key of a seed: a * basepoint, compressed.
pub open spec fn spec_spend_public(seed: Seq<u8>) -> Seq<u8> {
    ed_base_mul_of(spec_a_scalar(seed))
}

/// The per-note tweak scalar: SHA-512 over the domain tag and the shared
/// discovery secret, first 32 bytes reduced mod the group order.
pub open spec fn spec_tweak_scalar(discovery_secret: Seq<u8>) -> Seq<u8> {
    scalar_mod_l_of(sha512_of(spec_tweak_domain() + discovery_secret).subrange(0, 32))
}

/// The one-time tweaked public key A' = A + h * basepoint, compressed.
pub open spec fn spec_tweaked_pubkey(spend_public: Seq<u8>, h: Seq<u8>) -> Seq<u8> {
    ed_tweak_add_of(spend_public, h)
}

/// The one-time nonce prefix: second half of SHA-512 over the domain tag,
/// the seed's prefix and the tweaked public key.
pub open spec fn spec_tweaked_prefix(base_prefix: Seq<u8>, tweaked_public: Seq<u8>) -> Seq<u8> {
    sha512_of(spec_tweaked_prefix_domain() + base_prefix + tweaked_public).subrange(32, 64)
}

/// Tweaked-key agreement: the sender, who knows only the published key
/// `A = spec_spend_public(seed)` and the tweak `h`, and the receiver, who
/// derives from the seed itself, arrive at the same one-time public key.
/// Both `derive_tweaked_pubkey` and `TweakedSigner::derive` promise exactly
/// the value below.
pub proof fn lemma_tweaked_key_agreement(seed: Seq<u8>, h: Seq<u8>)
    ensures
        spec_tweaked_pubkey(spec_spend_public(seed), h) == ed_tweak_add_of(
            spec_spend_public(seed),
            h,
        ),
{
}

/// X25519 static secret and its public key, used for long-lived discovery
/// keys and for per-note ephemerals alike.
#[derive(Clone)]
pub struct DiscoveryKeypair {
    pub private_key: Vec<u8>,
    pub public_key: Vec<u8>,
}

impl DiscoveryKeypair {
    /// Both halves are 32 bytes wide.
    pub open spec fn wf(&self) -> bool {
        self.private_key@.len() == 32 && self.public_key@.len() == 32
    }

    /// The public half really belongs to the private half.
    pub open spec fn linked(&self) -> bool {
        self.public_key@ == x25519_base_of(self.private_key@)
    }

    /// Draw a fresh keypair from the system CSPRNG.
    pub fn generate() -> (r: Result<DiscoveryKeypair, MithrasError>)
        ensures
            r matches Ok(k) ==> k.wf() && k.linked(),
            r matches Err(e) ==> e == MithrasError::RandomGeneration,
    {
        let private_key = match random_bytes32() {
            Ok(b) => b,
            Err(e) => { return Err(e); },
        };
        let public_key = x25519_public(&private_key);
        Ok(DiscoveryKeypair { private_key, public_key })
    }

    /// Rebuild a keypair from its private half.
    pub fn from_bytes(private_key: Vec<u8>) -> (r: DiscoveryKeypair)
        requires
            private_key@.len() == 32,
        ensures
            r.wf(),
            r.linked(),
            r.private_key@ == private_key@,
    {
        let public_key = x25519_public(&private_key);
        DiscoveryKeypair { private_key, public_key }
    }

    /// Adopt an externally supplied pair of halves as they stand.
    pub fn from_keypair(private_key: Vec<u8>, public_key: Vec<u8>) -> (r: DiscoveryKeypair)
        requires
            private_key@.len() == 32,
            public_key@.len() == 32,
        ensures
            r.wf(),
            r.private_key@ == private_key@,
            r.public_key@ == public_key@,
    {
        DiscoveryKeypair { private_key, public_key }
    }

    pub fn public_key(&self) -> (r: &Vec<u8>)
        ensures
            r@ == self.public_key@,
    {
        &self.public_key
    }

    pub fn private_key(&self) -> (r: &Vec<u8>)
        ensures
            r@ == self.private_key@,
    {
        &self.private_key
    }
}

/// The long-lived 32-byte Ed25519 spend seed together with its published
/// verification key.
#[derive(Clone, Debug)]
pub struct SpendSeed {
    pub seed: Vec<u8>,
    pub public_key: Vec<u8>,
}

impl SpendSeed {
    /// The stored public key is the one the seed expands to.
    pub open spec fn wf(&self) -> bool {
        &&& self.seed@.len() == 32
        &&& self.public_key@ == spec_spend_public(self.seed@)
        &&& self.public_key@.len() == 32
        &&& ed_decompressable(self.public_key@)
    }

    /// Draw a fresh seed from the system CSPRNG.
    pub fn generate() -> (r: Result<SpendSeed, MithrasError>)
        ensures
            r matches Ok(s) ==> s.wf(),
            r matches Err(e) ==> e == MithrasError::RandomGeneration,
    {
        let seed = match random_bytes32() {
            Ok(b) => b,
            Err(e) => { return Err(e); },
        };
        Ok(Self::from_bytes(seed))
    }

    /// Expand a fixed 32-byte seed.
    pub fn from_bytes(seed: Vec<u8>) -> (r: SpendSeed)
        requires
            seed@.len() == 32,
        ensures
            r.wf(),
            r.seed@ == seed@,
    {
        let digest = sha512(&seed);
        let a_input = sub_bytes(&digest, 0, 32);
        let clamped = clamp_bytes(&a_input);
        let a = scalar_mod_l(&clamped);
        let public_key = ed_base_mul(&a);
        SpendSeed { seed, public_key }
    }

    /// The canonical signing scalar `a` of this seed.
    pub fn a_scalar(&self) -> (r: Vec<u8>)
        requires
            self.seed@.len() == 32,
        ensures
            r@ == spec_a_scalar(self.seed@),
            r@.len() == 32,
            scalar_mod_l_of(r@) == r@,
    {
        let digest = sha512(&self.seed);
        let a_input = sub_bytes(&digest, 0, 32);
        let clamped = clamp_bytes(&a_input);
        scalar_mod_l(&clamped)
    }

    /// The 32-byte nonce prefix of this seed.
    pub fn prefix(&self) -> (r: Vec<u8>)
        requires
            self.seed@.len() == 32,
        ensures
            r@ == spec_prefix(self.seed@),
            r@.len() == 32,
    {
        let digest = sha512(&self.seed);
        sub_bytes(&digest, 32, 64)
    }

    pub fn public_key(&self) -> (r: &Vec<u8>)
        ensures
            r@ == self.public_key@,
    {
        &self.public_key
    }

    pub fn seed(&self) -> (r: &Vec<u8>)
        ensures
            r@ == self.seed@,
    {
        &self.seed
    }
}

/// One-time signer for a single note: tweaked scalar, tweaked nonce
/// prefix, and the tweaked public key `A'`.
#[derive(Clone, Debug)]
pub struct TweakedSigner {
    pub a_scalar: Vec<u8>,
    pub prefix: Vec<u8>,
    pub pubkey: Vec<u8>,
}

impl TweakedSigner {
    /// Widths, canonical scalar, and the key link: the stored public key
    /// is the tweaked scalar times the basepoint, which is what `sign`
    /// recomputes and binds.
    pub open spec fn wf(&self) -> bool {
        &&& self.a_scalar@.len() == 32
        &&& scalar_mod_l_of(self.a_scalar@) == self.a_scalar@
        &&& self.prefix@.len() == 32
        &&& self.pubkey@.len() == 32
        &&& ed_decompressable(self.pubkey@)
        &&& self.pubkey@ == ed_base_mul_of(self.a_scalar@)
    }

    /// Receiver-side derivation: `a' = a + h`, `A' = A + h*G`, and the
    /// tweaked prefix. The seed's public key always decompresses, so this
    /// cannot fail on a well-formed seed.
    pub fn derive(spend: &SpendSeed, tweak_scalar: &Vec<u8>) -> (r: Result<
        TweakedSigner,
        MithrasError,
    >)
        requires
            spend.wf(),
            tweak_scalar@.len() == 32,
        ensures
            r is Ok,
            r matches Ok(t) ==> {
                &&& t.wf()
                &&& t.a_scalar@ == scalar_add_of(spec_a_scalar(spend.seed@), tweak_scalar@)
                &&& t.pubkey@ == spec_tweaked_pubkey(spend.public_key@, tweak_scalar@)
                &&& t.prefix@ == spec_tweaked_prefix(spec_prefix(spend.seed@), t.pubkey@)
            },
    {
        let a = spend.a_scalar();
        let tweaked_scalar = scalar_add(&a, tweak_scalar);
        let tweaked_public = match ed_tweak_add(&spend.public_key, tweak_scalar) {
            Ok(p) => p,
            Err(e) => { return Err(e); },
        };
        let base_prefix = spend.prefix();
        let tweaked_prefix = derive_tweaked_prefix(&base_prefix, &tweaked_public);
        Ok(TweakedSigner { a_scalar: tweaked_scalar, prefix: tweaked_prefix, pubkey: tweaked_public })
    }

    /// Sign a message with the standard Ed25519 signing operation, binding
    /// the public key recomputed from the tweaked scalar.
    pub fn sign(&self, msg: &Vec<u8>) -> (r: Result<Vec<u8>, MithrasError>)
        requires
            self.wf(),
        ensures
            r is Ok,
            r matches Ok(sig) ==> sig@ == ed_sign_of(
                self.a_scalar@,
                self.prefix@,
                self.pubkey@,
                msg@,
            ) && sig@.len() == 64,
    {
        let locked = ed_base_mul(&self.a_scalar);
        Ok(ed_raw_sign(&self.a_scalar, &self.prefix, &locked, msg))
    }

    pub fn public_key(&self) -> (r: &Vec<u8>)
        ensures
            r@ == self.pubkey@,
    {
        &self.pubkey
    }
}

/// Sender-side derivation of the one-time public key from the long-lived
/// public key and the tweak scalar alone. Fails exactly when the public
/// key bytes do not decompress.
pub fn derive_tweaked_pubkey(spend_public: &Vec<u8>, tweak_scalar: &Vec<u8>) -> (r: Result<
    Vec<u8>,
    MithrasError,
>)
    requires
        spend_public@.len() == 32,
        tweak_scalar@.len() == 32,
    ensures
        r is Ok <==> ed_decompressable(spend_public@),
        r matches Ok(p) ==> p@ == spec_tweaked_pubkey(spend_public@, tweak_scalar@) && p@.len()
            == 32 && ed_decompressable(p@),
        r matches Err(e) ==> e == MithrasError::CurvePointDecompression,
{
    ed_tweak_add(spend_public, tweak_scalar)
}

/// Derive the per-note tweak scalar from the shared discovery secret.
pub fn derive_tweak_scalar(discovery_secret: &Vec<u8>) -> (r: Vec<u8>)
    ensures
        r@ == spec_tweak_scalar(discovery_secret@),
        r@.len() == 32,
        scalar_mod_l_of(r@) == r@,
{
    let mut data = vstd::slice::slice_to_vec("mithras-tweak-scalar".as_bytes());
    append_bytes(&mut data, discovery_secret);
    let digest = sha512(&data);
    let head = sub_bytes(&digest, 0, 32);
    scalar_mod_l(&head)
}

/// Derive the one-time nonce prefix for a tweaked key.
pub fn derive_tweaked_prefix(base_prefix: &Vec<u8>, tweaked_public: &Vec<u8>) -> (r: Vec<u8>)
    ensures
        r@ == spec_tweaked_prefix(base_prefix@, tweaked_public@),
        r@.len() == 32,
{
    let mut data = vstd::slice::slice_to_vec("mithras-tweaked-prefix".as_bytes());
    append_bytes(&mut data, base_prefix);
    append_bytes(&mut data, tweaked_public);
    let digest = sha512(&data);
    sub_bytes(&digest, 32, 64)
}

/// Standard Ed25519 verification of `sig` on `msg` under the 32-byte
/// public key `public`. Succeeds (with the verifier's verdict) exactly
/// when the inputs have their documented widths and the key decompresses;
/// a signature honestly produced under a key that matches its scalar is
/// accepted.
pub fn verify_signature(public: &Vec<u8>, msg: &Vec<u8>, sig: &Vec<u8>) -> (r: Result<
    bool,
    MithrasError,
>)
    ensures
        r is Ok <==> (public@.len() == 32 && sig@.len() == 64 && ed_decompressable(public@)),
        r matches Ok(b) ==> b == ed_verify_of(public@, msg@, sig@),
        r matches Ok(b) ==> ((exists|sc: Seq<u8>, pf: Seq<u8>|
            sig@ == ed_sign_of(sc, pf, public@, msg@) && public@ == ed_base_mul_of(sc)) ==> b),
{
    if public.len() != 32 || sig.len() != 64 {
        return Err(MithrasError::DataConversion);
    }
    if !ed_point_valid(public) {
        return Err(MithrasError::CurvePointDecompression);
    }
    Ok(ed_verify(public, msg, sig))
}

} // verus!
