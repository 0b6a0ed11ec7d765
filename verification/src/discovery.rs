//! The discovery fast path: the X25519 shared secret and the symmetric
//! discovery tag over transaction metadata.
use vstd::prelude::*;

use crate::bytes::append_bytes;
use crate::primitives::{
    hkdf_sha256_expand32, hkdf_sha256_of, hmac_sha256, hmac_sha256_of, x25519_base_of, x25519_dh,
    x25519_of,
};
use vstd::string::StringSliceAdditionalSpecFns;

verus! {

/// The info string under which the discovery-tag key is expanded from the
/// shared secret.
pub open spec fn spec_discovery_tag_info() -> Seq<u8> {
    "discovery-tag".spec_bytes()
}

/// The metadata bytes that the discovery tag authenticates: the sender's
/// 32-byte key, both validity bounds little-endian, and the 32-byte lease.
pub open spec fn spec_tag_data(sender: Seq<u8>, fv: u64, lv: u64, lease: Seq<u8>) -> Seq<u8> {
    sender + vstd::bytes::spec_u64_to_le_bytes(fv) + vstd::bytes::spec_u64_to_le_bytes(lv) + lease
}

/// The discovery tag: HMAC-SHA-256 under a key expanded from the shared
/// secret, over the metadata bytes. A function of the shared secret and
/// the metadata alone, so both ends of a note compute the same tag.
pub open spec fn spec_discovery_tag(s: Seq<u8>, sender: Seq<u8>, fv: u64, lv: u64, lease: Seq<u8>) -> Seq<u8> {
    hmac_sha256_of(hkdf_sha256_of(s, spec_discovery_tag_info()), spec_tag_data(sender, fv, lv, lease))
}

/// The tag's metadata encoding is injective: two metadata tuples with the
/// same tag data agree field for field. So changing the sender, either
/// validity bound, or the lease changes the bytes the discovery tag
/// authenticates.
pub proof fn lemma_tag_data_injective(
    sender1: Seq<u8>,
    fv1: u64,
    lv1: u64,
    lease1: Seq<u8>,
    sender2: Seq<u8>,
    fv2: u64,
    lv2: u64,
    lease2: Seq<u8>,
)
    requires
        sender1.len() == 32,
        sender2.len() == 32,
        lease1.len() == 32,
        lease2.len() == 32,
        spec_tag_data(sender1, fv1, lv1, lease1) == spec_tag_data(sender2, fv2, lv2, lease2),
    ensures
        sender1 == sender2,
        fv1 == fv2,
        lv1 == lv2,
        lease1 == lease2,
{
    vstd::bytes::lemma_auto_spec_u64_to_from_le_bytes();
    let d1 = spec_tag_data(sender1, fv1, lv1, lease1);
    let d2 = spec_tag_data(sender2, fv2, lv2, lease2);
    assert(d1.subrange(0, 32) =~= sender1);
    assert(d2.subrange(0, 32) =~= sender2);
    assert(d1.subrange(32, 40) =~= vstd::bytes::spec_u64_to_le_bytes(fv1));
    assert(d2.subrange(32, 40) =~= vstd::bytes::spec_u64_to_le_bytes(fv2));
    assert(d1.subrange(40, 48) =~= vstd::bytes::spec_u64_to_le_bytes(lv1));
    assert(d2.subrange(40, 48) =~= vstd::bytes::spec_u64_to_le_bytes(lv2));
    assert(d1.subrange(48, 80) =~= lease1);
    assert(d2.subrange(48, 80) =~= lease2);
    assert(vstd::bytes::spec_u64_from_le_bytes(vstd::bytes::spec_u64_to_le_bytes(fv1)) == fv1);
    assert(vstd::bytes::spec_u64_from_le_bytes(vstd::bytes::spec_u64_to_le_bytes(lv1)) == lv1);
}

/// Sender side: X25519 of the ephemeral private key and the recipient's
/// discovery public key. The last clause is key agreement: whenever the
/// discovery public key belongs to a private key `d`, the result equals
/// what the receiver computes from `d` and the ephemeral public key.
pub fn compute_discovery_secret_sender(ephemeral_private: &Vec<u8>, discovery_public: &Vec<u8>) -> (r: Vec<u8>)
    requires
        ephemeral_private@.len() == 32,
        discovery_public@.len() == 32,
    ensures
        r@ == x25519_of(ephemeral_private@, discovery_public@),
        r@.len() == 32,
        forall|d: Seq<u8>|
            d.len() == 32 && discovery_public@ == x25519_base_of(d) ==> r@ == x25519_of(
                d,
                x25519_base_of(ephemeral_private@),
            ),
{
    x25519_dh(ephemeral_private, discovery_public)
}

/// Receiver side: X25519 of the discovery private key and the note's
/// ephemeral public key. The last clause is key agreement, mirrored.
pub fn compute_discovery_secret_receiver(discovery_private: &Vec<u8>, ephemeral_public: &Vec<u8>) -> (r: Vec<u8>)
    requires
        discovery_private@.len() == 32,
        ephemeral_public@.len() == 32,
    ensures
        r@ == x25519_of(discovery_private@, ephemeral_public@),
        r@.len() == 32,
        forall|e: Seq<u8>|
            e.len() == 32 && ephemeral_public@ == x25519_base_of(e) ==> r@ == x25519_of(
                e,
                x25519_base_of(discovery_private@),
            ),
{
    x25519_dh(discovery_private, ephemeral_public)
}

/// Compute the discovery tag for a shared secret and the immutable
/// transaction metadata.
pub fn compute_discovery_tag(
    discovery_secret: &Vec<u8>,
    sender: &Vec<u8>,
    fv: u64,
    lv: u64,
    lease: &Vec<u8>,
) -> (r: Vec<u8>)
    requires
        sender@.len() == 32,
        lease@.len() == 32,
    ensures
        r@ == spec_discovery_tag(discovery_secret@, sender@, fv, lv, lease@),
        r@.len() == 32,
{
    let info = vstd::slice::slice_to_vec("discovery-tag".as_bytes());
    let tag_key = hkdf_sha256_expand32(discovery_secret, &info);
    let mut data = Vec::new();
    append_bytes(&mut data, sender);
    let fv_bytes = crate::bytes::u64_le_vec(fv);
    append_bytes(&mut data, &fv_bytes);
    let lv_bytes = crate::bytes::u64_le_vec(lv);
    append_bytes(&mut data, &lv_bytes);
    append_bytes(&mut data, lease);
    hmac_sha256(&tag_key, &data)
}

} // verus!
