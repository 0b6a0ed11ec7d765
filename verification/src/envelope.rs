//! The on-chain note envelope: fixed wire layout, codec, and the
//! discovery fast-path check.
use vstd::prelude::*;

use crate::bytes::{append_bytes, bytes_eq, sub_bytes};
use crate::discovery::{compute_discovery_secret_receiver, compute_discovery_tag, spec_discovery_tag};
use crate::errors::MithrasError;
use crate::metadata::{spec_suite_byte, SupportedHpkeSuite, TransactionMetadata};
use crate::primitives::x25519_of;

verus! {

/// Width of the fixed secret payload carried inside the envelope.
pub const SECRET_SIZE: usize = 136;

/// Width of the AEAD ciphertext: the payload plus its 16-byte tag.
pub const CIPHER_TEXT_SIZE: usize = SECRET_SIZE + 16;

/// Width of the whole envelope on the wire: version and suite bytes, the
/// 32-byte KEM encapsulation, the ciphertext, the 32-byte discovery tag
/// and the 32-byte discovery ephemeral.
pub const ENVELOPE_SIZE: usize = 2 + 32 + CIPHER_TEXT_SIZE + 32 + 32;

/// The envelope version whose payload schema this library knows.
pub const ENVELOPE_VERSION: u8 = 1;

/// The on-chain record carrying everything a recipient needs to detect,
/// authenticate and decrypt one note.
#[derive(Clone, Debug)]
pub struct HpkeEnvelope {
    /// Selects the plaintext schema.
    pub version: u8,
    /// The HPKE suite the note was sealed under.
    pub suite: SupportedHpkeSuite,
    /// The KEM encapsulated key (32 bytes).
    pub encapsulated_key: Vec<u8>,
    /// AEAD ciphertext with its tag (CIPHER_TEXT_SIZE bytes).
    pub ciphertext: Vec<u8>,
    /// The symmetric discovery tag (32 bytes).
    pub discovery_tag: Vec<u8>,
    /// The X25519 ephemeral public key the discovery secret was derived
    /// against (32 bytes). Carried separately because the KEM draws its
    /// own ephemeral internally.
    pub discovery_ephemeral: Vec<u8>,
}

/// The wire bytes of an envelope, field by field at fixed offsets.
pub open spec fn spec_envelope_bytes(e: HpkeEnvelope) -> Seq<u8> {
    seq![e.version, spec_suite_byte(e.suite)] + e.encapsulated_key@ + e.ciphertext@
        + e.discovery_tag@ + e.discovery_ephemeral@
}

/// Whether the envelope `e` is what the wire bytes `b` describe.
pub open spec fn spec_envelope_parses_to(b: Seq<u8>, e: HpkeEnvelope) -> bool {
    &&& b.len() == ENVELOPE_SIZE
    &&& e.version == b[0]
    &&& spec_suite_byte(e.suite) == b[1]
    &&& e.encapsulated_key@ == b.subrange(2, 34)
    &&& e.ciphertext@ == b.subrange(34, 34 + CIPHER_TEXT_SIZE as int)
    &&& e.discovery_tag@ == b.subrange(34 + CIPHER_TEXT_SIZE as int, 66 + CIPHER_TEXT_SIZE as int)
    &&& e.discovery_ephemeral@ == b.subrange(
        66 + CIPHER_TEXT_SIZE as int,
        98 + CIPHER_TEXT_SIZE as int,
    )
}

impl HpkeEnvelope {
    /// The fields have their documented widths and the version is the one
    /// this library knows.
    pub open spec fn wf(&self) -> bool {
        &&& self.version == ENVELOPE_VERSION
        &&& self.encapsulated_key@.len() == 32
        &&& self.ciphertext@.len() == CIPHER_TEXT_SIZE
        &&& self.discovery_tag@.len() == 32
        &&& self.discovery_ephemeral@.len() == 32
    }

    /// Serialize to the fixed wire layout.
    pub fn to_bytes(&self) -> (r: Vec<u8>)
        requires
            self.wf(),
        ensures
            r@ == spec_envelope_bytes(*self),
            r@.len() == ENVELOPE_SIZE,
    {
        let mut r: Vec<u8> = Vec::new();
        r.push(self.version);
        r.push(self.suite.byte());
        append_bytes(&mut r, &self.encapsulated_key);
        append_bytes(&mut r, &self.ciphertext);
        append_bytes(&mut r, &self.discovery_tag);
        append_bytes(&mut r, &self.discovery_ephemeral);
        proof {
            assert(r@ =~= spec_envelope_bytes(*self));
        }
        r
    }

    /// Parse the fixed wire layout. Succeeds exactly on a blob of the
    /// documented width whose version and suite bytes are known.
    pub fn from_bytes(b: &Vec<u8>) -> (r: Result<HpkeEnvelope, MithrasError>)
        ensures
            r is Ok <==> (b@.len() == ENVELOPE_SIZE && b@[0] == ENVELOPE_VERSION && b@[1] == 0),
            r matches Ok(e) ==> e.wf() && spec_envelope_parses_to(b@, e),
            b@.len() != ENVELOPE_SIZE ==> (r matches Err(e) && e
                == MithrasError::EnvelopeWrongLength),
            b@.len() == ENVELOPE_SIZE && b@[0] != ENVELOPE_VERSION ==> (r matches Err(e) && e
                == MithrasError::EnvelopeUnknownVersion),
            b@.len() == ENVELOPE_SIZE && b@[0] == ENVELOPE_VERSION && b@[1] != 0 ==> (r matches Err(
                e,
            ) && e == MithrasError::EnvelopeUnknownSuite),
    {
        if b.len() != ENVELOPE_SIZE {
            return Err(MithrasError::EnvelopeWrongLength);
        }
        let version = *b.get(0).unwrap();
        if version != ENVELOPE_VERSION {
            return Err(MithrasError::EnvelopeUnknownVersion);
        }
        let suite = match SupportedHpkeSuite::from_byte(*b.get(1).unwrap()) {
            Some(s) => s,
            None => { return Err(MithrasError::EnvelopeUnknownSuite); },
        };
        let encapsulated_key = sub_bytes(b, 2, 34);
        let ciphertext = sub_bytes(b, 34, 34 + CIPHER_TEXT_SIZE);
        let discovery_tag = sub_bytes(b, 34 + CIPHER_TEXT_SIZE, 66 + CIPHER_TEXT_SIZE);
        let discovery_ephemeral = sub_bytes(b, 66 + CIPHER_TEXT_SIZE, 98 + CIPHER_TEXT_SIZE);
        Ok(HpkeEnvelope { version, suite, encapsulated_key, ciphertext, discovery_tag, discovery_ephemeral })
    }

    /// The discovery fast path: recompute the tag from the receiver's
    /// discovery private key and the envelope's ephemeral, and compare
    /// against the carried tag. True exactly when the tags agree.
    pub fn discovery_check(&self, discovery_private: &Vec<u8>, meta: &TransactionMetadata) -> (r:
        bool)
        requires
            self.wf(),
            discovery_private@.len() == 32,
            meta.wf(),
        ensures
            r == (spec_discovery_tag(
                x25519_of(discovery_private@, self.discovery_ephemeral@),
                meta.sender@,
                meta.first_valid,
                meta.last_valid,
                meta.lease@,
            ) == self.discovery_tag@),
    {
        let s = compute_discovery_secret_receiver(discovery_private, &self.discovery_ephemeral);
        let tag = compute_discovery_tag(&s, &meta.sender, meta.first_valid, meta.last_valid, &meta.lease);
        bytes_eq(&tag, &self.discovery_tag)
    }
}

/// Envelope round trip: encoding a well-formed envelope yields exactly
/// ENVELOPE_SIZE bytes that parse back to the same envelope, and nothing
/// else parses from those bytes.
pub proof fn lemma_envelope_round_trip(e: HpkeEnvelope)
    requires
        e.wf(),
    ensures
        spec_envelope_bytes(e).len() == ENVELOPE_SIZE,
        spec_envelope_parses_to(spec_envelope_bytes(e), e),
        forall|e2: HpkeEnvelope|
            spec_envelope_parses_to(spec_envelope_bytes(e), e2) ==> e2.version == e.version
                && e2.suite == e.suite && e2.encapsulated_key@ == e.encapsulated_key@
                && e2.ciphertext@ == e.ciphertext@ && e2.discovery_tag@ == e.discovery_tag@
                && e2.discovery_ephemeral@ == e.discovery_ephemeral@,
{
    let b = spec_envelope_bytes(e);
    assert(b.subrange(2, 34) =~= e.encapsulated_key@);
    assert(b.subrange(34, 34 + CIPHER_TEXT_SIZE as int) =~= e.ciphertext@);
    assert(b.subrange(34 + CIPHER_TEXT_SIZE as int, 66 + CIPHER_TEXT_SIZE as int)
        =~= e.discovery_tag@);
    assert(b.subrange(66 + CIPHER_TEXT_SIZE as int, 98 + CIPHER_TEXT_SIZE as int)
        =~= e.discovery_ephemeral@);
}

} // verus!
