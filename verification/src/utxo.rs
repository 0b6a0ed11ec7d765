//! The fixed-layout secret payload of a note, its codec, the receiver's
//! open path, and the sender's full note construction.
use vstd::prelude::*;

use crate::address::MithrasAddr;
use crate::bytes::{
    append_bytes, bytes_eq, spec_u64_be, spec_u64_from_be, sub_bytes, u64_be_vec, u64_from_be_vec,
};
use crate::discovery::{compute_discovery_secret_sender, compute_discovery_tag, spec_discovery_tag};
use crate::envelope::{HpkeEnvelope, CIPHER_TEXT_SIZE, ENVELOPE_VERSION, SECRET_SIZE};
use crate::errors::MithrasError;
use crate::keypairs::{
    derive_tweak_scalar, derive_tweaked_pubkey, spec_tweak_scalar, spec_tweaked_pubkey,
    DiscoveryKeypair,
};
use crate::metadata::{spec_aad, spec_info, SupportedHpkeSuite, TransactionMetadata};
use crate::primitives::{
    ed_decompressable, ed_point_valid, hpke_open, hpke_open_of, hpke_seal, random_bytes32,
    scalar_mod_l, scalar_mod_l_of, x25519_base_of, x25519_of,
};

verus! {

/// The secrets of one UTXO: what the payload of a note carries.
#[derive(Clone, Debug)]
pub struct UtxoSecrets {
    /// Blinding secret of the commitment (32 bytes).
    pub spending_secret: Vec<u8>,
    /// Secret behind the nullifier (32 bytes).
    pub nullifier_secret: Vec<u8>,
    /// The amount this UTXO is worth.
    pub amount: u64,
    /// The tweak scalar, canonical little-endian (32 bytes).
    pub tweak_scalar: Vec<u8>,
    /// The one-time tweaked public key, compressed (32 bytes).
    pub tweaked_pubkey: Vec<u8>,
}

/// The fixed 136-byte layout: spending secret, nullifier secret, amount
/// big-endian, tweak scalar, tweaked public key.
pub open spec fn spec_secret_bytes(s: UtxoSecrets) -> Seq<u8> {
    s.spending_secret@ + s.nullifier_secret@ + spec_u64_be(s.amount) + s.tweak_scalar@
        + s.tweaked_pubkey@
}

/// Whether the secrets `s` are what the payload bytes `b` describe.
pub open spec fn spec_secrets_parse_to(b: Seq<u8>, s: UtxoSecrets) -> bool {
    &&& b.len() == SECRET_SIZE
    &&& s.spending_secret@ == b.subrange(0, 32)
    &&& s.nullifier_secret@ == b.subrange(32, 64)
    &&& s.amount == spec_u64_from_be(b.subrange(64, 72))
    &&& s.tweak_scalar@ == scalar_mod_l_of(b.subrange(72, 104))
    &&& s.tweaked_pubkey@ == b.subrange(104, 136)
}

impl UtxoSecrets {
    /// Fixed widths, a canonical scalar, and a tweaked key that
    /// decompresses.
    pub open spec fn wf(&self) -> bool {
        &&& self.spending_secret@.len() == 32
        &&& self.nullifier_secret@.len() == 32
        &&& self.tweak_scalar@.len() == 32
        &&& scalar_mod_l_of(self.tweak_scalar@) == self.tweak_scalar@
        &&& self.tweaked_pubkey@.len() == 32
        &&& ed_decompressable(self.tweaked_pubkey@)
    }

    /// Serialize to the fixed payload layout.
    pub fn to_bytes(&self) -> (r: Vec<u8>)
        requires
            self.wf(),
        ensures
            r@ == spec_secret_bytes(*self),
            r@.len() == SECRET_SIZE,
    {
        let mut r: Vec<u8> = Vec::new();
        append_bytes(&mut r, &self.spending_secret);
        append_bytes(&mut r, &self.nullifier_secret);
        let amount = u64_be_vec(self.amount);
        append_bytes(&mut r, &amount);
        append_bytes(&mut r, &self.tweak_scalar);
        append_bytes(&mut r, &self.tweaked_pubkey);
        proof {
            assert(r@ =~= spec_secret_bytes(*self));
        }
        r
    }

    /// Parse the fixed payload layout. The scalar field is reduced to
    /// canonical form; the tweaked key must decompress.
    pub fn from_bytes(b: &Vec<u8>) -> (r: Result<UtxoSecrets, MithrasError>)
        ensures
            r is Ok <==> (b@.len() == SECRET_SIZE && ed_decompressable(b@.subrange(104, 136))),
            r matches Ok(s) ==> s.wf() && spec_secrets_parse_to(b@, s),
            b@.len() != SECRET_SIZE ==> (r matches Err(e) && e == MithrasError::DataConversion),
            b@.len() == SECRET_SIZE && !ed_decompressable(b@.subrange(104, 136)) ==> (
            r matches Err(e) && e == MithrasError::CurvePointDecompression),
    {
        if b.len() != SECRET_SIZE {
            return Err(MithrasError::DataConversion);
        }
        let spending_secret = sub_bytes(b, 0, 32);
        let nullifier_secret = sub_bytes(b, 32, 64);
        let amount_bytes = sub_bytes(b, 64, 72);
        let amount = u64_from_be_vec(&amount_bytes);
        let scalar_bytes = sub_bytes(b, 72, 104);
        let tweak_scalar = scalar_mod_l(&scalar_bytes);
        let tweaked_pubkey = sub_bytes(b, 104, 136);
        if !ed_point_valid(&tweaked_pubkey) {
            return Err(MithrasError::CurvePointDecompression);
        }
        Ok(UtxoSecrets { spending_secret, nullifier_secret, amount, tweak_scalar, tweaked_pubkey })
    }

    /// The receiver's open path: recompute info and aad from the
    /// metadata, open the envelope's ciphertext under the discovery
    /// private key, and parse the payload.
    pub fn from_hpke_envelope(
        hpke_envelope: HpkeEnvelope,
        discovery_keypair: DiscoveryKeypair,
        txn_metadata: &TransactionMetadata,
    ) -> (r: Result<UtxoSecrets, MithrasError>)
        requires
            hpke_envelope.wf(),
            discovery_keypair.wf(),
            txn_metadata.wf(),
        ensures
            r is Ok <==> (hpke_open_of(
                hpke_envelope.encapsulated_key@,
                discovery_keypair.private_key@,
                spec_info(txn_metadata.network, txn_metadata.app_id),
                spec_aad(
                    txn_metadata.sender@,
                    txn_metadata.first_valid,
                    txn_metadata.last_valid,
                    txn_metadata.lease@,
                ),
                hpke_envelope.ciphertext@,
            ) matches Some(p) && ed_decompressable(p.subrange(104, 136))),
            r matches Ok(s) ==> (hpke_open_of(
                hpke_envelope.encapsulated_key@,
                discovery_keypair.private_key@,
                spec_info(txn_metadata.network, txn_metadata.app_id),
                spec_aad(
                    txn_metadata.sender@,
                    txn_metadata.first_valid,
                    txn_metadata.last_valid,
                    txn_metadata.lease@,
                ),
                hpke_envelope.ciphertext@,
            ) matches Some(p) && spec_secrets_parse_to(p, s) && s.wf()),
            r matches Err(e) ==> e == MithrasError::HpkeOperation
                || e == MithrasError::CurvePointDecompression,
    {
        let info = txn_metadata.info();
        let aad = txn_metadata.aad();
        let pt = match hpke_open(
            &hpke_envelope.encapsulated_key,
            &discovery_keypair.private_key,
            &info,
            &aad,
            &hpke_envelope.ciphertext,
        ) {
            Ok(p) => p,
            Err(e) => { return Err(e); },
        };
        match UtxoSecrets::from_bytes(&pt) {
            Ok(s) => Ok(s),
            Err(_) => Err(MithrasError::CurvePointDecompression),
        }
    }
}

impl UtxoSecrets {
    /// The blinding secret, as the binding layer hands it out.
    pub fn spending_secret(&self) -> (r: &Vec<u8>)
        ensures
            r@ == self.spending_secret@,
    {
        &self.spending_secret
    }

    /// The nullifier secret, as the binding layer hands it out.
    pub fn nullifier_secret(&self) -> (r: &Vec<u8>)
        ensures
            r@ == self.nullifier_secret@,
    {
        &self.nullifier_secret
    }
}

impl PartialEq for UtxoSecrets {
    fn eq(&self, other: &Self) -> (r: bool) {
        bytes_eq(&self.spending_secret, &other.spending_secret) && bytes_eq(
            &self.nullifier_secret,
            &other.nullifier_secret,
        ) && self.amount == other.amount && bytes_eq(&self.tweak_scalar, &other.tweak_scalar)
            && bytes_eq(&self.tweaked_pubkey, &other.tweaked_pubkey)
    }
}

impl vstd::std_specs::cmp::PartialEqSpecImpl for UtxoSecrets {
    open spec fn obeys_eq_spec() -> bool {
        true
    }

    open spec fn eq_spec(&self, other: &Self) -> bool {
        &&& self.spending_secret@ == other.spending_secret@
        &&& self.nullifier_secret@ == other.nullifier_secret@
        &&& self.amount == other.amount
        &&& self.tweak_scalar@ == other.tweak_scalar@
        &&& self.tweaked_pubkey@ == other.tweaked_pubkey@
    }
}

/// Payload round trip: the bytes of well-formed secrets parse back to the
/// same secrets, and to nothing else.
pub proof fn lemma_secrets_round_trip(s: UtxoSecrets)
    requires
        s.wf(),
    ensures
        spec_secret_bytes(s).len() == SECRET_SIZE,
        spec_secrets_parse_to(spec_secret_bytes(s), s),
        forall|s2: UtxoSecrets|
            spec_secrets_parse_to(spec_secret_bytes(s), s2) ==> s2.spending_secret@
                == s.spending_secret@ && s2.nullifier_secret@ == s.nullifier_secret@ && s2.amount
                == s.amount && s2.tweak_scalar@ == s.tweak_scalar@ && s2.tweaked_pubkey@
                == s.tweaked_pubkey@,
{
    crate::bytes::lemma_u64_be_round_trip();
    vstd::bytes::lemma_auto_spec_u64_to_from_le_bytes();
    let b = spec_secret_bytes(s);
    assert(spec_u64_be(s.amount).len() == 8);
    assert(b.subrange(0, 32) =~= s.spending_secret@);
    assert(b.subrange(32, 64) =~= s.nullifier_secret@);
    assert(b.subrange(64, 72) =~= spec_u64_be(s.amount));
    assert(b.subrange(72, 104) =~= s.tweak_scalar@);
    assert(b.subrange(104, 136) =~= s.tweaked_pubkey@);
}

/// What a sender assembles for one note: the secrets it keeps, and the
/// envelope that goes on chain.
#[derive(Debug)]
pub struct UtxoInputs {
    pub secrets: UtxoSecrets,
    pub hpke_envelope: HpkeEnvelope,
}

impl UtxoInputs {
    /// Sender-side composition: draw a discovery ephemeral, derive the
    /// shared secret, tweak scalar, tweaked key and discovery tag, fill
    /// fresh spending and nullifier secrets, seal the payload, and
    /// assemble the envelope.
    ///
    /// On success there is an ephemeral scalar `eph` such that the
    /// envelope's discovery ephemeral is its public key and both the
    /// tweak scalar and the discovery tag are derived from the shared
    /// secret X25519(eph, receiver's discovery key); and whatever private
    /// key the receiver's discovery key belongs to opens the ciphertext
    /// back to exactly the payload of the returned secrets.
    pub fn generate(txn_metadata: &TransactionMetadata, amount: u64, receiver: &MithrasAddr) -> (r:
        Result<UtxoInputs, MithrasError>)
        requires
            txn_metadata.wf(),
            receiver.wf(),
        ensures
            r matches Ok(u) ==> {
                &&& u.secrets.wf()
                &&& u.hpke_envelope.wf()
                &&& u.secrets.amount == amount
                &&& u.hpke_envelope.version == ENVELOPE_VERSION
                &&& u.hpke_envelope.suite == SupportedHpkeSuite::Base25519Sha512ChaCha20Poly1305
                &&& u.secrets.tweaked_pubkey@ == spec_tweaked_pubkey(
                    receiver.spend_ed25519@,
                    u.secrets.tweak_scalar@,
                )
                &&& (exists|eph: Seq<u8>|
                    eph.len() == 32 && #[trigger] x25519_base_of(eph)
                        == u.hpke_envelope.discovery_ephemeral@ && u.secrets.tweak_scalar@
                        == spec_tweak_scalar(x25519_of(eph, receiver.disc_x25519@))
                        && u.hpke_envelope.discovery_tag@ == spec_discovery_tag(
                        x25519_of(eph, receiver.disc_x25519@),
                        txn_metadata.sender@,
                        txn_metadata.first_valid,
                        txn_metadata.last_valid,
                        txn_metadata.lease@,
                    ))
                &&& (forall|sk: Seq<u8>|
                    sk.len() == 32 && receiver.disc_x25519@ == x25519_base_of(sk)
                        ==> hpke_open_of(
                        u.hpke_envelope.encapsulated_key@,
                        sk,
                        spec_info(txn_metadata.network, txn_metadata.app_id),
                        spec_aad(
                            txn_metadata.sender@,
                            txn_metadata.first_valid,
                            txn_metadata.last_valid,
                            txn_metadata.lease@,
                        ),
                        u.hpke_envelope.ciphertext@,
                    ) == Some(spec_secret_bytes(u.secrets)))
            },
            r matches Err(e) ==> e == MithrasError::RandomGeneration
                || e == MithrasError::CurvePointDecompression || e == MithrasError::HpkeOperation,
            !ed_decompressable(receiver.spend_ed25519@) ==> r is Err,
    {
        let ephemeral_keypair = match DiscoveryKeypair::generate() {
            Ok(k) => k,
            Err(e) => { return Err(e); },
        };
        let discovery_secret = compute_discovery_secret_sender(
            &ephemeral_keypair.private_key,
            &receiver.disc_x25519,
        );
        let tweak_scalar = derive_tweak_scalar(&discovery_secret);
        let tweaked_pubkey = match derive_tweaked_pubkey(&receiver.spend_ed25519, &tweak_scalar) {
            Ok(p) => p,
            Err(e) => { return Err(e); },
        };
        let discovery_tag = compute_discovery_tag(
            &discovery_secret,
            &txn_metadata.sender,
            txn_metadata.first_valid,
            txn_metadata.last_valid,
            &txn_metadata.lease,
        );
        let spending_secret = match random_bytes32() {
            Ok(b) => b,
            Err(e) => { return Err(e); },
        };
        let nullifier_secret = match random_bytes32() {
            Ok(b) => b,
            Err(e) => { return Err(e); },
        };
        let secrets = UtxoSecrets {
            spending_secret,
            nullifier_secret,
            amount,
            tweak_scalar,
            tweaked_pubkey,
        };
        let payload = secrets.to_bytes();
        let info = txn_metadata.info();
        let aad = txn_metadata.aad();
        let (encapsulated_key, ciphertext) = match hpke_seal(
            &receiver.disc_x25519,
            &info,
            &aad,
            &payload,
        ) {
            Ok(p) => p,
            Err(e) => { return Err(e); },
        };
        let hpke_envelope = HpkeEnvelope {
            version: ENVELOPE_VERSION,
            suite: SupportedHpkeSuite::Base25519Sha512ChaCha20Poly1305,
            encapsulated_key,
            ciphertext,
            discovery_tag,
            discovery_ephemeral: ephemeral_keypair.public_key,
        };
        proof {
            assert(x25519_base_of(ephemeral_keypair.private_key@)
                == hpke_envelope.discovery_ephemeral@);
        }
        Ok(UtxoInputs { secrets, hpke_envelope })
    }

    /// The envelope that goes on chain.
    pub fn envelope(&self) -> (r: &HpkeEnvelope)
        ensures
            r == self.hpke_envelope,
    {
        &self.hpke_envelope
    }

    /// The secrets the sender keeps.
    pub fn secrets(&self) -> (r: &UtxoSecrets)
        ensures
            r == self.secrets,
    {
        &self.secrets
    }
}

} // verus!
