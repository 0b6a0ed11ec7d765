//! The wallet-side chain scanner: method classification, the commitment
//! and nullifier preimages handed to the external field hash, and the
//! nullifier-keyed wallet state with its conservation laws.
use vstd::prelude::*;

use crate::bytes::{bytes_eq, filled, spec_u64_be, spec_views, sub_bytes, u64_be_vec};
use crate::envelope::{spec_envelope_parses_to, HpkeEnvelope, ENVELOPE_SIZE, ENVELOPE_VERSION};
use crate::keypairs::{spec_spend_public, spec_tweaked_pubkey, SpendSeed, TweakedSigner};
use crate::primitives::{sha512_256, sha512_256_of};
use crate::utxo::UtxoSecrets;
use vstd::string::StringSliceAdditionalSpecFns;

verus! {

/// The canonical ABI signature of the deposit method.
pub open spec fn spec_deposit_signature() -> Seq<u8> {
    "deposit(uint256[],(byte[96],byte[96],byte[96],byte[96],byte[96],byte[96],byte[96],byte[96],byte[96],uint256,uint256,uint256,uint256,uint256,uint256),byte[250],pay,txn)void".spec_bytes()
}

/// The canonical ABI signature of the spend method.
pub open spec fn spec_spend_signature() -> Seq<u8> {
    "spend(uint256[],(byte[96],byte[96],byte[96],byte[96],byte[96],byte[96],byte[96],byte[96],byte[96],uint256,uint256,uint256,uint256,uint256,uint256),byte[250],byte[250],txn)void".spec_bytes()
}

/// The deposit selector: SHA-512/256 of the deposit signature.
pub open spec fn spec_deposit_selector() -> Seq<u8> {
    sha512_256_of(spec_deposit_signature())
}

/// The spend selector: SHA-512/256 of the spend signature.
pub open spec fn spec_spend_selector() -> Seq<u8> {
    sha512_256_of(spec_spend_signature())
}

/// Compute the deposit selector.
pub fn deposit_selector() -> (r: Vec<u8>)
    ensures
        r@ == spec_deposit_selector(),
        r@.len() == 32,
{
    let signature = vstd::slice::slice_to_vec(
        "deposit(uint256[],(byte[96],byte[96],byte[96],byte[96],byte[96],byte[96],byte[96],byte[96],byte[96],uint256,uint256,uint256,uint256,uint256,uint256),byte[250],pay,txn)void".as_bytes(),
    );
    sha512_256(&signature)
}

/// Compute the spend selector.
pub fn spend_selector() -> (r: Vec<u8>)
    ensures
        r@ == spec_spend_selector(),
        r@.len() == 32,
{
    let signature = vstd::slice::slice_to_vec(
        "spend(uint256[],(byte[96],byte[96],byte[96],byte[96],byte[96],byte[96],byte[96],byte[96],byte[96],uint256,uint256,uint256,uint256,uint256,uint256),byte[250],byte[250],txn)void".as_bytes(),
    );
    sha512_256(&signature)
}

/// A classified application call: a deposit carrying one note, or a
/// spend revealing a nullifier and carrying two notes.
#[derive(Clone, Debug)]
pub enum MithrasMethod {
    Deposit { commitment: Vec<u8>, hpke_envelope: HpkeEnvelope },
    Spend {
        nullifier: Vec<u8>,
        commitment0: Vec<u8>,
        commitment1: Vec<u8>,
        hpke_envelope_0: HpkeEnvelope,
        hpke_envelope_1: HpkeEnvelope,
    },
}

/// Whether a blob has the width, version and suite of a decodable
/// envelope.
pub open spec fn spec_envelope_bytes_ok(b: Seq<u8>) -> bool {
    b.len() == ENVELOPE_SIZE && b[0] == ENVELOPE_VERSION && b[1] == 0
}

/// Whether an argument vector is a well-formed deposit call: the deposit
/// selector, four arguments, at least one 32-byte signal, and a decodable
/// envelope in argument 3.
pub open spec fn spec_is_deposit_args(a: Seq<Seq<u8>>) -> bool {
    &&& a.len() == 4
    &&& a[0] == spec_deposit_selector()
    &&& a[1].len() >= 32
    &&& spec_envelope_bytes_ok(a[3])
}

/// Whether an argument vector is a well-formed spend call: the spend
/// selector, five arguments (the second envelope rides in argument 4),
/// signals wide enough for two commitments and the nullifier, and
/// decodable envelopes in arguments 3 and 4.
pub open spec fn spec_is_spend_args(a: Seq<Seq<u8>>) -> bool {
    &&& a.len() == 5
    &&& a[0] == spec_spend_selector()
    &&& a[1].len() >= 128
    &&& spec_envelope_bytes_ok(a[3])
    &&& spec_envelope_bytes_ok(a[4])
}

impl MithrasMethod {
    /// Classify an application call by its selector. Anything that is not
    /// a well-formed deposit or spend call is dropped.
    pub fn from_args(args: &Vec<Vec<u8>>) -> (r: Option<MithrasMethod>)
        ensures
            spec_is_deposit_args(spec_views(args@)) ==> r is Some,
            (spec_views(args@).len() == 5 && spec_views(args@)[0] != spec_deposit_selector()
                && spec_is_spend_args(spec_views(args@))) ==> r is Some,
            r is Some ==> spec_is_deposit_args(spec_views(args@)) || spec_is_spend_args(
                spec_views(args@),
            ),
            r matches Some(m) ==> match m {
                MithrasMethod::Deposit { commitment, hpke_envelope } => {
                    &&& spec_is_deposit_args(spec_views(args@))
                    &&& commitment@ == spec_views(args@)[1].subrange(0, 32)
                    &&& spec_envelope_parses_to(spec_views(args@)[3], hpke_envelope)
                    &&& hpke_envelope.wf()
                },
                MithrasMethod::Spend {
                    nullifier,
                    commitment0,
                    commitment1,
                    hpke_envelope_0,
                    hpke_envelope_1,
                } => {
                    &&& spec_is_spend_args(spec_views(args@))
                    &&& commitment0@ == spec_views(args@)[1].subrange(0, 32)
                    &&& commitment1@ == spec_views(args@)[1].subrange(32, 64)
                    &&& nullifier@ == spec_views(args@)[1].subrange(96, 128)
                    &&& spec_envelope_parses_to(spec_views(args@)[3], hpke_envelope_0)
                    &&& spec_envelope_parses_to(spec_views(args@)[4], hpke_envelope_1)
                    &&& hpke_envelope_0.wf()
                    &&& hpke_envelope_1.wf()
                },
            },
    {
        if args.len() == 0 {
            return None;
        }
        let selector = args.get(0).unwrap();
        let dep = deposit_selector();
        if bytes_eq(selector, &dep) {
            if args.len() != 4 {
                return None;
            }
            let signals = args.get(1).unwrap();
            if signals.len() < 32 {
                return None;
            }
            let commitment = sub_bytes(signals, 0, 32);
            let hpke_envelope = match HpkeEnvelope::from_bytes(args.get(3).unwrap()) {
                Ok(e) => e,
                Err(_) => { return None; },
            };
            Some(MithrasMethod::Deposit { commitment, hpke_envelope })
        } else {
            let sp = spend_selector();
            if !bytes_eq(selector, &sp) {
                return None;
            }
            if args.len() != 5 {
                return None;
            }
            let signals = args.get(1).unwrap();
            if signals.len() < 128 {
                return None;
            }
            let commitment0 = sub_bytes(signals, 0, 32);
            let commitment1 = sub_bytes(signals, 32, 64);
            let nullifier = sub_bytes(signals, 96, 128);
            let hpke_envelope_0 = match HpkeEnvelope::from_bytes(args.get(3).unwrap()) {
                Ok(e) => e,
                Err(_) => { return None; },
            };
            let hpke_envelope_1 = match HpkeEnvelope::from_bytes(args.get(4).unwrap()) {
                Ok(e) => e,
                Err(_) => { return None; },
            };
            Some(
                MithrasMethod::Spend {
                    nullifier,
                    commitment0,
                    commitment1,
                    hpke_envelope_0,
                    hpke_envelope_1,
                },
            )
        }
    }

    /// Whether a recomputed commitment equals the one this call carries
    /// (either of the two, for a spend).
    pub fn verify_commitment(&self, computed: &Vec<u8>) -> (r: bool)
        ensures
            r == spec_commitment_matches(*self, computed@),
    {
        match self {
            MithrasMethod::Deposit { commitment, .. } => bytes_eq(commitment, computed),
            MithrasMethod::Spend { commitment0, commitment1, .. } => bytes_eq(
                commitment0,
                computed,
            ) || bytes_eq(commitment1, computed),
        }
    }

    /// The envelopes this call carries, in argument order.
    pub fn hpke_envelopes(&self) -> (r: Vec<&HpkeEnvelope>)
        ensures
            match *self {
                MithrasMethod::Deposit { hpke_envelope, .. } => r@.len() == 1 && r@[0]
                    == hpke_envelope,
                MithrasMethod::Spend { hpke_envelope_0, hpke_envelope_1, .. } => r@.len() == 2
                    && r@[0] == hpke_envelope_0 && r@[1] == hpke_envelope_1,
            },
    {
        let mut r: Vec<&HpkeEnvelope> = Vec::new();
        match self {
            MithrasMethod::Deposit { hpke_envelope, .. } => {
                r.push(hpke_envelope);
            },
            MithrasMethod::Spend { hpke_envelope_0, hpke_envelope_1, .. } => {
                r.push(hpke_envelope_0);
                r.push(hpke_envelope_1);
            },
        }
        r
    }

    /// The nullifier a spend call reveals; a deposit reveals none.
    pub fn nullifier(&self) -> (r: Option<&Vec<u8>>)
        ensures
            match *self {
                MithrasMethod::Deposit { .. } => r is None,
                MithrasMethod::Spend { nullifier, .. } => r matches Some(n) && n@ == nullifier@,
            },
    {
        match self {
            MithrasMethod::Deposit { .. } => None,
            MithrasMethod::Spend { nullifier, .. } => Some(nullifier),
        }
    }
}

/// Whether `c` is one of the commitments a classified call carries.
pub open spec fn spec_commitment_matches(m: MithrasMethod, c: Seq<u8>) -> bool {
    match m {
        MithrasMethod::Deposit { commitment, .. } => commitment@ == c,
        MithrasMethod::Spend { commitment0, commitment1, .. } => commitment0@ == c
            || commitment1@ == c,
    }
}

/// The amount widened to a 32-byte big-endian field element,
/// right-aligned.
pub open spec fn spec_amount_fe(amount: u64) -> Seq<u8> {
    Seq::new(24nat, |i: int| 0u8) + spec_u64_be(amount)
}

/// The four field elements whose external MiMC hash is a note's
/// commitment: spending secret, nullifier secret, the widened amount, and
/// the tweaked public key. The hash itself is an external collaborator;
/// the caller runs it and hands the digest back.
pub fn commitment_preimage(utxo: &UtxoSecrets) -> (r: Vec<Vec<u8>>)
    requires
        utxo.wf(),
    ensures
        r@.len() == 4,
        r@[0]@ == utxo.spending_secret@,
        r@[1]@ == utxo.nullifier_secret@,
        r@[2]@ == spec_amount_fe(utxo.amount),
        r@[3]@ == utxo.tweaked_pubkey@,
{
    let mut amount_fe = filled(0, 24);
    let amount_be = u64_be_vec(utxo.amount);
    crate::bytes::append_bytes(&mut amount_fe, &amount_be);
    proof {
        assert(amount_fe@ =~= spec_amount_fe(utxo.amount));
    }
    let mut r: Vec<Vec<u8>> = Vec::new();
    r.push(utxo.spending_secret.clone());
    r.push(utxo.nullifier_secret.clone());
    r.push(amount_fe);
    r.push(utxo.tweaked_pubkey.clone());
    r
}

/// The two field elements whose external MiMC hash is a note's nullifier:
/// the commitment and the nullifier secret.
pub fn nullifier_preimage(commitment: &Vec<u8>, utxo: &UtxoSecrets) -> (r: Vec<Vec<u8>>)
    ensures
        r@.len() == 2,
        r@[0]@ == commitment@,
        r@[1]@ == utxo.nullifier_secret@,
{
    let mut r: Vec<Vec<u8>> = Vec::new();
    r.push(commitment.clone());
    r.push(utxo.nullifier_secret.clone());
    r
}

/// One-time key reconstruction: derive the tweaked signer from the
/// wallet's seed and the note's tweak scalar, and compare its public key
/// with the one the note carries. A note that fails this check is not
/// ours.
pub fn key_reconstruction_matches(spend_seed: &SpendSeed, utxo: &UtxoSecrets) -> (r: bool)
    requires
        spend_seed.wf(),
        utxo.wf(),
    ensures
        r == (spec_tweaked_pubkey(spec_spend_public(spend_seed.seed@), utxo.tweak_scalar@)
            == utxo.tweaked_pubkey@),
{
    match TweakedSigner::derive(spend_seed, &utxo.tweak_scalar) {
        Ok(signer) => bytes_eq(&signer.pubkey, &utxo.tweaked_pubkey),
        Err(_) => false,
    }
}

/// Sum of the amounts recorded in a wallet.
pub open spec fn spec_sum(s: Seq<(Vec<u8>, u64)>) -> int
    decreases s.len(),
{
    if s.len() == 0 {
        0
    } else {
        spec_sum(s.drop_last()) + s.last().1
    }
}

/// Every partial sum of non-negative entries is non-negative.
pub proof fn lemma_sum_nonneg(s: Seq<(Vec<u8>, u64)>)
    ensures
        spec_sum(s) >= 0,
    decreases s.len(),
{
    if s.len() > 0 {
        lemma_sum_nonneg(s.drop_last());
    }
}

/// Removing one entry lowers the sum by exactly that entry's amount.
pub proof fn lemma_sum_remove(s: Seq<(Vec<u8>, u64)>, i: int)
    requires
        0 <= i < s.len(),
    ensures
        spec_sum(s.remove(i)) == spec_sum(s) - s[i].1,
    decreases s.len(),
{
    if i == s.len() - 1 {
        assert(s.remove(i) =~= s.drop_last());
    } else {
        lemma_sum_remove(s.drop_last(), i);
        assert(s.remove(i).drop_last() =~= s.drop_last().remove(i));
        assert(s.remove(i).last() == s.last());
    }
}

/// The wallet's scanner state: the map from nullifier to amount as a
/// vector of unique-keyed pairs, the observed one-time keys, and the
/// observable total.
#[derive(Debug)]
pub struct WalletState {
    pub recorded_utxos: Vec<(Vec<u8>, u64)>,
    pub addrs: Vec<Vec<u8>>,
    pub amount: u64,
}

impl WalletState {
    /// Whether a nullifier is recorded.
    pub open spec fn contains_nullifier(&self, n: Seq<u8>) -> bool {
        exists|i: int|
            0 <= i < self.recorded_utxos@.len() && #[trigger] self.recorded_utxos@[i].0@ == n
    }

    /// The recorded map as a mathematical map.
    pub open spec fn as_map(&self) -> Map<Seq<u8>, u64> {
        Map::new(
            |n: Seq<u8>| self.contains_nullifier(n),
            |n: Seq<u8>|
                self.recorded_utxos@[choose|i: int|
                    0 <= i < self.recorded_utxos@.len() && #[trigger] self.recorded_utxos@[i].0@
                        == n].1,
        )
    }

    /// Keys are unique and the observable amount is exactly the sum of
    /// the recorded amounts. This is the conservation invariant.
    pub open spec fn wf(&self) -> bool {
        &&& (forall|i: int, j: int|
            0 <= i < j < self.recorded_utxos@.len() ==> #[trigger] self.recorded_utxos@[i].0@
                != #[trigger] self.recorded_utxos@[j].0@)
        &&& self.amount == spec_sum(self.recorded_utxos@)
    }

    /// A fresh, empty wallet state.
    pub fn new() -> (r: WalletState)
        ensures
            r.wf(),
            r.recorded_utxos@.len() == 0,
            r.addrs@.len() == 0,
            r.amount == 0,
    {
        WalletState { recorded_utxos: Vec::new(), addrs: Vec::new(), amount: 0 }
    }

    /// The index holding a nullifier, if any.
    fn find(&self, nullifier: &Vec<u8>) -> (r: Option<usize>)
        ensures
            r matches Some(i) ==> i < self.recorded_utxos@.len()
                && self.recorded_utxos@[i as int].0@ == nullifier@,
            r is None ==> !self.contains_nullifier(nullifier@),
    {
        let mut i: usize = 0;
        while i < self.recorded_utxos.len()
            invariant
                i <= self.recorded_utxos@.len(),
                forall|j: int| 0 <= j < i ==> #[trigger] self.recorded_utxos@[j].0@ != nullifier@,
            decreases self.recorded_utxos@.len() - i,
        {
            if bytes_eq(&self.recorded_utxos.get(i).unwrap().0, nullifier) {
                return Some(i);
            }
            i = i + 1;
        }
        None
    }

    /// The amount recorded under a nullifier, if any.
    pub fn lookup(&self, nullifier: &Vec<u8>) -> (r: Option<u64>)
        requires
            self.wf(),
        ensures
            r is Some <==> self.contains_nullifier(nullifier@),
            r matches Some(a) ==> self.as_map()[nullifier@] == a,
    {
        match self.find(nullifier) {
            Some(i) => {
                let a = self.recorded_utxos.get(i).unwrap().1;
                proof {
                    let w = choose|k: int|
                        0 <= k < self.recorded_utxos@.len()
                            && #[trigger] self.recorded_utxos@[k].0@ == nullifier@;
                    assert(w == i as int);
                }
                Some(a)
            },
            None => None,
        }
    }

    /// Settle a spend: when the revealed nullifier is recorded, erase it
    /// and reclaim exactly its amount; otherwise change nothing. True
    /// exactly when the nullifier was ours.
    pub fn settle_spend(&mut self, nullifier: &Vec<u8>) -> (r: bool)
        requires
            old(self).wf(),
        ensures
            final(self).wf(),
            r == old(self).contains_nullifier(nullifier@),
            !r ==> *final(self) == *old(self),
            r ==> !final(self).contains_nullifier(nullifier@),
            r ==> final(self).as_map() == old(self).as_map().remove(nullifier@),
            r ==> final(self).amount == old(self).amount - old(self).as_map()[nullifier@],
            final(self).addrs@ == old(self).addrs@,
            (final(self).as_map(), final(self).amount as int) == spec_note_step(
                old(self).as_map(),
                old(self).amount as int,
                NoteEvent::Spend { nullifier: nullifier@ },
            ),
    {
        let i = match self.find(nullifier) {
            Some(i) => i,
            None => { return false; },
        };
        proof {
            lemma_sum_remove(self.recorded_utxos@, i as int);
            lemma_sum_nonneg(self.recorded_utxos@.remove(i as int));
            let w = choose|k: int|
                0 <= k < self.recorded_utxos@.len() && #[trigger] self.recorded_utxos@[k].0@
                    == nullifier@;
            assert(w == i as int);
        }
        let ghost pre = *self;
        let entry = self.recorded_utxos.remove(i);
        self.amount = self.amount - entry.1;
        proof {
            assert forall|n2: Seq<u8>| #[trigger]
                self.contains_nullifier(n2) implies pre.contains_nullifier(n2) && n2
                != nullifier@ by {
                let k = choose|k: int|
                    0 <= k < self.recorded_utxos@.len() && #[trigger] self.recorded_utxos@[k].0@
                        == n2;
                if k < i as int {
                    assert(pre.recorded_utxos@[k].0@ == n2);
                } else {
                    assert(pre.recorded_utxos@[k + 1].0@ == n2);
                }
            }
            assert forall|n2: Seq<u8>|
                pre.contains_nullifier(n2) && n2 != nullifier@ implies #[trigger]
                self.contains_nullifier(n2) by {
                let k = choose|k: int|
                    0 <= k < pre.recorded_utxos@.len() && #[trigger] pre.recorded_utxos@[k].0@
                        == n2;
                if k < i as int {
                    assert(self.recorded_utxos@[k].0@ == n2);
                } else {
                    assert(self.recorded_utxos@[k - 1].0@ == n2);
                }
            }
            assert forall|n2: Seq<u8>| #[trigger]
                self.contains_nullifier(n2) implies self.as_map()[n2] == pre.as_map()[n2] by {
                let k = choose|k: int|
                    0 <= k < self.recorded_utxos@.len() && #[trigger] self.recorded_utxos@[k].0@
                        == n2;
                let k2 = choose|k2: int|
                    0 <= k2 < pre.recorded_utxos@.len() && #[trigger] pre.recorded_utxos@[k2].0@
                        == n2;
                if k < i as int {
                    assert(pre.recorded_utxos@[k].0@ == n2);
                    assert(k2 == k);
                } else {
                    assert(pre.recorded_utxos@[k + 1].0@ == n2);
                    assert(k2 == k + 1);
                }
            }
            assert(self.as_map() =~= pre.as_map().remove(nullifier@));
        }
        true
    }

    /// Record a freshly opened note: when its nullifier is new and the
    /// total stays within range, insert it, remember its one-time key,
    /// and grow the observable amount by exactly the note's amount. A
    /// nullifier already recorded leaves the state untouched, so feeding
    /// the same deposit again and again mutates the wallet exactly once.
    pub fn record_note(&mut self, nullifier: &Vec<u8>, amount: u64, tweaked_pubkey: &Vec<u8>) -> (r:
        bool)
        requires
            old(self).wf(),
        ensures
            final(self).wf(),
            r == (!old(self).contains_nullifier(nullifier@) && old(self).amount + amount
                <= u64::MAX),
            !r ==> *final(self) == *old(self),
            r ==> final(self).contains_nullifier(nullifier@),
            r ==> final(self).as_map() == old(self).as_map().insert(nullifier@, amount),
            r ==> final(self).amount == old(self).amount + amount,
            old(self).amount + amount <= u64::MAX ==> (
                final(self).as_map(),
                final(self).amount as int,
            ) == spec_note_step(
                old(self).as_map(),
                old(self).amount as int,
                NoteEvent::Deposit { nullifier: nullifier@, amount },
            ),
            r ==> final(self).addrs@.len() == old(self).addrs@.len() + 1,
            r ==> final(self).addrs@.last()@ == tweaked_pubkey@,
            r ==> final(self).addrs@.drop_last() == old(self).addrs@,
    {
        if self.find(nullifier).is_some() {
            return false;
        }
        let new_amount = match self.amount.checked_add(amount) {
            Some(a) => a,
            None => { return false; },
        };
        let ghost pre = *self;
        self.recorded_utxos.push((nullifier.clone(), amount));
        self.addrs.push(tweaked_pubkey.clone());
        self.amount = new_amount;
        proof {
            assert(self.recorded_utxos@.drop_last() =~= pre.recorded_utxos@);
            assert(self.addrs@.drop_last() =~= pre.addrs@);
            assert(self.recorded_utxos@.last().0@ == nullifier@);
            assert(self.contains_nullifier(nullifier@));
            assert forall|n2: Seq<u8>| #[trigger]
                self.contains_nullifier(n2) implies (pre.contains_nullifier(n2) || n2
                == nullifier@) by {
                let k = choose|k: int|
                    0 <= k < self.recorded_utxos@.len() && #[trigger] self.recorded_utxos@[k].0@
                        == n2;
                if k < pre.recorded_utxos@.len() {
                    assert(pre.recorded_utxos@[k].0@ == n2);
                }
            }
            assert forall|n2: Seq<u8>|
                pre.contains_nullifier(n2) implies #[trigger] self.contains_nullifier(n2) by {
                let k = choose|k: int|
                    0 <= k < pre.recorded_utxos@.len() && #[trigger] pre.recorded_utxos@[k].0@
                        == n2;
                assert(self.recorded_utxos@[k].0@ == n2);
            }
            assert forall|n2: Seq<u8>| #[trigger]
                self.contains_nullifier(n2) && n2 != nullifier@ implies self.as_map()[n2]
                == pre.as_map()[n2] by {
                let k = choose|k: int|
                    0 <= k < self.recorded_utxos@.len() && #[trigger] self.recorded_utxos@[k].0@
                        == n2;
                assert(k < pre.recorded_utxos@.len());
                assert(pre.recorded_utxos@[k].0@ == n2);
                let k2 = choose|k2: int|
                    0 <= k2 < pre.recorded_utxos@.len() && #[trigger] pre.recorded_utxos@[k2].0@
                        == n2;
                assert(k2 == k);
            }
            assert(self.as_map()[nullifier@] == amount) by {
                let k = choose|k: int|
                    0 <= k < self.recorded_utxos@.len() && #[trigger] self.recorded_utxos@[k].0@
                        == nullifier@;
                assert(k == self.recorded_utxos@.len() - 1);
            }
            assert(self.as_map() =~= pre.as_map().insert(nullifier@, amount));
        }
        true
    }
}

/// Scanner idempotence: the deposit transition leaves a wallet that has
/// already recorded the nullifier untouched, in both the map and the
/// amount. So feeding the same deposit event any number of times equals
/// feeding it once.
pub proof fn lemma_scanner_idempotence(m: Map<Seq<u8>, u64>, a: int, n: Seq<u8>, x: u64)
    ensures
        ({
            let once = spec_note_step(m, a, NoteEvent::Deposit { nullifier: n, amount: x });
            spec_note_step(once.0, once.1, NoteEvent::Deposit { nullifier: n, amount: x }) == once
        }),
{
    let once = spec_note_step(m, a, NoteEvent::Deposit { nullifier: n, amount: x });
    assert(once.0.dom().contains(n));
}

/// A note event at the level the wallet map sees it: a deposit recording
/// a nullifier with its amount, or a spend settling a nullifier.
pub enum NoteEvent {
    Deposit { nullifier: Seq<u8>, amount: u64 },
    Spend { nullifier: Seq<u8> },
}

/// The per-event transition of the wallet's recorded map and observable
/// amount. `record_note` and `settle_spend` promise exactly this
/// transition (`record_note` under its no-overflow guard).
pub open spec fn spec_note_step(m: Map<Seq<u8>, u64>, a: int, e: NoteEvent) -> (Map<
    Seq<u8>,
    u64,
>, int) {
    match e {
        NoteEvent::Deposit { nullifier, amount } => if m.dom().contains(nullifier) {
            (m, a)
        } else {
            (m.insert(nullifier, amount), a + amount)
        },
        NoteEvent::Spend { nullifier } => if m.dom().contains(nullifier) {
            (m.remove(nullifier), a - m[nullifier])
        } else {
            (m, a)
        },
    }
}

/// The conservation invariant, one step at a time: in a well-formed
/// wallet the observable amount is the sum of the recorded amounts, and
/// erasing any recorded entry lowers that sum by exactly the erased
/// amount.
pub proof fn lemma_recorded_amount_invariant(w: WalletState, i: int)
    requires
        w.wf(),
        0 <= i < w.recorded_utxos@.len(),
    ensures
        w.amount == spec_sum(w.recorded_utxos@),
        spec_sum(w.recorded_utxos@.remove(i)) == w.amount - w.recorded_utxos@[i].1,
{
    lemma_sum_remove(w.recorded_utxos@, i);
}

/// Whether one argument filter of a subscription holds of an argument
/// vector: the argument at the filter's index (none, when the vector is
/// shorter) equals the expected bytes (none, when the filter expects
/// absence).
pub open spec fn spec_arg_filter_holds(filter: (u64, Option<Vec<u8>>), args: Seq<Seq<u8>>) -> bool {
    let actual: Option<Seq<u8>> = if filter.0 < args.len() {
        Some(args[filter.0 as int])
    } else {
        None
    };
    match (actual, filter.1) {
        (Option::Some(a), Option::Some(e)) => a == e@,
        (Option::None, Option::None) => true,
        _ => false,
    }
}

/// Whether a transaction passes a subscription's filters: an application
/// id filter passes when the transaction has no id or the matching one,
/// and every argument filter must hold.
pub fn subscription_matches(
    app_filter: Option<u64>,
    txn_app_id: Option<u64>,
    arg_filters: &Vec<(u64, Option<Vec<u8>>)>,
    args: &Vec<Vec<u8>>,
) -> (r: bool)
    ensures
        r == ({
            &&& (match (app_filter, txn_app_id) {
                (Option::Some(f), Option::Some(id)) => f == id,
                _ => true,
            })
            &&& (forall|k: int|
                0 <= k < arg_filters@.len() ==> #[trigger] spec_arg_filter_holds(
                    arg_filters@[k],
                    spec_views(args@),
                ))
        }),
{
    match (app_filter, txn_app_id) {
        (Some(f), Some(id)) => {
            if f != id {
                return false;
            }
        },
        _ => {},
    }
    let mut k: usize = 0;
    while k < arg_filters.len()
        invariant
            k <= arg_filters@.len(),
            forall|j: int|
                0 <= j < k ==> #[trigger] spec_arg_filter_holds(arg_filters@[j], spec_views(args@)),
        decreases arg_filters@.len() - k,
    {
        let filter = arg_filters.get(k).unwrap();
        let idx = filter.0;
        let holds: bool = if idx < args.len() as u64 {
            match &filter.1 {
                Some(e) => bytes_eq(args.get(idx as usize).unwrap(), e),
                None => false,
            }
        } else {
            match &filter.1 {
                Some(_) => false,
                None => true,
            }
        };
        if !holds {
            proof {
                assert(!spec_arg_filter_holds(arg_filters@[k as int], spec_views(args@)));
            }
            return false;
        }
        proof {
            assert(spec_arg_filter_holds(arg_filters@[k as int], spec_views(args@)));
        }
        k = k + 1;
    }
    true
}

} // verus!
