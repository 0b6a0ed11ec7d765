//! Networks, the HPKE suite tag, and the immutable per-note transaction
//! metadata with its context-binding `info` and `aad` byte strings.
use vstd::prelude::*;

use crate::bytes::{
    append_bytes, hex_vec, lemma_dec_digits, lemma_dec_injective, lemma_digit_run_split,
    lemma_hex_injective, spec_hex, spec_u64_dec, u64_dec_vec,
};
use vstd::string::StringSliceAdditionalSpecFns;

verus! {

/// The ledger a note is bound to. A custom network carries its 32-byte
/// genesis tag.
#[derive(Clone, Debug)]
pub enum SupportedNetwork {
    Mainnet,
    Testnet,
    Betanet,
    Devnet,
    Custom(Vec<u8>),
}

/// The wire byte of a network. The custom tag itself is not part of the
/// byte form.
pub open spec fn spec_network_byte(n: SupportedNetwork) -> u8 {
    match n {
        SupportedNetwork::Mainnet => 0,
        SupportedNetwork::Testnet => 1,
        SupportedNetwork::Betanet => 2,
        SupportedNetwork::Devnet => 3,
        SupportedNetwork::Custom(_) => 255,
    }
}

/// The network bytes this library knows.
pub open spec fn spec_known_network_byte(b: u8) -> bool {
    b == 0 || b == 1 || b == 2 || b == 3 || b == 255
}

impl SupportedNetwork {
    /// A custom tag is 32 bytes wide.
    pub open spec fn wf(&self) -> bool {
        match self {
            SupportedNetwork::Custom(t) => t@.len() == 32,
            _ => true,
        }
    }

    /// The wire byte of this network.
    pub fn byte(&self) -> (r: u8)
        ensures
            r == spec_network_byte(*self),
    {
        match self {
            SupportedNetwork::Mainnet => 0,
            SupportedNetwork::Testnet => 1,
            SupportedNetwork::Betanet => 2,
            SupportedNetwork::Devnet => 3,
            SupportedNetwork::Custom(_) => 255,
        }
    }

    /// The network a wire byte names. A custom network's tag is not
    /// carried in the byte form, so it comes back zeroed.
    pub fn from_byte(b: u8) -> (r: Option<SupportedNetwork>)
        ensures
            r is Some <==> spec_known_network_byte(b),
            r matches Some(n) ==> n.wf() && spec_network_byte(n) == b,
            r matches Some(n) ==> (n matches SupportedNetwork::Custom(t) ==> t@ == Seq::new(
                32nat,
                |i: int| 0u8,
            )),
    {
        if b == 0 {
            Some(SupportedNetwork::Mainnet)
        } else if b == 1 {
            Some(SupportedNetwork::Testnet)
        } else if b == 2 {
            Some(SupportedNetwork::Betanet)
        } else if b == 3 {
            Some(SupportedNetwork::Devnet)
        } else if b == 255 {
            Some(SupportedNetwork::Custom(crate::bytes::filled(0, 32)))
        } else {
            None
        }
    }
}

impl PartialEq for SupportedNetwork {
    fn eq(&self, other: &Self) -> (r: bool) {
        match (self, other) {
            (SupportedNetwork::Mainnet, SupportedNetwork::Mainnet) => true,
            (SupportedNetwork::Testnet, SupportedNetwork::Testnet) => true,
            (SupportedNetwork::Betanet, SupportedNetwork::Betanet) => true,
            (SupportedNetwork::Devnet, SupportedNetwork::Devnet) => true,
            (SupportedNetwork::Custom(a), SupportedNetwork::Custom(b)) => crate::bytes::bytes_eq(
                a,
                b,
            ),
            _ => false,
        }
    }
}

/// Spec-level equality of two networks: same variant, and for custom
/// networks the same tag bytes.
pub open spec fn spec_network_eq(a: SupportedNetwork, b: SupportedNetwork) -> bool {
    match (a, b) {
        (SupportedNetwork::Mainnet, SupportedNetwork::Mainnet) => true,
        (SupportedNetwork::Testnet, SupportedNetwork::Testnet) => true,
        (SupportedNetwork::Betanet, SupportedNetwork::Betanet) => true,
        (SupportedNetwork::Devnet, SupportedNetwork::Devnet) => true,
        (SupportedNetwork::Custom(x), SupportedNetwork::Custom(y)) => x@ == y@,
        _ => false,
    }
}

impl vstd::std_specs::cmp::PartialEqSpecImpl for SupportedNetwork {
    open spec fn obeys_eq_spec() -> bool {
        true
    }

    open spec fn eq_spec(&self, other: &Self) -> bool {
        spec_network_eq(*self, *other)
    }
}

/// The HPKE suites this library knows. One suite is supported today: base
/// mode, X25519-HKDF-SHA-256 KEM, HKDF-SHA-512, ChaCha20-Poly1305. The
/// enum is the extension point for future suites.
#[derive(Clone, Copy, Debug, PartialEq, Eq, Structural)]
pub enum SupportedHpkeSuite {
    Base25519Sha512ChaCha20Poly1305,
}

/// The wire byte of a suite.
pub open spec fn spec_suite_byte(s: SupportedHpkeSuite) -> u8 {
    match s {
        SupportedHpkeSuite::Base25519Sha512ChaCha20Poly1305 => 0,
    }
}

impl SupportedHpkeSuite {
    /// The wire byte of this suite.
    pub fn byte(&self) -> (r: u8)
        ensures
            r == spec_suite_byte(*self),
    {
        match self {
            SupportedHpkeSuite::Base25519Sha512ChaCha20Poly1305 => 0,
        }
    }

    /// The suite a wire byte names.
    pub fn from_byte(b: u8) -> (r: Option<SupportedHpkeSuite>)
        ensures
            r is Some <==> b == 0,
            r matches Some(s) ==> spec_suite_byte(s) == b,
    {
        if b == 0 {
            Some(SupportedHpkeSuite::Base25519Sha512ChaCha20Poly1305)
        } else {
            None
        }
    }
}

/// One unpadded lowercase hex rendering of a byte, as the debug form of a
/// byte array prints it.
pub open spec fn spec_byte_hex_short(b: u8) -> Seq<u8> {
    if b < 16 {
        seq![crate::bytes::spec_hex_digit(b)]
    } else {
        seq![crate::bytes::spec_hex_digit(b / 16), crate::bytes::spec_hex_digit(b % 16)]
    }
}

/// The comma-separated items of the debug rendering of a byte array,
/// starting at index `i`.
pub open spec fn spec_hex_list_items(t: Seq<u8>, i: int) -> Seq<u8>
    decreases t.len() - i,
{
    if i < 0 || i >= t.len() {
        Seq::empty()
    } else if i == t.len() - 1 {
        spec_byte_hex_short(t[i])
    } else {
        spec_byte_hex_short(t[i]) + ", ".spec_bytes() + spec_hex_list_items(t, i + 1)
    }
}

/// The debug rendering of a byte array: `[` items `]`.
pub open spec fn spec_hex_list(t: Seq<u8>) -> Seq<u8> {
    "[".spec_bytes() + spec_hex_list_items(t, 0) + "]".spec_bytes()
}

/// The name a network prints under inside the HPKE info string: a fixed
/// word for the named ledgers, the debug hex rendering of the tag for a
/// custom one.
pub open spec fn spec_network_name(n: SupportedNetwork) -> Seq<u8> {
    match n {
        SupportedNetwork::Mainnet => "mainnet".spec_bytes(),
        SupportedNetwork::Testnet => "testnet".spec_bytes(),
        SupportedNetwork::Betanet => "betanet".spec_bytes(),
        SupportedNetwork::Devnet => "devnet".spec_bytes(),
        SupportedNetwork::Custom(t) => spec_hex_list(t@),
    }
}

/// Render the items of the debug hex list from index `i` on.
fn hex_list_items(t: &Vec<u8>, i: usize) -> (r: Vec<u8>)
    requires
        i <= t@.len(),
    ensures
        r@ == spec_hex_list_items(t@, i as int),
    decreases t@.len() - i,
{
    if i >= t.len() {
        Vec::new()
    } else {
        let b = *t.get(i).unwrap();
        let mut r: Vec<u8> = Vec::new();
        if b < 16 {
            r.push(if b < 10 {
                48 + b
            } else {
                87 + b
            });
        } else {
            let hi = b / 16;
            let lo = b % 16;
            r.push(if hi < 10 {
                48 + hi
            } else {
                87 + hi
            });
            r.push(if lo < 10 {
                48 + lo
            } else {
                87 + lo
            });
        }
        assert(r@ =~= spec_byte_hex_short(t@[i as int]));
        if i + 1 < t.len() {
            let sep = vstd::slice::slice_to_vec(", ".as_bytes());
            append_bytes(&mut r, &sep);
            let rest = hex_list_items(t, i + 1);
            append_bytes(&mut r, &rest);
        }
        r
    }
}

/// Render the whole debug hex list of a byte array.
fn hex_list(t: &Vec<u8>) -> (r: Vec<u8>)
    ensures
        r@ == spec_hex_list(t@),
{
    let mut r = vstd::slice::slice_to_vec("[".as_bytes());
    let items = hex_list_items(t, 0);
    append_bytes(&mut r, &items);
    let close = vstd::slice::slice_to_vec("]".as_bytes());
    append_bytes(&mut r, &close);
    r
}

/// The immutable transaction fields a note is bound to.
#[derive(Clone, Debug)]
pub struct TransactionMetadata {
    pub sender: Vec<u8>,
    pub first_valid: u64,
    pub last_valid: u64,
    pub lease: Vec<u8>,
    pub network: SupportedNetwork,
    pub app_id: u64,
}

/// The HPKE info string of a note: the chain-level binding.
pub open spec fn spec_info(network: SupportedNetwork, app_id: u64) -> Seq<u8> {
    "mithras|network:".spec_bytes() + spec_network_name(network) + "|app:".spec_bytes()
        + spec_u64_dec(app_id) + "|v:1".spec_bytes()
}

/// The HPKE aad string of a note: the per-transaction binding.
pub open spec fn spec_aad(sender: Seq<u8>, fv: u64, lv: u64, lease: Seq<u8>) -> Seq<u8> {
    "txid:".spec_bytes() + spec_hex(sender) + "|fv:".spec_bytes() + spec_u64_dec(fv)
        + "|lv:".spec_bytes() + spec_u64_dec(lv) + "|lease:".spec_bytes() + spec_hex(lease)
}

impl TransactionMetadata {
    /// Fixed-width fields have their documented widths.
    pub open spec fn wf(&self) -> bool {
        &&& self.sender@.len() == 32
        &&& self.lease@.len() == 32
        &&& self.network.wf()
    }

    /// Build the HPKE info string: chain-level context.
    pub fn info(&self) -> (r: Vec<u8>)
        ensures
            r@ == spec_info(self.network, self.app_id),
    {
        let mut r = vstd::slice::slice_to_vec("mithras|network:".as_bytes());
        let name: Vec<u8> = match &self.network {
            SupportedNetwork::Mainnet => vstd::slice::slice_to_vec("mainnet".as_bytes()),
            SupportedNetwork::Testnet => vstd::slice::slice_to_vec("testnet".as_bytes()),
            SupportedNetwork::Betanet => vstd::slice::slice_to_vec("betanet".as_bytes()),
            SupportedNetwork::Devnet => vstd::slice::slice_to_vec("devnet".as_bytes()),
            SupportedNetwork::Custom(t) => hex_list(t),
        };
        append_bytes(&mut r, &name);
        let app_sep = vstd::slice::slice_to_vec("|app:".as_bytes());
        append_bytes(&mut r, &app_sep);
        let app = u64_dec_vec(self.app_id);
        append_bytes(&mut r, &app);
        let tail = vstd::slice::slice_to_vec("|v:1".as_bytes());
        append_bytes(&mut r, &tail);
        r
    }

    /// Build the HPKE aad string: per-transaction context.
    pub fn aad(&self) -> (r: Vec<u8>)
        ensures
            r@ == spec_aad(self.sender@, self.first_valid, self.last_valid, self.lease@),
    {
        let mut r = vstd::slice::slice_to_vec("txid:".as_bytes());
        let sender_hex = hex_vec(&self.sender);
        append_bytes(&mut r, &sender_hex);
        let fv_sep = vstd::slice::slice_to_vec("|fv:".as_bytes());
        append_bytes(&mut r, &fv_sep);
        let fv = u64_dec_vec(self.first_valid);
        append_bytes(&mut r, &fv);
        let lv_sep = vstd::slice::slice_to_vec("|lv:".as_bytes());
        append_bytes(&mut r, &lv_sep);
        let lv = u64_dec_vec(self.last_valid);
        append_bytes(&mut r, &lv);
        let lease_sep = vstd::slice::slice_to_vec("|lease:".as_bytes());
        append_bytes(&mut r, &lease_sep);
        let lease_hex = hex_vec(&self.lease);
        append_bytes(&mut r, &lease_hex);
        r
    }
}

/// The aad encoding is injective in its fields: two transactions with
/// the same aad bytes agree on the sender, both validity bounds, and the
/// lease. Since HPKE open is bound to the aad, a note is tied to exactly
/// the transaction fields it was sealed with.
pub proof fn lemma_aad_injective(
    sender1: Seq<u8>,
    fv1: u64,
    lv1: u64,
    lease1: Seq<u8>,
    sender2: Seq<u8>,
    fv2: u64,
    lv2: u64,
    lease2: Seq<u8>,
)
    requires
        sender1.len() == 32,
        sender2.len() == 32,
        lease1.len() == 32,
        lease2.len() == 32,
        spec_aad(sender1, fv1, lv1, lease1) == spec_aad(sender2, fv2, lv2, lease2),
    ensures
        sender1 == sender2,
        fv1 == fv2,
        lv1 == lv2,
        lease1 == lease2,
{
    reveal_strlit("txid:");
    reveal_strlit("|fv:");
    reveal_strlit("|lv:");
    reveal_strlit("|lease:");
    broadcast use vstd::string::group_string_axioms;

    let t = "txid:".spec_bytes();
    let f = "|fv:".spec_bytes();
    let l = "|lv:".spec_bytes();
    let e = "|lease:".spec_bytes();
    assert(vstd::string::is_ascii("txid:"));
    assert(vstd::string::is_ascii("|fv:"));
    assert(vstd::string::is_ascii("|lv:"));
    assert(vstd::string::is_ascii("|lease:"));
    assert(t.len() == 5);
    assert(f.len() == 4);
    assert(l.len() == 4 && l[0] == 124);
    assert(e.len() == 7 && e[0] == 124);

    let a1 = spec_aad(sender1, fv1, lv1, lease1);
    let a2 = spec_aad(sender2, fv2, lv2, lease2);
    assert(spec_hex(sender1).len() == 64);
    assert(spec_hex(sender2).len() == 64);
    assert(spec_hex(lease1).len() == 64);
    assert(spec_hex(lease2).len() == 64);

    assert(spec_hex(sender1) =~= a1.subrange(5, 69));
    assert(spec_hex(sender2) =~= a2.subrange(5, 69));
    lemma_hex_injective(sender1, sender2);

    let tail1 = l + spec_u64_dec(lv1) + e + spec_hex(lease1);
    let tail2 = l + spec_u64_dec(lv2) + e + spec_hex(lease2);
    assert(spec_u64_dec(fv1) + tail1 =~= a1.subrange(73, a1.len() as int));
    assert(spec_u64_dec(fv2) + tail2 =~= a2.subrange(73, a2.len() as int));
    lemma_dec_digits(fv1);
    lemma_dec_digits(fv2);
    assert(tail1[0] == 124);
    assert(tail2[0] == 124);
    lemma_digit_run_split(spec_u64_dec(fv1), tail1, spec_u64_dec(fv2), tail2);
    lemma_dec_injective(fv1, fv2);

    let tail1b = e + spec_hex(lease1);
    let tail2b = e + spec_hex(lease2);
    assert(spec_u64_dec(lv1) + tail1b =~= tail1.subrange(4, tail1.len() as int));
    assert(spec_u64_dec(lv2) + tail2b =~= tail2.subrange(4, tail2.len() as int));
    lemma_dec_digits(lv1);
    lemma_dec_digits(lv2);
    assert(tail1b[0] == 124);
    assert(tail2b[0] == 124);
    lemma_digit_run_split(spec_u64_dec(lv1), tail1b, spec_u64_dec(lv2), tail2b);
    lemma_dec_injective(lv1, lv2);

    assert(spec_hex(lease1) =~= tail1b.subrange(7, tail1b.len() as int));
    assert(spec_hex(lease2) =~= tail2b.subrange(7, tail2b.len() as int));
    lemma_hex_injective(lease1, lease2);
}

/// A lowercase hexadecimal digit byte, as the short renderings use them.
pub open spec fn spec_is_hex_digit_byte(b: u8) -> bool {
    48 <= b <= 57 || 97 <= b <= 102
}

/// Every byte of a short hex rendering is a hex digit.
proof fn lemma_short_hex_chars(b: u8)
    ensures
        forall|i: int|
            0 <= i < spec_byte_hex_short(b).len() ==> spec_is_hex_digit_byte(
                #[trigger] spec_byte_hex_short(b)[i],
            ),
{
    if b < 16 {
        assert(spec_byte_hex_short(b)[0] == crate::bytes::spec_hex_digit(b));
    } else {
        assert(spec_byte_hex_short(b)[0] == crate::bytes::spec_hex_digit(b / 16));
        assert(spec_byte_hex_short(b)[1] == crate::bytes::spec_hex_digit(b % 16));
    }
}

/// Two bytes with the same short hex rendering are the same.
proof fn lemma_short_hex_injective(b1: u8, b2: u8)
    requires
        spec_byte_hex_short(b1) == spec_byte_hex_short(b2),
    ensures
        b1 == b2,
{
    if b1 < 16 && b2 < 16 {
        assert(spec_byte_hex_short(b1)[0] == crate::bytes::spec_hex_digit(b1));
        assert(spec_byte_hex_short(b2)[0] == crate::bytes::spec_hex_digit(b2));
    } else if b1 >= 16 && b2 >= 16 {
        assert(spec_byte_hex_short(b1)[0] == crate::bytes::spec_hex_digit(b1 / 16));
        assert(spec_byte_hex_short(b2)[0] == crate::bytes::spec_hex_digit(b2 / 16));
        assert(spec_byte_hex_short(b1)[1] == crate::bytes::spec_hex_digit(b1 % 16));
        assert(spec_byte_hex_short(b2)[1] == crate::bytes::spec_hex_digit(b2 % 16));
        assert(b1 / 16 == b2 / 16);
        assert(b1 % 16 == b2 % 16);
    } else if b1 < 16 {
        assert(spec_byte_hex_short(b1).len() == 1);
        assert(spec_byte_hex_short(b2).len() == 2);
    } else {
        assert(spec_byte_hex_short(b1).len() == 2);
        assert(spec_byte_hex_short(b2).len() == 1);
    }
}

/// A run of hex digits followed by a non-hex-digit splits a byte string
/// unambiguously.
proof fn lemma_hex_run_split(x1: Seq<u8>, t1: Seq<u8>, x2: Seq<u8>, t2: Seq<u8>)
    requires
        x1 + t1 == x2 + t2,
        forall|i: int| 0 <= i < x1.len() ==> spec_is_hex_digit_byte(#[trigger] x1[i]),
        forall|i: int| 0 <= i < x2.len() ==> spec_is_hex_digit_byte(#[trigger] x2[i]),
        t1.len() > 0,
        t2.len() > 0,
        !spec_is_hex_digit_byte(t1[0]),
        !spec_is_hex_digit_byte(t2[0]),
    ensures
        x1 == x2,
        t1 == t2,
{
    if x1.len() < x2.len() {
        assert((x1 + t1)[x1.len() as int] == t1[0]);
        assert((x2 + t2)[x1.len() as int] == x2[x1.len() as int]);
        assert(false);
    }
    if x2.len() < x1.len() {
        assert((x2 + t2)[x2.len() as int] == t2[0]);
        assert((x1 + t1)[x2.len() as int] == x1[x2.len() as int]);
        assert(false);
    }
    assert forall|i: int| 0 <= i < x1.len() implies x1[i] == x2[i] by {
        assert((x1 + t1)[i] == x1[i]);
        assert((x2 + t2)[i] == x2[i]);
    }
    assert(x1 =~= x2);
    assert((x1 + t1).len() == x1.len() + t1.len());
    assert((x2 + t2).len() == x2.len() + t2.len());
    assert(t1.len() == t2.len());
    assert forall|j: int| 0 <= j < t1.len() implies t1[j] == t2[j] by {
        assert((x1 + t1)[x1.len() + j] == t1[j]);
        assert((x2 + t2)[x2.len() + j] == t2[j]);
    }
    assert(t1 =~= t2);
}

/// The item lists of two equally long byte arrays, followed by suffixes
/// that do not begin with a hex digit, split unambiguously: the arrays
/// agree from the given index on, and the suffixes agree.
proof fn lemma_hex_list_items_injective(
    t1: Seq<u8>,
    t2: Seq<u8>,
    i: int,
    s1: Seq<u8>,
    s2: Seq<u8>,
)
    requires
        t1.len() == t2.len(),
        0 <= i <= t1.len(),
        spec_hex_list_items(t1, i) + s1 == spec_hex_list_items(t2, i) + s2,
        s1.len() > 0,
        s2.len() > 0,
        !spec_is_hex_digit_byte(s1[0]),
        !spec_is_hex_digit_byte(s2[0]),
    ensures
        forall|j: int| i <= j < t1.len() ==> t1[j] == t2[j],
        s1 == s2,
    decreases t1.len() - i,
{
    reveal_strlit(", ");
    broadcast use vstd::string::group_string_axioms;

    assert(vstd::string::is_ascii(", "));
    let sep = ", ".spec_bytes();
    assert(sep.len() == 2 && sep[0] == 44 && sep[1] == 32);
    if i >= t1.len() {
        assert(spec_hex_list_items(t1, i) =~= Seq::<u8>::empty());
        assert(spec_hex_list_items(t2, i) =~= Seq::<u8>::empty());
        assert(s1 =~= (spec_hex_list_items(t1, i) + s1));
        assert(s2 =~= (spec_hex_list_items(t2, i) + s2));
    } else if i == t1.len() - 1 {
        lemma_short_hex_chars(t1[i]);
        lemma_short_hex_chars(t2[i]);
        lemma_hex_run_split(spec_byte_hex_short(t1[i]), s1, spec_byte_hex_short(t2[i]), s2);
        lemma_short_hex_injective(t1[i], t2[i]);
    } else {
        lemma_short_hex_chars(t1[i]);
        lemma_short_hex_chars(t2[i]);
        let u1 = sep + spec_hex_list_items(t1, i + 1) + s1;
        let u2 = sep + spec_hex_list_items(t2, i + 1) + s2;
        assert(spec_byte_hex_short(t1[i]) + u1 =~= spec_hex_list_items(t1, i) + s1);
        assert(spec_byte_hex_short(t2[i]) + u2 =~= spec_hex_list_items(t2, i) + s2);
        assert(!spec_is_hex_digit_byte(u1[0]));
        assert(!spec_is_hex_digit_byte(u2[0]));
        lemma_hex_run_split(spec_byte_hex_short(t1[i]), u1, spec_byte_hex_short(t2[i]), u2);
        lemma_short_hex_injective(t1[i], t2[i]);
        assert(spec_hex_list_items(t1, i + 1) + s1 =~= u1.subrange(2, u1.len() as int));
        assert(spec_hex_list_items(t2, i + 1) + s2 =~= u2.subrange(2, u2.len() as int));
        lemma_hex_list_items_injective(t1, t2, i + 1, s1, s2);
    }
}

/// The info encoding is injective in its fields: two notes with the same
/// info bytes are bound to the same network (tag included) and the same
/// application. Since both HPKE setup and the key schedule are bound to
/// the info, a note is tied to exactly the chain context it was sealed
/// with.
pub proof fn lemma_info_injective(n1: SupportedNetwork, a1: u64, n2: SupportedNetwork, a2: u64)
    requires
        n1.wf(),
        n2.wf(),
        spec_info(n1, a1) == spec_info(n2, a2),
    ensures
        spec_network_eq(n1, n2),
        a1 == a2,
{
    reveal_strlit("mithras|network:");
    reveal_strlit("mainnet");
    reveal_strlit("testnet");
    reveal_strlit("betanet");
    reveal_strlit("devnet");
    reveal_strlit("[");
    reveal_strlit("]");
    reveal_strlit("|app:");
    reveal_strlit("|v:1");
    broadcast use vstd::string::group_string_axioms;

    assert(vstd::string::is_ascii("mithras|network:"));
    assert(vstd::string::is_ascii("mainnet"));
    assert(vstd::string::is_ascii("testnet"));
    assert(vstd::string::is_ascii("betanet"));
    assert(vstd::string::is_ascii("devnet"));
    assert(vstd::string::is_ascii("["));
    assert(vstd::string::is_ascii("]"));
    assert(vstd::string::is_ascii("|app:"));
    assert(vstd::string::is_ascii("|v:1"));
    let pre = "mithras|network:".spec_bytes();
    let ap = "|app:".spec_bytes();
    let vt = "|v:1".spec_bytes();
    let ob = "[".spec_bytes();
    let cb = "]".spec_bytes();
    assert(pre.len() == 16);
    assert(ap.len() == 5 && ap[0] == 124);
    assert(vt.len() == 4 && vt[0] == 124);
    assert(ob.len() == 1 && ob[0] == 91);
    assert(cb.len() == 1 && cb[0] == 93);
    assert("mainnet".spec_bytes().len() == 7 && "mainnet".spec_bytes()[0] == 109);
    assert("testnet".spec_bytes().len() == 7 && "testnet".spec_bytes()[0] == 116);
    assert("betanet".spec_bytes().len() == 7 && "betanet".spec_bytes()[0] == 98);
    assert("devnet".spec_bytes().len() == 6 && "devnet".spec_bytes()[0] == 100);

    let i1 = spec_info(n1, a1);
    let i2 = spec_info(n2, a2);
    let name1 = spec_network_name(n1);
    let name2 = spec_network_name(n2);
    let c1 = name1[0];
    let c2 = name2[0];
    match n1 {
        SupportedNetwork::Mainnet => assert(c1 == 109 && name1.len() == 7),
        SupportedNetwork::Testnet => assert(c1 == 116 && name1.len() == 7),
        SupportedNetwork::Betanet => assert(c1 == 98 && name1.len() == 7),
        SupportedNetwork::Devnet => assert(c1 == 100 && name1.len() == 6),
        SupportedNetwork::Custom(t) => assert(c1 == 91 && name1.len() >= 1),
    }
    match n2 {
        SupportedNetwork::Mainnet => assert(c2 == 109 && name2.len() == 7),
        SupportedNetwork::Testnet => assert(c2 == 116 && name2.len() == 7),
        SupportedNetwork::Betanet => assert(c2 == 98 && name2.len() == 7),
        SupportedNetwork::Devnet => assert(c2 == 100 && name2.len() == 6),
        SupportedNetwork::Custom(t) => assert(c2 == 91 && name2.len() >= 1),
    }
    assert(i1[16] == c1);
    assert(i2[16] == c2);
    assert(c1 == c2);
    match (n1, n2) {
        (SupportedNetwork::Custom(x1), SupportedNetwork::Custom(x2)) => {
            let s1 = cb + ap + spec_u64_dec(a1) + vt;
            let s2 = cb + ap + spec_u64_dec(a2) + vt;
            assert(spec_hex_list_items(x1@, 0) + s1 =~= i1.subrange(17, i1.len() as int));
            assert(spec_hex_list_items(x2@, 0) + s2 =~= i2.subrange(17, i2.len() as int));
            assert(!spec_is_hex_digit_byte(s1[0]));
            assert(!spec_is_hex_digit_byte(s2[0]));
            lemma_hex_list_items_injective(x1@, x2@, 0, s1, s2);
            assert(x1@ =~= x2@);
            lemma_dec_digits(a1);
            lemma_dec_digits(a2);
            assert(spec_u64_dec(a1) + vt =~= s1.subrange(6, s1.len() as int));
            assert(spec_u64_dec(a2) + vt =~= s2.subrange(6, s2.len() as int));
            crate::bytes::lemma_digit_run_split(spec_u64_dec(a1), vt, spec_u64_dec(a2), vt);
            lemma_dec_injective(a1, a2);
        },
        _ => {
            assert(name1 == name2);
            let off = 16 + name1.len() as int;
            lemma_dec_digits(a1);
            lemma_dec_digits(a2);
            assert(spec_u64_dec(a1) + vt =~= i1.subrange(off + 5, i1.len() as int));
            assert(spec_u64_dec(a2) + vt =~= i2.subrange(off + 5, i2.len() as int));
            crate::bytes::lemma_digit_run_split(spec_u64_dec(a1), vt, spec_u64_dec(a2), vt);
            lemma_dec_injective(a1, a2);
        },
    }
}

} // verus!
