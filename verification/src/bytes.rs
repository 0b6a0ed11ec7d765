//! Verified helpers over byte vectors: copies, integer encodings, decimal
//! and hexadecimal renderings. All contracts are stated over `Seq<u8>`.
use vstd::prelude::*;

verus! {

/// The views of a sequence of byte vectors, element by element.
pub open spec fn spec_views(args: Seq<Vec<u8>>) -> Seq<Seq<u8>> {
    Seq::new(args.len(), |i: int| args[i]@)
}

/// Big-endian encoding of a `u64`: most significant byte first.
pub open spec fn spec_u64_be(v: u64) -> Seq<u8> {
    vstd::bytes::spec_u64_to_le_bytes(v).reverse()
}

/// The `u64` read from eight big-endian bytes.
pub open spec fn spec_u64_from_be(s: Seq<u8>) -> u64 {
    vstd::bytes::spec_u64_from_le_bytes(s.reverse())
}

/// The two encodings invert each other.
pub proof fn lemma_u64_be_round_trip()
    ensures
        forall|v: u64| #[trigger] spec_u64_from_be(spec_u64_be(v)) == v,
        forall|s: Seq<u8>| s.len() == 8 ==> #[trigger] spec_u64_be(spec_u64_from_be(s)) == s,
{
    vstd::bytes::lemma_auto_spec_u64_to_from_le_bytes();
    assert forall|v: u64| #[trigger] spec_u64_from_be(spec_u64_be(v)) == v by {
        assert(vstd::bytes::spec_u64_to_le_bytes(v).reverse().reverse()
            =~= vstd::bytes::spec_u64_to_le_bytes(v));
    }
    assert forall|s: Seq<u8>| s.len() == 8 implies #[trigger] spec_u64_be(spec_u64_from_be(s))
        == s by {
        assert(vstd::bytes::spec_u64_to_le_bytes(vstd::bytes::spec_u64_from_le_bytes(s.reverse()))
            == s.reverse());
        assert(s.reverse().reverse() =~= s);
    }
}

/// Emit `v` as eight big-endian bytes.
pub fn u64_be_vec(v: u64) -> (r: Vec<u8>)
    ensures
        r@ == spec_u64_be(v),
        r@.len() == 8,
{
    let le = vstd::bytes::u64_to_le_bytes(v);
    let mut r: Vec<u8> = Vec::new();
    let mut i: usize = 8;
    while i > 0
        invariant
            le@.len() == 8,
            le@ == vstd::bytes::spec_u64_to_le_bytes(v),
            i <= 8,
            r@.len() == 8 - i,
            forall|j: int| 0 <= j < r@.len() ==> r@[j] == le@[7 - j],
        decreases i,
    {
        i = i - 1;
        let b = *le.get(i).unwrap();
        r.push(b);
    }
    assert(r@ =~= le@.reverse());
    r
}

/// Read a `u64` from eight big-endian bytes.
pub fn u64_from_be_vec(s: &Vec<u8>) -> (r: u64)
    requires
        s@.len() == 8,
    ensures
        r == spec_u64_from_be(s@),
{
    let mut rev: Vec<u8> = Vec::new();
    let mut i: usize = 8;
    while i > 0
        invariant
            s@.len() == 8,
            i <= 8,
            rev@.len() == 8 - i,
            forall|j: int| 0 <= j < rev@.len() ==> rev@[j] == s@[7 - j],
        decreases i,
    {
        i = i - 1;
        let b = *s.get(i).unwrap();
        rev.push(b);
    }
    assert(rev@ =~= s@.reverse());
    vstd::bytes::u64_from_le_bytes(rev.as_slice())
}

/// Emit `v` as eight little-endian bytes.
pub fn u64_le_vec(v: u64) -> (r: Vec<u8>)
    ensures
        r@ == vstd::bytes::spec_u64_to_le_bytes(v),
        r@.len() == 8,
{
    proof {
        vstd::bytes::lemma_auto_spec_u64_to_from_le_bytes();
    }
    vstd::bytes::u64_to_le_bytes(v)
}

/// Append the whole of `src` to `dst`.
pub fn append_bytes(dst: &mut Vec<u8>, src: &Vec<u8>)
    ensures
        final(dst)@ == old(dst)@ + src@,
{
    dst.extend_from_slice(src.as_slice());
}

/// Copy `src[start..end]` out as a fresh vector.
pub fn sub_bytes(src: &Vec<u8>, start: usize, end: usize) -> (r: Vec<u8>)
    requires
        start <= end <= src@.len(),
    ensures
        r@ == src@.subrange(start as int, end as int),
{
    let s = vstd::slice::slice_subrange(src.as_slice(), start, end);
    vstd::slice::slice_to_vec(s)
}

/// Byte-for-byte equality of two vectors.
pub fn bytes_eq(a: &Vec<u8>, b: &Vec<u8>) -> (r: bool)
    ensures
        r == (a@ == b@),
{
    if a.len() != b.len() {
        return false;
    }
    let mut i: usize = 0;
    while i < a.len()
        invariant
            a@.len() == b@.len(),
            i <= a@.len(),
            forall|j: int| 0 <= j < i ==> a@[j] == b@[j],
        decreases a@.len() - i,
    {
        if *a.get(i).unwrap() != *b.get(i).unwrap() {
            return false;
        }
        i = i + 1;
    }
    proof {
        assert(a@ =~= b@);
    }
    true
}

/// A vector holding `n` copies of `b`.
pub fn filled(b: u8, n: usize) -> (r: Vec<u8>)
    ensures
        r@ == Seq::new(n as nat, |i: int| b),
{
    let mut r: Vec<u8> = Vec::new();
    let mut i: usize = 0;
    while i < n
        invariant
            i <= n,
            r@.len() == i,
            forall|j: int| 0 <= j < i ==> r@[j] == b,
        decreases n - i,
    {
        r.push(b);
        i = i + 1;
    }
    assert(r@ =~= Seq::new(n as nat, |i: int| b));
    r
}

/// The ASCII digit for one hex nibble, lowercase.
pub open spec fn spec_hex_digit(n: u8) -> u8 {
    if n < 10 {
        (48 + n) as u8
    } else {
        (87 + n) as u8
    }
}

/// Lowercase, zero-padded hexadecimal rendering: two digits for each byte.
pub open spec fn spec_hex(b: Seq<u8>) -> Seq<u8> {
    Seq::new(
        b.len() * 2,
        |i: int|
            if i % 2 == 0 {
                spec_hex_digit(b[i / 2] / 16)
            } else {
                spec_hex_digit(b[i / 2] % 16)
            },
    )
}

/// Render `b` as lowercase, zero-padded hex.
pub fn hex_vec(b: &Vec<u8>) -> (r: Vec<u8>)
    ensures
        r@ == spec_hex(b@),
{
    let mut r: Vec<u8> = Vec::new();
    let mut i: usize = 0;
    while i < b.len()
        invariant
            i <= b@.len(),
            r@.len() == i * 2,
            forall|j: int|
                0 <= j < r@.len() ==> r@[j] == (if j % 2 == 0 {
                    spec_hex_digit(b@[j / 2] / 16)
                } else {
                    spec_hex_digit(b@[j / 2] % 16)
                }),
        decreases b@.len() - i,
    {
        let byte = *b.get(i).unwrap();
        let hi = byte / 16;
        let lo = byte % 16;
        r.push(if hi < 10 { 48 + hi } else { 87 + hi });
        r.push(if lo < 10 { 48 + lo } else { 87 + lo });
        i = i + 1;
    }
    assert(r@ =~= spec_hex(b@));
    r
}

/// Decimal rendering of a `u64`, most significant digit first, no leading
/// zeros (a single `0` for zero).
pub open spec fn spec_u64_dec(v: u64) -> Seq<u8>
    decreases v,
{
    if v < 10 {
        seq![(48 + v) as u8]
    } else {
        spec_u64_dec(v / 10).push((48 + v % 10) as u8)
    }
}

/// Render `v` in decimal.
pub fn u64_dec_vec(v: u64) -> (r: Vec<u8>)
    ensures
        r@ == spec_u64_dec(v),
    decreases v,
{
    if v < 10 {
        let mut r: Vec<u8> = Vec::new();
        r.push(48 + v as u8);
        assert(r@ =~= spec_u64_dec(v));
        r
    } else {
        let mut r = u64_dec_vec(v / 10);
        r.push(48 + (v % 10) as u8);
        r
    }
}

/// Two byte strings with the same hex rendering are the same.
pub proof fn lemma_hex_injective(a: Seq<u8>, b: Seq<u8>)
    requires
        spec_hex(a) == spec_hex(b),
    ensures
        a == b,
{
    assert(spec_hex(a).len() == a.len() * 2);
    assert(spec_hex(b).len() == b.len() * 2);
    assert(a.len() == b.len());
    assert forall|i: int| 0 <= i < a.len() implies a[i] == b[i] by {
        assert(spec_hex(a)[2 * i] == spec_hex_digit(a[i] / 16));
        assert(spec_hex(b)[2 * i] == spec_hex_digit(b[i] / 16));
        assert(spec_hex(a)[2 * i + 1] == spec_hex_digit(a[i] % 16));
        assert(spec_hex(b)[2 * i + 1] == spec_hex_digit(b[i] % 16));
        assert(a[i] / 16 == b[i] / 16);
        assert(a[i] % 16 == b[i] % 16);
    }
    assert(a =~= b);
}

/// Every byte of a decimal rendering is an ASCII digit.
pub proof fn lemma_dec_digits(v: u64)
    ensures
        forall|i: int| 0 <= i < spec_u64_dec(v).len() ==> 48 <= #[trigger] spec_u64_dec(v)[i]
            <= 57,
    decreases v,
{
    if v < 10 {
        assert(spec_u64_dec(v).len() == 1);
        assert(spec_u64_dec(v)[0] == (48 + v) as u8);
    } else {
        lemma_dec_digits(v / 10);
        assert forall|i: int| 0 <= i < spec_u64_dec(v).len() implies 48 <= #[trigger] spec_u64_dec(
            v,
        )[i] <= 57 by {
            if i < spec_u64_dec(v).len() - 1 {
                assert(spec_u64_dec(v)[i] == spec_u64_dec(v / 10)[i]);
            } else {
                assert(spec_u64_dec(v)[i] == (48 + v % 10) as u8);
            }
        }
    }
}

/// A decimal rendering is never empty.
pub proof fn lemma_dec_len(v: u64)
    ensures
        spec_u64_dec(v).len() >= 1,
    decreases v,
{
    if v >= 10 {
        lemma_dec_len(v / 10);
    }
}

/// Two numbers with the same decimal rendering are the same.
pub proof fn lemma_dec_injective(a: u64, b: u64)
    requires
        spec_u64_dec(a) == spec_u64_dec(b),
    ensures
        a == b,
    decreases a,
{
    lemma_dec_len(a);
    lemma_dec_len(b);
    if a < 10 && b < 10 {
        assert(spec_u64_dec(a)[0] == 48 + a);
        assert(spec_u64_dec(b)[0] == 48 + b);
    } else if a < 10 {
        assert(spec_u64_dec(b).len() >= 2) by {
            lemma_dec_len(b / 10);
        }
    } else if b < 10 {
        assert(spec_u64_dec(a).len() >= 2) by {
            lemma_dec_len(a / 10);
        }
    } else {
        assert(spec_u64_dec(a).last() == 48 + a % 10);
        assert(spec_u64_dec(b).last() == 48 + b % 10);
        assert(spec_u64_dec(a).drop_last() =~= spec_u64_dec(a / 10));
        assert(spec_u64_dec(b).drop_last() =~= spec_u64_dec(b / 10));
        lemma_dec_injective(a / 10, b / 10);
    }
}

/// A run of ASCII digits followed by a non-digit splits a byte string
/// unambiguously: equal concatenations have equal halves.
pub proof fn lemma_digit_run_split(x1: Seq<u8>, t1: Seq<u8>, x2: Seq<u8>, t2: Seq<u8>)
    requires
        x1 + t1 == x2 + t2,
        forall|i: int| 0 <= i < x1.len() ==> 48 <= #[trigger] x1[i] <= 57,
        forall|i: int| 0 <= i < x2.len() ==> 48 <= #[trigger] x2[i] <= 57,
        t1.len() > 0,
        t2.len() > 0,
        !(48 <= t1[0] <= 57),
        !(48 <= t2[0] <= 57),
    ensures
        x1 == x2,
        t1 == t2,
{
    if x1.len() < x2.len() {
        assert((x1 + t1)[x1.len() as int] == t1[0]);
        assert((x2 + t2)[x1.len() as int] == x2[x1.len() as int]);
        assert(false);
    }
    if x2.len() < x1.len() {
        assert((x2 + t2)[x2.len() as int] == t2[0]);
        assert((x1 + t1)[x2.len() as int] == x1[x2.len() as int]);
        assert(false);
    }
    assert forall|i: int| 0 <= i < x1.len() implies x1[i] == x2[i] by {
        assert((x1 + t1)[i] == x1[i]);
        assert((x2 + t2)[i] == x2[i]);
    }
    assert(x1 =~= x2);
    assert((x1 + t1).len() == x1.len() + t1.len());
    assert((x2 + t2).len() == x2.len() + t2.len());
    assert(t1.len() == t2.len());
    assert forall|j: int| 0 <= j < t1.len() implies t1[j] == t2[j] by {
        assert((x1 + t1)[x1.len() + j] == t1[j]);
        assert((x2 + t2)[x2.len() + j] == t2[j]);
    }
    assert(t1 =~= t2);
}

} // verus!
