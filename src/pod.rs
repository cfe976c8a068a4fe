//! Plain data: fixed-size values of which every bit pattern of their size is
//! a valid value, read from the bytes that represent them.
use vstd::arithmetic::div_mod::{lemma_fundamental_div_mod, lemma_fundamental_div_mod_converse};
use vstd::prelude::*;
use vstd::slice::slice_subrange;

verus! {

broadcast use vstd::seq::group_seq_axioms;

/// A fixed-size, self-contained value that any sequence of `spec_size()`
/// bytes represents. Bytes are in the host's order, which is little-endian.
pub trait Pod: Sized + Copy {
    /// The number of bytes that represent a value.
    spec fn spec_size() -> nat;

    /// The bytes that represent `self`.
    spec fn spec_bytes(self) -> Seq<u8>;

    /// The number of bytes that represent a value.
    fn size() -> (r: usize)
        requires
            Self::spec_size() <= usize::MAX,
        ensures
            r == Self::spec_size(),
    ;

    /// The value whose bytes are all zero.
    fn zeroed() -> (r: Self)
        ensures
            r.spec_bytes() == Seq::new(Self::spec_size(), |i: int| 0u8),
    ;

    /// The value that the bytes `b` represent.
    fn from_bytes(b: &[u8]) -> (r: Self)
        requires
            b@.len() == Self::spec_size(),
        ensures
            r.spec_bytes() == b@,
    ;

    /// Every value is represented by `spec_size()` bytes.
    proof fn lemma_bytes_len(v: Self)
        ensures
            v.spec_bytes().len() == Self::spec_size(),
    ;

    /// No two values share their bytes.
    proof fn lemma_bytes_injective(a: Self, b: Self)
        requires
            a.spec_bytes() == b.spec_bytes(),
        ensures
            a == b,
    ;
}

impl Pod for u8 {
    open spec fn spec_size() -> nat {
        1
    }

    open spec fn spec_bytes(self) -> Seq<u8> {
        seq![self]
    }

    fn size() -> (r: usize) {
        1
    }

    fn zeroed() -> (r: u8) {
        let z = [0u8; 1];
        assert(z@ =~= Seq::new(1, |i: int| 0u8));
        Self::from_bytes(&z)
    }

    fn from_bytes(b: &[u8]) -> (r: u8) {
        let r = b[0];
        assert(seq![r] =~= b@);
        r
    }

    proof fn lemma_bytes_len(v: u8) {
    }

    proof fn lemma_bytes_injective(a: u8, b: u8) {
        assert(a == a.spec_bytes()[0]);
    }
}

/// The little-endian bytes of `x`.
pub open spec fn u16_le_bytes(x: u16) -> Seq<u8> {
    seq![
        (x & 0xff) as u8,
        ((x >> 8) & 0xff) as u8,
    ]
}

/// The value that 2 little-endian bytes stand for is the one whose bytes
/// they are.
proof fn lemma_u16_from_le_bytes(b0: u16, b1: u16, x: u16)
    requires
        b0 < 256 && b1 < 256,
        x == b0 | (b1 << 8),
    ensures
        (x & 0xff) == b0 && ((x >> 8) & 0xff) == b1,
{
    assert((x & 0xff) == b0 && ((x >> 8) & 0xff) == b1) by (bit_vector)
        requires
            b0 < 256 && b1 < 256,
            x == b0 | (b1 << 8),
    ;
}

/// Two values of the same bytes are equal.
pub proof fn lemma_u16_le_bytes_injective(a: u16, c: u16)
    requires
        u16_le_bytes(a) == u16_le_bytes(c),
    ensures
        a == c,
{
    let sa = u16_le_bytes(a);
    let sc = u16_le_bytes(c);
    assert(sa[0] == sc[0]);
    assert(sa[1] == sc[1]);
    assert((a & 0xff) as u8 == (c & 0xff) as u8 && ((a >> 8) & 0xff) as u8 == ((c >> 8) & 0xff) as u8 ==> a == c) by (bit_vector);
}

/// Reads `x` from its little-endian bytes.
fn u16_from_le(b: &[u8]) -> (x: u16)
    requires
        b@.len() == 2,
    ensures
        u16_le_bytes(x) == b@,
{
    let x = (b[0] as u16) | ((b[1] as u16) << 8);
    proof {
        lemma_u16_from_le_bytes(b@[0] as u16, b@[1] as u16, x);
        assert(u16_le_bytes(x) =~= b@);
    }
    x
}

impl Pod for u16 {
    open spec fn spec_size() -> nat {
        2
    }

    open spec fn spec_bytes(self) -> Seq<u8> {
        u16_le_bytes(self)
    }

    fn size() -> (r: usize) {
        2
    }

    fn zeroed() -> (r: u16) {
        let z = [0u8; 2];
        assert(z@ =~= Seq::new(2, |i: int| 0u8));
        Self::from_bytes(&z)
    }

    fn from_bytes(b: &[u8]) -> (r: u16) {
        u16_from_le(b)
    }

    proof fn lemma_bytes_len(v: u16) {
    }

    proof fn lemma_bytes_injective(a: u16, b: u16) {
        lemma_u16_le_bytes_injective(a, b);
    }
}

/// The little-endian bytes of `x`.
pub open spec fn u32_le_bytes(x: u32) -> Seq<u8> {
    seq![
        (x & 0xff) as u8,
        ((x >> 8) & 0xff) as u8,
        ((x >> 16) & 0xff) as u8,
        ((x >> 24) & 0xff) as u8,
    ]
}

/// The value that 4 little-endian bytes stand for is the one whose bytes
/// they are.
proof fn lemma_u32_from_le_bytes(b0: u32, b1: u32, b2: u32, b3: u32, x: u32)
    requires
        b0 < 256 && b1 < 256 && b2 < 256 && b3 < 256,
        x == b0 | (b1 << 8) | (b2 << 16) | (b3 << 24),
    ensures
        (x & 0xff) == b0 && ((x >> 8) & 0xff) == b1 && ((x >> 16) & 0xff) == b2 && ((x >> 24) & 0xff) == b3,
{
    assert((x & 0xff) == b0 && ((x >> 8) & 0xff) == b1 && ((x >> 16) & 0xff) == b2 && ((x >> 24) & 0xff) == b3) by (bit_vector)
        requires
            b0 < 256 && b1 < 256 && b2 < 256 && b3 < 256,
            x == b0 | (b1 << 8) | (b2 << 16) | (b3 << 24),
    ;
}

/// Two values of the same bytes are equal.
pub proof fn lemma_u32_le_bytes_injective(a: u32, c: u32)
    requires
        u32_le_bytes(a) == u32_le_bytes(c),
    ensures
        a == c,
{
    let sa = u32_le_bytes(a);
    let sc = u32_le_bytes(c);
    assert(sa[0] == sc[0]);
    assert(sa[1] == sc[1]);
    assert(sa[2] == sc[2]);
    assert(sa[3] == sc[3]);
    assert((a & 0xff) as u8 == (c & 0xff) as u8 && ((a >> 8) & 0xff) as u8 == ((c >> 8) & 0xff) as u8 && ((a >> 16) & 0xff) as u8 == ((c >> 16) & 0xff) as u8 && ((a >> 24) & 0xff) as u8 == ((c >> 24) & 0xff) as u8 ==> a == c) by (bit_vector);
}

/// Reads `x` from its little-endian bytes.
fn u32_from_le(b: &[u8]) -> (x: u32)
    requires
        b@.len() == 4,
    ensures
        u32_le_bytes(x) == b@,
{
    let x = (b[0] as u32) | ((b[1] as u32) << 8) | ((b[2] as u32) << 16) | ((b[3] as u32) << 24);
    proof {
        lemma_u32_from_le_bytes(b@[0] as u32, b@[1] as u32, b@[2] as u32, b@[3] as u32, x);
        assert(u32_le_bytes(x) =~= b@);
    }
    x
}

impl Pod for u32 {
    open spec fn spec_size() -> nat {
        4
    }

    open spec fn spec_bytes(self) -> Seq<u8> {
        u32_le_bytes(self)
    }

    fn size() -> (r: usize) {
        4
    }

    fn zeroed() -> (r: u32) {
        let z = [0u8; 4];
        assert(z@ =~= Seq::new(4, |i: int| 0u8));
        Self::from_bytes(&z)
    }

    fn from_bytes(b: &[u8]) -> (r: u32) {
        u32_from_le(b)
    }

    proof fn lemma_bytes_len(v: u32) {
    }

    proof fn lemma_bytes_injective(a: u32, b: u32) {
        lemma_u32_le_bytes_injective(a, b);
    }
}

/// The little-endian bytes of `x`.
pub open spec fn u64_le_bytes(x: u64) -> Seq<u8> {
    seq![
        (x & 0xff) as u8,
        ((x >> 8) & 0xff) as u8,
        ((x >> 16) & 0xff) as u8,
        ((x >> 24) & 0xff) as u8,
        ((x >> 32) & 0xff) as u8,
        ((x >> 40) & 0xff) as u8,
        ((x >> 48) & 0xff) as u8,
        ((x >> 56) & 0xff) as u8,
    ]
}

/// The value that 8 little-endian bytes stand for is the one whose bytes
/// they are.
proof fn lemma_u64_from_le_bytes(b0: u64, b1: u64, b2: u64, b3: u64, b4: u64, b5: u64, b6: u64, b7: u64, x: u64)
    requires
        b0 < 256 && b1 < 256 && b2 < 256 && b3 < 256 && b4 < 256 && b5 < 256 && b6 < 256 && b7 < 256,
        x == b0 | (b1 << 8) | (b2 << 16) | (b3 << 24) | (b4 << 32) | (b5 << 40) | (b6 << 48) | (b7 << 56),
    ensures
        (x & 0xff) == b0 && ((x >> 8) & 0xff) == b1 && ((x >> 16) & 0xff) == b2 && ((x >> 24) & 0xff) == b3 && ((x >> 32) & 0xff) == b4 && ((x >> 40) & 0xff) == b5 && ((x >> 48) & 0xff) == b6 && ((x >> 56) & 0xff) == b7,
{
    assert((x & 0xff) == b0 && ((x >> 8) & 0xff) == b1 && ((x >> 16) & 0xff) == b2 && ((x >> 24) & 0xff) == b3 && ((x >> 32) & 0xff) == b4 && ((x >> 40) & 0xff) == b5 && ((x >> 48) & 0xff) == b6 && ((x >> 56) & 0xff) == b7) by (bit_vector)
        requires
            b0 < 256 && b1 < 256 && b2 < 256 && b3 < 256 && b4 < 256 && b5 < 256 && b6 < 256 && b7 < 256,
            x == b0 | (b1 << 8) | (b2 << 16) | (b3 << 24) | (b4 << 32) | (b5 << 40) | (b6 << 48) | (b7 << 56),
    ;
}

/// Two values of the same bytes are equal.
pub proof fn lemma_u64_le_bytes_injective(a: u64, c: u64)
    requires
        u64_le_bytes(a) == u64_le_bytes(c),
    ensures
        a == c,
{
    let sa = u64_le_bytes(a);
    let sc = u64_le_bytes(c);
    assert(sa[0] == sc[0]);
    assert(sa[1] == sc[1]);
    assert(sa[2] == sc[2]);
    assert(sa[3] == sc[3]);
    assert(sa[4] == sc[4]);
    assert(sa[5] == sc[5]);
    assert(sa[6] == sc[6]);
    assert(sa[7] == sc[7]);
    assert((a & 0xff) as u8 == (c & 0xff) as u8 && ((a >> 8) & 0xff) as u8 == ((c >> 8) & 0xff) as u8 && ((a >> 16) & 0xff) as u8 == ((c >> 16) & 0xff) as u8 && ((a >> 24) & 0xff) as u8 == ((c >> 24) & 0xff) as u8 && ((a >> 32) & 0xff) as u8 == ((c >> 32) & 0xff) as u8 && ((a >> 40) & 0xff) as u8 == ((c >> 40) & 0xff) as u8 && ((a >> 48) & 0xff) as u8 == ((c >> 48) & 0xff) as u8 && ((a >> 56) & 0xff) as u8 == ((c >> 56) & 0xff) as u8 ==> a == c) by (bit_vector);
}

/// Reads `x` from its little-endian bytes.
fn u64_from_le(b: &[u8]) -> (x: u64)
    requires
        b@.len() == 8,
    ensures
        u64_le_bytes(x) == b@,
{
    let x = (b[0] as u64) | ((b[1] as u64) << 8) | ((b[2] as u64) << 16) | ((b[3] as u64) << 24) | ((b[4] as u64) << 32) | ((b[5] as u64) << 40) | ((b[6] as u64) << 48) | ((b[7] as u64) << 56);
    proof {
        lemma_u64_from_le_bytes(b@[0] as u64, b@[1] as u64, b@[2] as u64, b@[3] as u64, b@[4] as u64, b@[5] as u64, b@[6] as u64, b@[7] as u64, x);
        assert(u64_le_bytes(x) =~= b@);
    }
    x
}

impl Pod for u64 {
    open spec fn spec_size() -> nat {
        8
    }

    open spec fn spec_bytes(self) -> Seq<u8> {
        u64_le_bytes(self)
    }

    fn size() -> (r: usize) {
        8
    }

    fn zeroed() -> (r: u64) {
        let z = [0u8; 8];
        assert(z@ =~= Seq::new(8, |i: int| 0u8));
        Self::from_bytes(&z)
    }

    fn from_bytes(b: &[u8]) -> (r: u64) {
        u64_from_le(b)
    }

    proof fn lemma_bytes_len(v: u64) {
    }

    proof fn lemma_bytes_injective(a: u64, b: u64) {
        lemma_u64_le_bytes_injective(a, b);
    }
}

/// The little-endian bytes of `x`.
pub open spec fn u128_le_bytes(x: u128) -> Seq<u8> {
    seq![
        (x & 0xff) as u8,
        ((x >> 8) & 0xff) as u8,
        ((x >> 16) & 0xff) as u8,
        ((x >> 24) & 0xff) as u8,
        ((x >> 32) & 0xff) as u8,
        ((x >> 40) & 0xff) as u8,
        ((x >> 48) & 0xff) as u8,
        ((x >> 56) & 0xff) as u8,
        ((x >> 64) & 0xff) as u8,
        ((x >> 72) & 0xff) as u8,
        ((x >> 80) & 0xff) as u8,
        ((x >> 88) & 0xff) as u8,
        ((x >> 96) & 0xff) as u8,
        ((x >> 104) & 0xff) as u8,
        ((x >> 112) & 0xff) as u8,
        ((x >> 120) & 0xff) as u8,
    ]
}

/// The value that 16 little-endian bytes stand for is the one whose bytes
/// they are.
proof fn lemma_u128_from_le_bytes(b0: u128, b1: u128, b2: u128, b3: u128, b4: u128, b5: u128, b6: u128, b7: u128, b8: u128, b9: u128, b10: u128, b11: u128, b12: u128, b13: u128, b14: u128, b15: u128, x: u128)
    requires
        b0 < 256 && b1 < 256 && b2 < 256 && b3 < 256 && b4 < 256 && b5 < 256 && b6 < 256 && b7 < 256 && b8 < 256 && b9 < 256 && b10 < 256 && b11 < 256 && b12 < 256 && b13 < 256 && b14 < 256 && b15 < 256,
        x == b0 | (b1 << 8) | (b2 << 16) | (b3 << 24) | (b4 << 32) | (b5 << 40) | (b6 << 48) | (b7 << 56) | (b8 << 64) | (b9 << 72) | (b10 << 80) | (b11 << 88) | (b12 << 96) | (b13 << 104) | (b14 << 112) | (b15 << 120),
    ensures
        (x & 0xff) == b0 && ((x >> 8) & 0xff) == b1 && ((x >> 16) & 0xff) == b2 && ((x >> 24) & 0xff) == b3 && ((x >> 32) & 0xff) == b4 && ((x >> 40) & 0xff) == b5 && ((x >> 48) & 0xff) == b6 && ((x >> 56) & 0xff) == b7 && ((x >> 64) & 0xff) == b8 && ((x >> 72) & 0xff) == b9 && ((x >> 80) & 0xff) == b10 && ((x >> 88) & 0xff) == b11 && ((x >> 96) & 0xff) == b12 && ((x >> 104) & 0xff) == b13 && ((x >> 112) & 0xff) == b14 && ((x >> 120) & 0xff) == b15,
{
    assert((x & 0xff) == b0 && ((x >> 8) & 0xff) == b1 && ((x >> 16) & 0xff) == b2 && ((x >> 24) & 0xff) == b3 && ((x >> 32) & 0xff) == b4 && ((x >> 40) & 0xff) == b5 && ((x >> 48) & 0xff) == b6 && ((x >> 56) & 0xff) == b7 && ((x >> 64) & 0xff) == b8 && ((x >> 72) & 0xff) == b9 && ((x >> 80) & 0xff) == b10 && ((x >> 88) & 0xff) == b11 && ((x >> 96) & 0xff) == b12 && ((x >> 104) & 0xff) == b13 && ((x >> 112) & 0xff) == b14 && ((x >> 120) & 0xff) == b15) by (bit_vector)
        requires
            b0 < 256 && b1 < 256 && b2 < 256 && b3 < 256 && b4 < 256 && b5 < 256 && b6 < 256 && b7 < 256 && b8 < 256 && b9 < 256 && b10 < 256 && b11 < 256 && b12 < 256 && b13 < 256 && b14 < 256 && b15 < 256,
            x == b0 | (b1 << 8) | (b2 << 16) | (b3 << 24) | (b4 << 32) | (b5 << 40) | (b6 << 48) | (b7 << 56) | (b8 << 64) | (b9 << 72) | (b10 << 80) | (b11 << 88) | (b12 << 96) | (b13 << 104) | (b14 << 112) | (b15 << 120),
    ;
}

/// Two values of the same bytes are equal.
pub proof fn lemma_u128_le_bytes_injective(a: u128, c: u128)
    requires
        u128_le_bytes(a) == u128_le_bytes(c),
    ensures
        a == c,
{
    let sa = u128_le_bytes(a);
    let sc = u128_le_bytes(c);
    assert(sa[0] == sc[0]);
    assert(sa[1] == sc[1]);
    assert(sa[2] == sc[2]);
    assert(sa[3] == sc[3]);
    assert(sa[4] == sc[4]);
    assert(sa[5] == sc[5]);
    assert(sa[6] == sc[6]);
    assert(sa[7] == sc[7]);
    assert(sa[8] == sc[8]);
    assert(sa[9] == sc[9]);
    assert(sa[10] == sc[10]);
    assert(sa[11] == sc[11]);
    assert(sa[12] == sc[12]);
    assert(sa[13] == sc[13]);
    assert(sa[14] == sc[14]);
    assert(sa[15] == sc[15]);
    assert((a & 0xff) as u8 == (c & 0xff) as u8 && ((a >> 8) & 0xff) as u8 == ((c >> 8) & 0xff) as u8 && ((a >> 16) & 0xff) as u8 == ((c >> 16) & 0xff) as u8 && ((a >> 24) & 0xff) as u8 == ((c >> 24) & 0xff) as u8 && ((a >> 32) & 0xff) as u8 == ((c >> 32) & 0xff) as u8 && ((a >> 40) & 0xff) as u8 == ((c >> 40) & 0xff) as u8 && ((a >> 48) & 0xff) as u8 == ((c >> 48) & 0xff) as u8 && ((a >> 56) & 0xff) as u8 == ((c >> 56) & 0xff) as u8 && ((a >> 64) & 0xff) as u8 == ((c >> 64) & 0xff) as u8 && ((a >> 72) & 0xff) as u8 == ((c >> 72) & 0xff) as u8 && ((a >> 80) & 0xff) as u8 == ((c >> 80) & 0xff) as u8 && ((a >> 88) & 0xff) as u8 == ((c >> 88) & 0xff) as u8 && ((a >> 96) & 0xff) as u8 == ((c >> 96) & 0xff) as u8 && ((a >> 104) & 0xff) as u8 == ((c >> 104) & 0xff) as u8 && ((a >> 112) & 0xff) as u8 == ((c >> 112) & 0xff) as u8 && ((a >> 120) & 0xff) as u8 == ((c >> 120) & 0xff) as u8 ==> a == c) by (bit_vector);
}

/// Reads `x` from its little-endian bytes.
fn u128_from_le(b: &[u8]) -> (x: u128)
    requires
        b@.len() == 16,
    ensures
        u128_le_bytes(x) == b@,
{
    let x = (b[0] as u128) | ((b[1] as u128) << 8) | ((b[2] as u128) << 16) | ((b[3] as u128) << 24) | ((b[4] as u128) << 32) | ((b[5] as u128) << 40) | ((b[6] as u128) << 48) | ((b[7] as u128) << 56) | ((b[8] as u128) << 64) | ((b[9] as u128) << 72) | ((b[10] as u128) << 80) | ((b[11] as u128) << 88) | ((b[12] as u128) << 96) | ((b[13] as u128) << 104) | ((b[14] as u128) << 112) | ((b[15] as u128) << 120);
    proof {
        lemma_u128_from_le_bytes(b@[0] as u128, b@[1] as u128, b@[2] as u128, b@[3] as u128, b@[4] as u128, b@[5] as u128, b@[6] as u128, b@[7] as u128, b@[8] as u128, b@[9] as u128, b@[10] as u128, b@[11] as u128, b@[12] as u128, b@[13] as u128, b@[14] as u128, b@[15] as u128, x);
        assert(u128_le_bytes(x) =~= b@);
    }
    x
}

impl Pod for u128 {
    open spec fn spec_size() -> nat {
        16
    }

    open spec fn spec_bytes(self) -> Seq<u8> {
        u128_le_bytes(self)
    }

    fn size() -> (r: usize) {
        16
    }

    fn zeroed() -> (r: u128) {
        let z = [0u8; 16];
        assert(z@ =~= Seq::new(16, |i: int| 0u8));
        Self::from_bytes(&z)
    }

    fn from_bytes(b: &[u8]) -> (r: u128) {
        u128_from_le(b)
    }

    proof fn lemma_bytes_len(v: u128) {
    }

    proof fn lemma_bytes_injective(a: u128, b: u128) {
        lemma_u128_le_bytes_injective(a, b);
    }
}

impl Pod for i16 {
    open spec fn spec_size() -> nat {
        2
    }

    open spec fn spec_bytes(self) -> Seq<u8> {
        u16_le_bytes(#[verifier::truncate] (self as u16))
    }

    fn size() -> (r: usize) {
        2
    }

    fn zeroed() -> (r: i16) {
        let z = [0u8; 2];
        assert(z@ =~= Seq::new(2, |i: int| 0u8));
        Self::from_bytes(&z)
    }

    fn from_bytes(b: &[u8]) -> (r: i16) {
        let u = u16_from_le(b);
        let r = u as i16;
        assert(r as u16 == u) by (bit_vector)
            requires
                r == u as i16,
        ;
        r
    }

    proof fn lemma_bytes_len(v: i16) {
    }

    proof fn lemma_bytes_injective(a: i16, b: i16) {
        lemma_u16_le_bytes_injective(#[verifier::truncate] (a as u16), #[verifier::truncate] (b as u16));
        assert(a as u16 == b as u16 ==> a == b) by (bit_vector);
    }
}

impl Pod for i32 {
    open spec fn spec_size() -> nat {
        4
    }

    open spec fn spec_bytes(self) -> Seq<u8> {
        u32_le_bytes(#[verifier::truncate] (self as u32))
    }

    fn size() -> (r: usize) {
        4
    }

    fn zeroed() -> (r: i32) {
        let z = [0u8; 4];
        assert(z@ =~= Seq::new(4, |i: int| 0u8));
        Self::from_bytes(&z)
    }

    fn from_bytes(b: &[u8]) -> (r: i32) {
        let u = u32_from_le(b);
        let r = u as i32;
        assert(r as u32 == u) by (bit_vector)
            requires
                r == u as i32,
        ;
        r
    }

    proof fn lemma_bytes_len(v: i32) {
    }

    proof fn lemma_bytes_injective(a: i32, b: i32) {
        lemma_u32_le_bytes_injective(#[verifier::truncate] (a as u32), #[verifier::truncate] (b as u32));
        assert(a as u32 == b as u32 ==> a == b) by (bit_vector);
    }
}

impl Pod for i64 {
    open spec fn spec_size() -> nat {
        8
    }

    open spec fn spec_bytes(self) -> Seq<u8> {
        u64_le_bytes(#[verifier::truncate] (self as u64))
    }

    fn size() -> (r: usize) {
        8
    }

    fn zeroed() -> (r: i64) {
        let z = [0u8; 8];
        assert(z@ =~= Seq::new(8, |i: int| 0u8));
        Self::from_bytes(&z)
    }

    fn from_bytes(b: &[u8]) -> (r: i64) {
        let u = u64_from_le(b);
        let r = u as i64;
        assert(r as u64 == u) by (bit_vector)
            requires
                r == u as i64,
        ;
        r
    }

    proof fn lemma_bytes_len(v: i64) {
    }

    proof fn lemma_bytes_injective(a: i64, b: i64) {
        lemma_u64_le_bytes_injective(#[verifier::truncate] (a as u64), #[verifier::truncate] (b as u64));
        assert(a as u64 == b as u64 ==> a == b) by (bit_vector);
    }
}

impl Pod for i128 {
    open spec fn spec_size() -> nat {
        16
    }

    open spec fn spec_bytes(self) -> Seq<u8> {
        u128_le_bytes(#[verifier::truncate] (self as u128))
    }

    fn size() -> (r: usize) {
        16
    }

    fn zeroed() -> (r: i128) {
        let z = [0u8; 16];
        assert(z@ =~= Seq::new(16, |i: int| 0u8));
        Self::from_bytes(&z)
    }

    fn from_bytes(b: &[u8]) -> (r: i128) {
        let u = u128_from_le(b);
        let r = u as i128;
        assert(r as u128 == u) by (bit_vector)
            requires
                r == u as i128,
        ;
        r
    }

    proof fn lemma_bytes_len(v: i128) {
    }

    proof fn lemma_bytes_injective(a: i128, b: i128) {
        lemma_u128_le_bytes_injective(#[verifier::truncate] (a as u128), #[verifier::truncate] (b as u128));
        assert(a as u128 == b as u128 ==> a == b) by (bit_vector);
    }
}

impl Pod for i8 {
    open spec fn spec_size() -> nat {
        1
    }

    open spec fn spec_bytes(self) -> Seq<u8> {
        seq![#[verifier::truncate] (self as u8)]
    }

    fn size() -> (r: usize) {
        1
    }

    fn zeroed() -> (r: i8) {
        let z = [0u8; 1];
        assert(z@ =~= Seq::new(1, |i: int| 0u8));
        Self::from_bytes(&z)
    }

    fn from_bytes(b: &[u8]) -> (r: i8) {
        let u = b[0];
        let r = u as i8;
        assert(r as u8 == u) by (bit_vector)
            requires
                r == u as i8,
        ;
        assert(seq![#[verifier::truncate] (r as u8)] =~= b@);
        r
    }

    proof fn lemma_bytes_len(v: i8) {
    }

    proof fn lemma_bytes_injective(a: i8, b: i8) {
        let x = #[verifier::truncate] (a as u8);
        let y = #[verifier::truncate] (b as u8);
        assert(seq![x][0] == seq![y][0]);
        assert(a == b) by (bit_vector)
            requires
                #[verifier::truncate] (a as u8) == #[verifier::truncate] (b as u8),
        ;
    }
}

/// The bytes of the values of `s`, one after another.
pub open spec fn concat_bytes<T: Pod>(s: Seq<T>) -> Seq<u8> {
    Seq::new(
        (s.len() * T::spec_size()) as nat,
        |i: int| s[i / (T::spec_size() as int)].spec_bytes()[i % (T::spec_size() as int)],
    )
}

impl<T: Pod, const N: usize> Pod for [T; N] {
    open spec fn spec_size() -> nat {
        (N * T::spec_size()) as nat
    }

    open spec fn spec_bytes(self) -> Seq<u8> {
        concat_bytes(self@)
    }

    fn size() -> (r: usize) {
        if N == 0 {
            0
        } else {
            proof {
                assert(T::spec_size() <= N * T::spec_size()) by (nonlinear_arith)
                    requires
                        N >= 1,
                ;
            }
            N * T::size()
        }
    }

    fn zeroed() -> (r: [T; N]) {
        let z = T::zeroed();
        let r = [z; N];
        assert(r.spec_bytes() =~= Seq::new(Self::spec_size(), |i: int| 0u8)) by {
            assert forall|i: int| 0 <= i < N * T::spec_size() implies #[trigger] r.spec_bytes()[i] == 0u8 by {
                let sz = T::spec_size() as int;
                lemma_fundamental_div_mod(i, sz);
                assert(0 <= i % sz < sz);
                assert(0 <= i / sz < N) by (nonlinear_arith)
                    requires
                        0 <= i < N * sz,
                        sz > 0,
                        i == sz * (i / sz) + i % sz,
                        0 <= i % sz < sz,
                ;
            }
        }
        r
    }

    fn from_bytes(b: &[u8]) -> (r: [T; N]) {
        let mut a = [T::zeroed(); N];
        if N == 0 {
            assert(a.spec_bytes() =~= b@);
            return a;
        }
        proof {
            assert(T::spec_size() <= N * T::spec_size()) by (nonlinear_arith)
                requires
                    N >= 1,
            ;
        }
        let len = b.len();
        let sz = T::size();
        let mut k: usize = 0;
        while k < N
            invariant
                k <= N,
                N >= 1,
                sz == T::spec_size(),
                b@.len() == N * sz,
                len == b@.len(),
                a@.len() == N,
                forall|j: int| 0 <= j < k ==> #[trigger] a@[j].spec_bytes() == b@.subrange(j * sz, j * sz + sz),
            decreases N - k,
        {
            proof {
                assert(k * sz + sz <= N * sz) by (nonlinear_arith)
                    requires
                        k < N,
                ;
            }
            let chunk = slice_subrange(b, k * sz, k * sz + sz);
            a[k] = T::from_bytes(chunk);
            k = k + 1;
        }
        assert forall|i: int| 0 <= i < b@.len() implies #[trigger] a.spec_bytes()[i] == b@[i] by {
            let szi = sz as int;
            let q = i / szi;
            let m = i % szi;
            assert(szi > 0) by (nonlinear_arith)
                requires
                    0 <= i < N * szi,
            ;
            lemma_fundamental_div_mod(i, szi);
            assert(0 <= m < szi);
            assert(0 <= q < N) by (nonlinear_arith)
                requires
                    0 <= i < N * szi,
                    szi > 0,
                    i == szi * q + m,
                    0 <= m < szi,
            ;
            assert(q * szi + szi <= N * szi) by (nonlinear_arith)
                requires
                    0 <= q < N,
                    szi > 0,
            ;
            assert(a@[q].spec_bytes() == b@.subrange(q * szi, q * szi + szi));
            assert(q * szi + m == i) by (nonlinear_arith)
                requires
                    i == szi * q + m,
            ;
            assert(a.spec_bytes()[i] == a@[q].spec_bytes()[m]);
            assert(b@.subrange(q * szi, q * szi + szi)[m] == b@[i]);
        }
        assert(a.spec_bytes() =~= b@);
        a
    }

    proof fn lemma_bytes_len(v: [T; N]) {
    }

    proof fn lemma_bytes_injective(a: [T; N], b: [T; N]) {
        let sz = T::spec_size() as int;
        assert forall|j: int| 0 <= j < N implies a@[j] == b@[j] by {
            T::lemma_bytes_len(a@[j]);
            T::lemma_bytes_len(b@[j]);
            assert forall|m: int| 0 <= m < sz implies a@[j].spec_bytes()[m] == b@[j].spec_bytes()[m] by {
                let i = j * sz + m;
                assert(0 <= i < N * sz) by (nonlinear_arith)
                    requires
                        0 <= j < N,
                        0 <= m < sz,
                        i == j * sz + m,
                ;
                lemma_fundamental_div_mod_converse(i, sz, j, m);
                assert(a.spec_bytes()[i] == a@[j].spec_bytes()[m]);
                assert(b.spec_bytes()[i] == b@[j].spec_bytes()[m]);
            }
            assert(a@[j].spec_bytes() =~= b@[j].spec_bytes());
            T::lemma_bytes_injective(a@[j], b@[j]);
        }
        assert(a =~= b);
    }
}

} // verus!
