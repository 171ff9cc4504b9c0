//! Little-endian byte arithmetic shared by the register windows and the
//! TRB layouts.

use vstd::prelude::*;

verus! {

/// `256` to the power `k`.
pub open spec fn pow256(k: nat) -> nat
    decreases k,
{
    if k == 0 {
        1
    } else {
        256 * pow256((k - 1) as nat)
    }
}

/// Byte `k` (counted from the least significant one) of `v`.
pub open spec fn byte_of(v: nat, k: nat) -> u8 {
    ((v / pow256(k)) % 256) as u8
}

/// The first `n` little-endian bytes of `v`.
pub open spec fn le_bytes(v: nat, n: nat) -> Seq<u8> {
    Seq::new(n, |i: int| byte_of(v, i as nat))
}

/// The number that a sequence of bytes stands for, least significant first.
pub open spec fn le_value(s: Seq<u8>) -> nat
    decreases s.len(),
{
    if s.len() == 0 {
        0
    } else {
        (s[0] + 256 * le_value(s.drop_first())) as nat
    }
}

pub proof fn lemma_pow256_pos(k: nat)
    ensures
        pow256(k) > 0,
    decreases k,
{
    if k > 0 {
        lemma_pow256_pos((k - 1) as nat);
    }
}

pub proof fn lemma_pow256_mono(a: nat, b: nat)
    requires
        a <= b,
    ensures
        pow256(a) <= pow256(b),
    decreases b,
{
    if a < b {
        lemma_pow256_mono(a, (b - 1) as nat);
        lemma_pow256_pos((b - 1) as nat);
    }
}

pub proof fn lemma_pow256_8()
    ensures
        pow256(8) == 0x1_0000_0000_0000_0000,
        pow256(4) == 0x1_0000_0000,
        pow256(2) == 0x1_0000,
        pow256(1) == 0x100,
{
    assert(pow256(0) == 1);
    assert(pow256(1) == 0x100);
    assert(pow256(2) == 0x1_0000);
    assert(pow256(3) == 0x100_0000);
    assert(pow256(4) == 0x1_0000_0000);
    assert(pow256(5) == 0x100_0000_0000);
    assert(pow256(6) == 0x1_0000_0000_0000);
    assert(pow256(7) == 0x100_0000_0000_0000);
    assert(pow256(8) == 0x1_0000_0000_0000_0000);
}

pub proof fn lemma_le_value_bound(s: Seq<u8>)
    ensures
        le_value(s) < pow256(s.len()),
    decreases s.len(),
{
    if s.len() > 0 {
        lemma_le_value_bound(s.drop_first());
        assert(le_value(s) <= 255 + 256 * (pow256((s.len() - 1) as nat) - 1)) by (nonlinear_arith)
            requires
                le_value(s) == s[0] + 256 * le_value(s.drop_first()),
                le_value(s.drop_first()) < pow256((s.len() - 1) as nat),
                s[0] <= 255,
        ;
    }
}

/// The value of the first `n` bytes of `v` is `v` modulo `256^n`.
pub proof fn lemma_le_value_of_bytes(v: nat, n: nat)
    ensures
        le_value(le_bytes(v, n)) == v % pow256(n),
    decreases n,
{
    lemma_pow256_pos(n);
    if n > 0 {
        let m = (n - 1) as nat;
        lemma_pow256_pos(m);
        let s = le_bytes(v, n);
        let t = le_bytes(v / 256, m);
        assert forall|i: int| 0 <= i < m implies s.drop_first()[i] == t[i] by {
            lemma_pow256_pos(i as nat);
            vstd::arithmetic::div_mod::lemma_div_denominator(v as int, 256, pow256(i as nat) as int);
            assert(pow256((i + 1) as nat) == 256 * pow256(i as nat));
        }
        assert(s.drop_first() =~= t);
        lemma_le_value_of_bytes(v / 256, m);
        assert(pow256(0) == 1);
        assert(s[0] == v % 256);
        assert(pow256(n) == 256 * pow256(m));
        vstd::arithmetic::div_mod::lemma_mod_breakdown(v as int, 256, pow256(m) as int);
        assert(le_value(s) == s[0] + 256 * le_value(t));
    } else {
        assert(pow256(0) == 1);
    }
}

/// The bytes of a number read back give the number, where it fits.
pub proof fn lemma_le_round_trip(v: nat, n: nat)
    requires
        v < pow256(n),
    ensures
        le_value(le_bytes(v, n)) == v,
{
    lemma_le_value_of_bytes(v, n);
    vstd::arithmetic::div_mod::lemma_small_mod(v, pow256(n));
}

/// The bytes of the all-ones values of one, two, four and eight bytes.
pub proof fn lemma_byte_of_ones(k: nat)
    ensures
        k < 8 ==> byte_of(0xFFFF_FFFF_FFFF_FFFF, k) == 0xFF,
        k < 4 ==> byte_of(0xFFFF_FFFF, k) == 0xFF,
        k < 2 ==> byte_of(0xFFFF, k) == 0xFF,
        k < 1 ==> byte_of(0xFF, k) == 0xFF,
        byte_of(0, k) == 0,
        byte_of(1, k) == (if k == 0 { 1u8 } else { 0u8 }),
{
    lemma_pow256_8();
    lemma_pow256_pos(k);
    assert(pow256(0) == 1);
    assert(pow256(3) == 0x100_0000);
    assert(pow256(5) == 0x100_0000_0000);
    assert(pow256(6) == 0x1_0000_0000_0000);
    assert(pow256(7) == 0x100_0000_0000_0000);
    assert(0nat / pow256(k) == 0) by (nonlinear_arith)
        requires
            pow256(k) > 0,
    ;
    if k == 0 {
    } else if k == 1 {
    } else if k == 2 {
    } else if k == 3 {
    } else if k == 4 {
    } else if k == 5 {
    } else if k == 6 {
    } else if k == 7 {
    }
    if k > 0 {
        lemma_pow256_mono(1, k);
        assert(1nat / pow256(k) == 0) by (nonlinear_arith)
            requires
                pow256(k) >= 256,
        ;
    }
}

/// Byte `i` of `place`-style overwrites: the placed bytes inside, the old
/// ones outside.
pub proof fn lemma_place_index(s: Seq<u8>, pos: int, v: nat, n: nat, i: int)
    requires
        0 <= pos,
        pos + n <= s.len(),
        0 <= i < s.len(),
    ensures
        (s.subrange(0, pos) + le_bytes(v, n) + s.subrange(pos + n, s.len() as int))[i] == if pos <= i
            < pos + n {
            byte_of(v, (i - pos) as nat)
        } else {
            s[i]
        },
{
}

/// Reads `n` bytes at `start` of `s` as a little-endian number.
pub fn read_le(s: &[u8], start: usize, n: usize) -> (r: u64)
    requires
        n <= 8,
        start + n <= s@.len(),
    ensures
        r == le_value(s@.subrange(start as int, start + n)),
{
    let len = s.len();
    let end = start + n;
    let mut k = end;
    let mut acc: u64 = 0;
    proof {
        lemma_pow256_8();
        assert(s@.subrange(end as int, end as int) =~= Seq::<u8>::empty());
    }
    while k > start
        invariant
            start <= k <= end,
            end == start + n,
            n <= 8,
            end <= s@.len(),
            acc == le_value(s@.subrange(k as int, end as int)),
            pow256(8) == 0x1_0000_0000_0000_0000,
        decreases k - start,
    {
        proof {
            lemma_le_value_bound(s@.subrange(k as int, end as int));
            lemma_pow256_mono((end - k) as nat, 7);
            assert(pow256(8) == 256 * pow256(7));
            assert(s@.subrange(k - 1, end as int).drop_first() =~= s@.subrange(k as int, end as int));
        }
        k = k - 1;
        acc = s[k] as u64 + 256 * acc;
    }
    acc
}

/// Byte `k` of `v`, least significant first.
pub fn le_byte(v: u64, k: usize) -> (r: u8)
    requires
        k < 8,
    ensures
        r == byte_of(v as nat, k as nat),
{
    let mut cur: u64 = v;
    let mut i: usize = 0;
    assert(pow256(0) == 1);
    while i < k
        invariant
            i <= k,
            k < 8,
            cur == v as nat / pow256(i as nat),
        decreases k - i,
    {
        proof {
            lemma_pow256_pos(i as nat);
            vstd::arithmetic::div_mod::lemma_div_denominator(v as int, pow256(i as nat) as int, 256);
            assert(pow256((i + 1) as nat) == 256 * pow256(i as nat));
            vstd::arithmetic::mul::lemma_mul_is_commutative(256, pow256(i as nat) as int);
        }
        cur = cur / 256;
        i = i + 1;
    }
    (cur % 256) as u8
}

/// Writes the `n` low bytes of `v` at `start` of `s`, least significant first.
pub fn write_le(s: &mut Vec<u8>, start: usize, v: u64, n: usize)
    requires
        n <= 8,
        start + n <= old(s)@.len(),
    ensures
        final(s)@ =~= old(s)@.subrange(0, start as int) + le_bytes(v as nat, n as nat)
            + old(s)@.subrange(start + n, old(s)@.len() as int),
{
    let len = s.len();
    let mut cur: u64 = v;
    let mut i: usize = 0;
    assert(pow256(0) == 1);
    while i < n
        invariant
            i <= n,
            n <= 8,
            start + n <= s@.len(),
            s@.len() == old(s)@.len(),
            len == s@.len(),
            cur == v as nat / pow256(i as nat),
            forall|j: int| 0 <= j < start ==> s@[j] == old(s)@[j],
            forall|j: int| start + n <= j < s@.len() ==> s@[j] == old(s)@[j],
            forall|j: int| 0 <= j < i ==> s@[start + j] == #[trigger] byte_of(v as nat, j as nat),
        decreases n - i,
    {
        s.set(start + i, (cur % 256) as u8);
        proof {
            lemma_pow256_pos(i as nat);
            vstd::arithmetic::div_mod::lemma_div_denominator(v as int, pow256(i as nat) as int, 256);
            assert(pow256((i + 1) as nat) == 256 * pow256(i as nat));
            vstd::arithmetic::mul::lemma_mul_is_commutative(256, pow256(i as nat) as int);
        }
        cur = cur / 256;
        i = i + 1;
    }
}

} // verus!
