//! Big-endian integer fields and fixed-width byte layouts.

use vstd::prelude::*;

verus! {

/// 256 to the power `n`.
pub open spec fn pow256(n: nat) -> nat
    decreases n,
{
    if n == 0 {
        1
    } else {
        256 * pow256((n - 1) as nat)
    }
}

/// The unsigned integer that the bytes `s` denote in big-endian order.
pub open spec fn be_value(s: Seq<u8>) -> nat
    decreases s.len(),
{
    if s.len() == 0 {
        0
    } else {
        be_value(s.drop_last()) * 256 + s.last() as nat
    }
}

/// The `n` low-order bytes of `x`, most significant first.
pub open spec fn be_bytes(x: nat, n: nat) -> Seq<u8>
    decreases n,
{
    if n == 0 {
        seq![]
    } else {
        be_bytes(x / 256, (n - 1) as nat).push((x % 256) as u8)
    }
}

/// `n` zero bytes.
pub open spec fn zeros(n: nat) -> Seq<u8> {
    Seq::new(n, |i: int| 0u8)
}

/// `s` with the bytes from `off` on replaced by `t`.
pub open spec fn splice(s: Seq<u8>, off: int, t: Seq<u8>) -> Seq<u8> {
    s.subrange(0, off) + t + s.subrange(off + t.len(), s.len() as int)
}

pub proof fn lemma_pow256_pos(n: nat)
    ensures
        pow256(n) >= 1,
    decreases n,
{
    if n > 0 {
        lemma_pow256_pos((n - 1) as nat);
    }
}

pub proof fn lemma_pow256_values()
    ensures
        pow256(1) == 256,
        pow256(2) == 0x1_0000,
        pow256(3) == 0x100_0000,
        pow256(4) == 0x1_0000_0000,
        pow256(7) == 0x100_0000_0000_0000,
        pow256(8) == 0x1_0000_0000_0000_0000,
{
    reveal_with_fuel(pow256, 9);
}

pub proof fn lemma_pow256_mono(a: nat, b: nat)
    requires
        a <= b,
    ensures
        pow256(a) <= pow256(b),
    decreases b,
{
    if a < b {
        lemma_pow256_mono(a, (b - 1) as nat);
        lemma_pow256_pos((b - 1) as nat);
    }
}

/// A big-endian value of `n` bytes is below `256^n`.
pub proof fn lemma_be_value_bound(s: Seq<u8>)
    ensures
        be_value(s) < pow256(s.len()),
    decreases s.len(),
{
    if s.len() > 0 {
        let p = s.drop_last();
        lemma_be_value_bound(p);
        let v = be_value(p);
        let q = pow256(p.len());
        let l = s.last() as nat;
        assert(v * 256 + l < 256 * q) by (nonlinear_arith)
            requires
                v < q,
                l < 256,
        ;
    }
}

/// Encoding then decoding keeps the `n` low-order bytes of `x`.
pub proof fn lemma_be_bytes_value(x: nat, n: nat)
    ensures
        be_bytes(x, n).len() == n,
        be_value(be_bytes(x, n)) == x % pow256(n),
    decreases n,
{
    if n > 0 {
        lemma_be_bytes_value(x / 256, (n - 1) as nat);
        let s = be_bytes(x, n);
        assert(s.drop_last() =~= be_bytes(x / 256, (n - 1) as nat));
        let m = pow256((n - 1) as nat);
        lemma_pow256_pos((n - 1) as nat);
        vstd::arithmetic::div_mod::lemma_breakdown(x as int, 256, m as int);
        assert(256 * m == pow256(n));
    }
}

/// The last `k` bytes of the `n`-byte encoding are the `k`-byte encoding.
pub proof fn lemma_be_bytes_suffix(x: nat, n: nat, k: nat)
    requires
        k <= n,
    ensures
        be_bytes(x, n).subrange(n - k, n as int) =~= be_bytes(x, k),
    decreases k,
{
    lemma_be_bytes_value(x, n);
    lemma_be_bytes_value(x, k);
    if k > 0 {
        lemma_be_bytes_suffix(x / 256, (n - 1) as nat, (k - 1) as nat);
        lemma_be_bytes_value(x / 256, (n - 1) as nat);
        assert(be_bytes(x, n).subrange(n - k, n as int) =~= be_bytes(x / 256, (n - 1) as nat).subrange(
            n - k,
            n - 1,
        ).push((x % 256) as u8));
    }
}

/// Decoding then encoding gives back the bytes.
pub proof fn lemma_be_value_bytes(s: Seq<u8>)
    ensures
        be_bytes(be_value(s), s.len()) =~= s,
    decreases s.len(),
{
    if s.len() > 0 {
        let p = s.drop_last();
        lemma_be_value_bytes(p);
        let v = be_value(s);
        let l = s.last() as nat;
        assert(v / 256 == be_value(p) && v % 256 == l) by (nonlinear_arith)
            requires
                v == be_value(p) * 256 + l,
                l < 256,
        ;
        assert(be_bytes(v, s.len()) =~= be_bytes(be_value(p), p.len()).push(s.last()));
    }
}

/// The big-endian value of `n <= 8` bytes of `buf` starting at `start`.
pub fn read_be(buf: &[u8], start: usize, n: usize) -> (r: u64)
    requires
        n <= 8,
        start + n <= buf@.len(),
    ensures
        r as nat == be_value(buf@.subrange(start as int, start + n)),
{
    let len = buf.len();
    let mut acc: u64 = 0;
    let mut i: usize = 0;
    while i < n
        invariant
            len == buf@.len(),
            i <= n <= 8,
            start + n <= buf@.len(),
            acc as nat == be_value(buf@.subrange(start as int, start + i)),
        decreases n - i,
    {
        proof {
            lemma_be_value_bound(buf@.subrange(start as int, start + i));
            lemma_pow256_mono(i as nat, 7);
            lemma_pow256_values();
        }
        let b = buf[start + i];
        acc = acc * 256 + b as u64;
        i = i + 1;
        assert(buf@.subrange(start as int, start + i).drop_last() =~= buf@.subrange(
            start as int,
            start + i - 1,
        ));
    }
    acc
}

pub fn read_be_u16(buf: &[u8], start: usize) -> (r: u16)
    requires
        start + 2 <= buf@.len(),
    ensures
        r as nat == be_value(buf@.subrange(start as int, start + 2)),
{
    let v = read_be(buf, start, 2);
    proof {
        lemma_be_value_bound(buf@.subrange(start as int, start + 2));
        lemma_pow256_values();
    }
    v as u16
}

pub fn read_be_u32(buf: &[u8], start: usize) -> (r: u32)
    requires
        start + 4 <= buf@.len(),
    ensures
        r as nat == be_value(buf@.subrange(start as int, start + 4)),
{
    let v = read_be(buf, start, 4);
    proof {
        lemma_be_value_bound(buf@.subrange(start as int, start + 4));
        lemma_pow256_values();
    }
    v as u32
}

/// The `n` low-order bytes of `x`, most significant first.
pub fn write_be(x: u64, n: usize) -> (r: Vec<u8>)
    ensures
        r@ == be_bytes(x as nat, n as nat),
    decreases n,
{
    if n == 0 {
        Vec::new()
    } else {
        let mut v = write_be(x / 256, n - 1);
        v.push((x % 256) as u8);
        v
    }
}

/// Appends the bytes of `s` to `v`.
pub fn extend_bytes(v: &mut Vec<u8>, s: &[u8])
    ensures
        final(v)@ == old(v)@ + s@,
{
    let n = s.len();
    let mut i: usize = 0;
    while i < n
        invariant
            n == s@.len(),
            i <= n,
            v@ == old(v)@ + s@.subrange(0, i as int),
        decreases n - i,
    {
        v.push(s[i]);
        i = i + 1;
        assert(v@ =~= old(v)@ + s@.subrange(0, i as int));
    }
    assert(s@.subrange(0, n as int) =~= s@);
}

/// Overwrites the bytes of `a` from `off` on with `src`.
pub fn copy_into<const N: usize>(a: &mut [u8; N], off: usize, src: &[u8])
    requires
        off + src@.len() <= N,
    ensures
        final(a)@ == splice(old(a)@, off as int, src@),
{
    let n = src.len();
    let mut i: usize = 0;
    while i < n
        invariant
            n == src@.len(),
            off + n <= N,
            i <= n,
            a@.len() == N,
            a@ == splice(old(a)@, off as int, src@.subrange(0, i as int)),
        decreases n - i,
    {
        a[off + i] = src[i];
        i = i + 1;
        assert(a@ =~= splice(old(a)@, off as int, src@.subrange(0, i as int)));
    }
    assert(src@.subrange(0, n as int) =~= src@);
}

} // verus!
