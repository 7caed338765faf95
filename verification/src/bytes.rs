//! Byte strings read as unsigned big-endian numbers.
//!
//! Every identifier of this crate is a fixed number of bytes, most significant
//! first. The layouts are stated on the number that the bytes spell, so that
//! "sorts by creation time" is plain `<=` on naturals.

use vstd::arithmetic::div_mod::{lemma_div_denominator, lemma_mod_breakdown};
use vstd::prelude::*;

verus! {

/// 256 to the power `n`: the number of byte strings of length `n`.
pub open spec fn pow256(n: nat) -> nat
    decreases n,
{
    if n == 0 {
        1
    } else {
        256 * pow256((n - 1) as nat)
    }
}

/// The number that `s` spells, most significant byte first.
pub open spec fn be_value(s: Seq<u8>) -> nat
    decreases s.len(),
{
    if s.len() == 0 {
        0
    } else {
        be_value(s.drop_last()) * 256 + s.last() as nat
    }
}

/// The `n` low-order base-256 digits of `v`, most significant first.
pub open spec fn be_bytes(v: nat, n: nat) -> Seq<u8>
    decreases n,
{
    if n == 0 {
        Seq::empty()
    } else {
        be_bytes(v / 256, (n - 1) as nat).push((v % 256) as u8)
    }
}

/// A power of 256 is never zero.
pub proof fn lemma_pow256_positive(n: nat)
    ensures
        pow256(n) > 0,
    decreases n,
{
    if n > 0 {
        lemma_pow256_positive((n - 1) as nat);
    }
}

/// A higher power of 256 is no smaller.
pub proof fn lemma_pow256_monotonic(a: nat, b: nat)
    requires
        a <= b,
    ensures
        pow256(a) <= pow256(b),
    decreases b,
{
    if a < b {
        lemma_pow256_monotonic(a, (b - 1) as nat);
    }
}

/// The powers of 256 that the three identifier widths and `u128` need.
pub proof fn lemma_pow256_values()
    ensures
        pow256(0) == 1,
        pow256(1) == 0x100,
        pow256(2) == 0x1_0000,
        pow256(3) == 0x100_0000,
        pow256(4) == 0x1_0000_0000,
        pow256(8) == 0x1_0000_0000_0000_0000,
        pow256(12) == 0x1_0000_0000_0000_0000_0000_0000,
        pow256(15) == 0x100_0000_0000_0000_0000_0000_0000_0000,
        pow256(16) == 0x1_0000_0000_0000_0000_0000_0000_0000_0000,
{
    reveal_with_fuel(pow256, 17);
}

/// Writing in `n` bytes gives `n` bytes.
pub proof fn lemma_be_bytes_len(v: nat, n: nat)
    ensures
        be_bytes(v, n).len() == n,
    decreases n,
{
    if n > 0 {
        lemma_be_bytes_len(v / 256, (n - 1) as nat);
    }
}

/// Byte `k` of `be_bytes(v, n)` is the base-256 digit of `v` of weight
/// `256^(n-1-k)`.
pub proof fn lemma_be_bytes_digit(v: nat, n: nat, k: int)
    requires
        0 <= k < n,
    ensures
        pow256((n - 1 - k) as nat) > 0,
        be_bytes(v, n).len() == n,
        be_bytes(v, n)[k] as nat == (v / pow256((n - 1 - k) as nat)) % 256,
    decreases n,
{
    lemma_be_bytes_len(v, n);
    lemma_be_bytes_len(v / 256, (n - 1) as nat);
    lemma_pow256_positive((n - 1 - k) as nat);
    if k == n - 1 {
        assert(pow256(0) == 1);
    } else {
        lemma_be_bytes_digit(v / 256, (n - 1) as nat, k);
        let w = pow256((n - 2 - k) as nat);
        assert(pow256((n - 1 - k) as nat) == 256 * w);
        lemma_div_denominator(v as int, 256, w as int);
    }
}

/// A byte string of length `n` spells a number below `256^n`.
pub proof fn lemma_be_value_bound(s: Seq<u8>)
    ensures
        be_value(s) < pow256(s.len()),
    decreases s.len(),
{
    if s.len() > 0 {
        lemma_be_value_bound(s.drop_last());
    }
}

/// Writing `v` in `n` bytes and reading it back gives `v` modulo `256^n`.
pub proof fn lemma_be_value_of_bytes(v: nat, n: nat)
    ensures
        pow256(n) > 0,
        be_value(be_bytes(v, n)) == v % pow256(n),
    decreases n,
{
    lemma_pow256_positive(n);
    if n > 0 {
        let m = (n - 1) as nat;
        let head = be_bytes(v / 256, m);
        lemma_be_value_of_bytes(v / 256, m);
        lemma_pow256_positive(m);
        assert(head.push((v % 256) as u8).drop_last() =~= head);
        lemma_mod_breakdown(v as int, 256, pow256(m) as int);
    }
}

/// Writing in `n` bytes a number below `256^n` loses nothing.
pub proof fn lemma_be_value_of_bytes_exact(v: nat, n: nat)
    requires
        v < pow256(n),
    ensures
        be_value(be_bytes(v, n)) == v,
{
    lemma_be_value_of_bytes(v, n);
    vstd::arithmetic::div_mod::lemma_small_mod(v, pow256(n));
}

/// Reading a byte string and writing the number back in as many bytes gives
/// the same string: a fixed-length string is determined by its value.
pub proof fn lemma_be_bytes_of_value(s: Seq<u8>)
    ensures
        be_bytes(be_value(s), s.len()) == s,
    decreases s.len(),
{
    if s.len() > 0 {
        let head = s.drop_last();
        lemma_be_bytes_of_value(head);
        let v = be_value(s);
        assert(v / 256 == be_value(head));
        assert(v % 256 == s.last() as nat);
        assert(head.push(s.last()) =~= s);
    } else {
        assert(be_bytes(0, 0) =~= s);
    }
}

/// The `N` low-order bytes of `v`, most significant first.
pub fn to_be<const N: usize>(v: u128) -> (out: [u8; N])
    ensures
        out@ == be_bytes(v as nat, N as nat),
{
    let mut out = [0u8;N];
    let mut rest: u128 = v;
    let mut i: usize = N;
    proof {
        assert(pow256(0) == 1);
    }
    while i > 0
        invariant
            i <= N,
            pow256((N - i) as nat) > 0,
            rest as nat == (v as nat) / pow256((N - i) as nat),
            forall|k: int| i <= k < N ==> out@[k] == be_bytes(v as nat, N as nat)[k],
        decreases i,
    {
        i = i - 1;
        proof {
            lemma_be_bytes_digit(v as nat, N as nat, i as int);
            let w = pow256((N - 1 - i) as nat);
            assert(pow256((N - i) as nat) == 256 * w);
            lemma_div_denominator(v as int, w as int, 256);
            assert(w * 256 == 256 * w) by (nonlinear_arith);
            lemma_pow256_positive((N - i) as nat);
        }
        out[i] = (rest % 256) as u8;
        rest = rest / 256;
    }
    proof {
        lemma_be_bytes_len(v as nat, N as nat);
        assert(out@ =~= be_bytes(v as nat, N as nat));
    }
    out
}

/// The number that the `N` bytes spell, most significant first.
pub fn from_be<const N: usize>(bytes: &[u8; N]) -> (v: u128)
    requires
        N <= 16,
    ensures
        v as nat == be_value(bytes@),
        (v as nat) < pow256(N as nat),
{
    let mut acc: u128 = 0;
    let mut i: usize = 0;
    while i < N
        invariant
            i <= N,
            N <= 16,
            acc as nat == be_value(bytes@.take(i as int)),
            (acc as nat) < pow256(i as nat),
        decreases N - i,
    {
        proof {
            lemma_pow256_monotonic(i as nat, 15);
            lemma_pow256_values();
            let next = bytes@.take(i + 1);
            assert(next.drop_last() =~= bytes@.take(i as int));
            assert(next.last() == bytes@[i as int]);
        }
        acc = acc * 256 + bytes[i] as u128;
        i = i + 1;
    }
    proof {
        assert(bytes@.take(N as int) =~= bytes@);
    }
    acc
}

} // verus!
