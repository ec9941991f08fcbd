//! Little-endian integers on the wire.
use vstd::prelude::*;

verus! {

/// `256` to the power `k`.
pub open spec fn pow256(k: nat) -> nat
    decreases k,
{
    if k == 0 {
        1
    } else {
        256 * pow256((k - 1) as nat)
    }
}

/// The unsigned integer that the bytes `s` hold, least significant first.
pub open spec fn le_value(s: Seq<u8>) -> nat
    decreases s.len(),
{
    if s.len() == 0 {
        0
    } else {
        (s[0] + 256 * le_value(s.drop_first())) as nat
    }
}

proof fn lemma_pow256_monotone(a: nat, b: nat)
    requires
        a <= b,
    ensures
        pow256(a) <= pow256(b),
    decreases b,
{
    if a < b {
        lemma_pow256_monotone(a, (b - 1) as nat);
    }
}

/// The sixteenth power of 256 is `u128::MAX + 1`.
proof fn lemma_pow256_16()
    ensures
        pow256(16) == u128::MAX + 1,
{
    reveal_with_fuel(pow256, 17);
}

/// Reads `width` bytes at `start` as a little-endian integer.
pub fn read_le(src: &[u8], start: usize, width: usize) -> (r: u128)
    requires
        width <= 16,
        start + width <= src@.len(),
    ensures
        r == le_value(src@.subrange(start as int, start + width)),
        r < pow256(width as nat),
{
    let n: usize = src.len();
    let mut acc: u128 = 0;
    let mut i: usize = width;
    proof {
        assert(src@.subrange(start + width, start + width) =~= Seq::<u8>::empty());
    }
    while i > 0
        invariant
            i <= width <= 16,
            start + width <= src@.len(),
            n == src@.len(),
            acc == le_value(src@.subrange(start + i, start + width)),
            acc < pow256((width - i) as nat),
        decreases i,
    {
        let b = src[start + i - 1];
        proof {
            let s = src@.subrange(start + i - 1, start + width);
            assert(s.drop_first() =~= src@.subrange(start + i, start + width));
            lemma_pow256_monotone((width - i + 1) as nat, 16);
            lemma_pow256_16();
            assert(pow256((width - i + 1) as nat) == 256 * pow256((width - i) as nat));
            assert(acc * 256 + b < 256 * pow256((width - i) as nat)) by (nonlinear_arith)
                requires
                    acc < pow256((width - i) as nat),
                    b < 256,
            ;
        }
        acc = acc * 256 + b as u128;
        i = i - 1;
    }
    proof {
        assert(src@.subrange(start + i, start + width) =~= src@.subrange(start as int, start + width));
    }
    acc
}

/// The two little-endian bytes of `v`.
pub fn u16_le_bytes(v: u16) -> (r: (u8, u8))
    ensures
        le_value(seq![r.0, r.1]) == v,
{
    let lo = (v % 256) as u8;
    let hi = (v / 256) as u8;
    proof {
        let s = seq![lo, hi];
        assert(s.drop_first() =~= seq![hi]);
        assert(s.drop_first().drop_first() =~= Seq::<u8>::empty());
        reveal_with_fuel(le_value, 3);
    }
    (lo, hi)
}

/// Appending a byte adds it at the next power of 256.
proof fn lemma_le_push(s: Seq<u8>, b: u8)
    ensures
        le_value(s.push(b)) == le_value(s) + pow256(s.len()) * b,
    decreases s.len(),
{
    if s.len() == 0 {
        assert(s.push(b).drop_first() =~= Seq::<u8>::empty());
        assert(le_value(Seq::<u8>::empty()) == 0);
        assert(pow256(0) == 1);
        assert(le_value(s.push(b)) == b);
    } else {
        assert(s.push(b).drop_first() =~= s.drop_first().push(b));
        lemma_le_push(s.drop_first(), b);
        let x = le_value(s.drop_first());
        let p = pow256((s.len() - 1) as nat);
        assert(256 * (x + p * b) == 256 * x + (256 * p) * b) by (nonlinear_arith);
        assert(s.push(b)[0] == s[0]);
        assert(pow256(s.len()) == 256 * p);
    }
}

/// The sixteen little-endian bytes of `v`.
pub fn u128_le_bytes(v: u128) -> (r: Vec<u8>)
    ensures
        r@.len() == 16,
        le_value(r@) == v,
{
    let mut r: Vec<u8> = Vec::new();
    let mut rest: u128 = v;
    let mut i: usize = 0;
    proof {
        assert(le_value(r@) == 0);
        assert(pow256(0) == 1);
    }
    while i < 16
        invariant
            i <= 16,
            r@.len() == i,
            le_value(r@) + pow256(i as nat) * rest == v,
        decreases 16 - i,
    {
        let b = (rest % 256) as u8;
        proof {
            lemma_le_push(r@, b);
            let p = pow256(i as nat);
            assert(p * rest == p * b + (256 * p) * (rest / 256)) by (nonlinear_arith)
                requires
                    b == rest % 256,
            ;
        }
        r.push(b);
        rest = rest / 256;
        i = i + 1;
    }
    proof {
        lemma_pow256_16();
        assert(rest == 0) by (nonlinear_arith)
            requires
                le_value(r@) + pow256(16) * rest == v,
                pow256(16) == u128::MAX + 1,
                v <= u128::MAX,
                rest >= 0,
        ;
    }
    r
}

} // verus!
