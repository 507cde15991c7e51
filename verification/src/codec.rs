//! Byte-level helpers for the persisted layouts: big- and little-endian
//! 64-bit integers, stated arithmetically so that contracts stay exact.

use vstd::prelude::*;

verus! {

/// `256^n`.
pub open spec fn pow256(n: nat) -> nat
    decreases n,
{
    if n == 0 {
        1
    } else {
        256 * pow256((n - 1) as nat)
    }
}

/// The integer encoded by a big-endian byte string.
pub open spec fn be_value(bytes: Seq<u8>) -> nat
    decreases bytes.len(),
{
    if bytes.len() == 0 {
        0
    } else {
        be_value(bytes.drop_last()) * 256 + bytes.last() as nat
    }
}

/// The integer encoded by a little-endian byte string.
pub open spec fn le_value(bytes: Seq<u8>) -> nat
    decreases bytes.len(),
{
    if bytes.len() == 0 {
        0
    } else {
        bytes.first() as nat + 256 * le_value(bytes.skip(1))
    }
}

/// The small powers of 256 that the eight-byte codecs lean on.
pub proof fn lemma_pow256_values()
    ensures
        pow256(0) == 1,
        pow256(1) == 0x100,
        pow256(2) == 0x1_0000,
        pow256(3) == 0x100_0000,
        pow256(4) == 0x1_0000_0000,
        pow256(5) == 0x100_0000_0000,
        pow256(6) == 0x1_0000_0000_0000,
        pow256(7) == 0x0100_0000_0000_0000,
        pow256(8) == 0x1_0000_0000_0000_0000,
{
    assert(pow256(1) == 256 * pow256(0));
    assert(pow256(2) == 256 * pow256(1));
    assert(pow256(3) == 256 * pow256(2));
    assert(pow256(4) == 256 * pow256(3));
    assert(pow256(5) == 256 * pow256(4));
    assert(pow256(6) == 256 * pow256(5));
    assert(pow256(7) == 256 * pow256(6));
    assert(pow256(8) == 256 * pow256(7));
}

pub proof fn lemma_pow256_pos(n: nat)
    ensures
        pow256(n) >= 1,
    decreases n,
{
    if n > 0 {
        lemma_pow256_pos((n - 1) as nat);
    }
}

pub proof fn lemma_pow256_monotonic(a: nat, b: nat)
    requires
        a <= b,
    ensures
        pow256(a) <= pow256(b),
    decreases b,
{
    if a < b {
        lemma_pow256_monotonic(a, (b - 1) as nat);
        lemma_pow256_pos(a);
    }
}

/// A little-endian encoding of `n` bytes stays below `256^n`.
pub proof fn lemma_le_value_bound(bytes: Seq<u8>)
    ensures
        le_value(bytes) < pow256(bytes.len()),
    decreases bytes.len(),
{
    if bytes.len() == 0 {
    } else {
        lemma_le_value_bound(bytes.skip(1));
    }
}

/// Appending a byte raises the little-endian value by that byte times `256^len`.
pub proof fn lemma_le_value_snoc(bytes: Seq<u8>, b: u8)
    ensures
        le_value(bytes.push(b)) == le_value(bytes) + b * pow256(bytes.len()),
    decreases bytes.len(),
{
    if bytes.len() == 0 {
        assert(bytes.push(b).skip(1) =~= Seq::<u8>::empty());
        assert(bytes.push(b).first() == b);
        assert(le_value(bytes.push(b)) == b as nat + 256 * le_value(Seq::<u8>::empty()));
        assert(b as nat * pow256(bytes.len()) == b as nat) by (nonlinear_arith)
            requires
                pow256(bytes.len()) == 1,
        ;
    } else {
        assert(bytes.push(b).skip(1) =~= bytes.skip(1).push(b));
        lemma_le_value_snoc(bytes.skip(1), b);
        assert(bytes.push(b).first() == bytes.first());
        let l = le_value(bytes.skip(1));
        let p = pow256((bytes.len() - 1) as nat);
        assert(le_value(bytes.push(b)) == bytes.first() as nat + 256 * (l + b * p));
        assert(256 * (l + b * p) == 256 * l + b * (256 * p)) by (nonlinear_arith);
        assert(pow256(bytes.len()) == 256 * p);
        assert(le_value(bytes) == bytes.first() as nat + 256 * l);
    }
}

/// Reads a big-endian `u64` from eight bytes at `offset`.
pub fn read_u64_be(data: &Vec<u8>, offset: usize) -> (r: u64)
    requires
        offset + 8 <= data@.len(),
    ensures
        r == be_value(data@.subrange(offset as int, offset + 8)),
{
    let n = data.len();
    let mut r: u64 = 0;
    let mut i: usize = 0;
    proof {
        assert(data@.subrange(offset as int, offset as int) =~= Seq::<u8>::empty());
    }
    while i < 8
        invariant
            i <= 8,
            offset + 8 <= n,
            n == data@.len(),
            r == be_value(data@.subrange(offset as int, offset + i)),
            r < pow256(i as nat),
        decreases 8 - i,
    {
        proof {
            let next = data@.subrange(offset as int, offset + i + 1);
            assert(next.drop_last() =~= data@.subrange(offset as int, offset + i));
            assert(next.last() == data@[offset + i]);
            assert(pow256((i + 1) as nat) == 256 * pow256(i as nat));
            lemma_pow256_values();
            lemma_pow256_monotonic(i as nat, 7);
        }
        r = r * 256 + (data[offset + i] as u64);
        i = i + 1;
    }
    r
}

/// Appends a `u64` as eight big-endian bytes.
pub fn push_u64_be(out: &mut Vec<u8>, v: u64)
    ensures
        final(out)@.len() == old(out)@.len() + 8,
        final(out)@.subrange(0, old(out)@.len() as int) == old(out)@,
        be_value(final(out)@.subrange(old(out)@.len() as int, final(out)@.len() as int)) == v,
{
    let ghost base = out@.len() as int;
    let mut i: usize = 0;
    let mut div: u64 = 0x0100_0000_0000_0000;
    proof {
        lemma_pow256_values();
        assert(out@.subrange(base, base) =~= Seq::<u8>::empty());
        assert(out@.subrange(0, base) =~= old(out)@);
        assert(v as nat / 0x1_0000_0000_0000_0000 == 0);
        assert(v as nat / pow256(8) == 0);
    }
    while i < 8
        invariant
            i <= 8,
            out@.len() == base + i,
            0 <= base,
            out@.subrange(0, base) == old(out)@,
            i < 8 ==> div == pow256((7 - i) as nat),
            be_value(out@.subrange(base, base + i)) == v as nat / pow256((8 - i) as nat),
        decreases 8 - i,
    {
        proof {
            lemma_pow256_values();
            lemma_pow256_pos((7 - i) as nat);
            assert(pow256((8 - i) as nat) == 256 * pow256((7 - i) as nat));
            lemma_div_chain(v as nat, pow256((7 - i) as nat));
        }
        let b: u8 = ((v / div) % 256) as u8;
        let ghost prev = out@.subrange(base, base + i);
        out.push(b);
        proof {
            assert(out@.subrange(0, base) =~= old(out)@);
            let next = out@.subrange(base, base + i + 1);
            assert(next.drop_last() =~= prev);
            assert(next.last() == b);
        }
        if i < 7 {
            proof {
                assert(pow256((7 - i) as nat) == 256 * pow256((6 - i) as nat));
            }
            div = div / 256;
        }
        i = i + 1;
    }
    proof {
        lemma_pow256_values();
        assert(v as nat / 1 == v as nat);
    }
}

/// For `p > 0`: `v / p` splits into its low byte and `v / (256 * p)`.
proof fn lemma_div_chain(v: nat, p: nat)
    requires
        p > 0,
    ensures
        v / (256 * p) == (v / p) / 256,
        v / p == ((v / p) / 256) * 256 + (v / p) % 256,
{
    let x = v / p;
    assert(x == (x / 256) * 256 + x % 256) by (nonlinear_arith);
    assert(v / (256 * p) == (v / p) / 256) by (nonlinear_arith)
        requires
            p > 0,
    ;
}

/// Reads a little-endian `u64` from eight bytes at `offset`.
pub fn read_u64_le(data: &Vec<u8>, offset: usize) -> (r: u64)
    requires
        offset + 8 <= data@.len(),
    ensures
        r == le_value(data@.subrange(offset as int, offset + 8)),
{
    let n = data.len();
    let mut r: u64 = 0;
    let mut j: usize = 8;
    proof {
        assert(data@.subrange(offset + 8, offset + 8) =~= Seq::<u8>::empty());
    }
    while j > 0
        invariant
            j <= 8,
            offset + 8 <= n,
            n == data@.len(),
            r == le_value(data@.subrange(offset + j, offset + 8)),
            r < pow256((8 - j) as nat),
        decreases j,
    {
        proof {
            let next = data@.subrange(offset + j - 1, offset + 8);
            assert(next.skip(1) =~= data@.subrange(offset + j, offset + 8));
            assert(next.first() == data@[offset + j - 1]);
            assert(pow256((8 - (j - 1)) as nat) == 256 * pow256((8 - j) as nat));
            lemma_pow256_values();
            lemma_pow256_monotonic((8 - j) as nat, 7);
        }
        j = j - 1;
        r = (data[offset + j] as u64) + r * 256;
    }
    r
}

/// Appends a `u64` as eight little-endian bytes.
pub fn push_u64_le(out: &mut Vec<u8>, v: u64)
    ensures
        final(out)@.len() == old(out)@.len() + 8,
        final(out)@.subrange(0, old(out)@.len() as int) == old(out)@,
        le_value(final(out)@.subrange(old(out)@.len() as int, final(out)@.len() as int)) == v,
{
    let ghost base = out@.len() as int;
    let mut i: usize = 0;
    let mut rest: u64 = v;
    proof {
        lemma_pow256_values();
        assert(out@.subrange(base, base) =~= Seq::<u8>::empty());
        assert(out@.subrange(0, base) =~= old(out)@);
    }
    while i < 8
        invariant
            i <= 8,
            out@.len() == base + i,
            0 <= base,
            out@.subrange(0, base) == old(out)@,
            v == le_value(out@.subrange(base, base + i)) + rest * pow256(i as nat),
            i == 8 ==> rest == 0,
        decreases 8 - i,
    {
        let b: u8 = (rest % 256) as u8;
        let ghost prev = out@.subrange(base, base + i);
        out.push(b);
        proof {
            lemma_pow256_values();
            assert(out@.subrange(0, base) =~= old(out)@);
            assert(out@.subrange(base, base + i + 1) =~= prev.push(b));
            lemma_le_value_snoc(prev, b);
            assert(rest == (rest / 256) * 256 + rest % 256);
            assert(pow256((i + 1) as nat) == 256 * pow256(i as nat));
            assert(((rest / 256) * 256 + rest % 256) * pow256(i as nat) == (rest % 256) * pow256(
                i as nat,
            ) + (rest / 256) * (256 * pow256(i as nat))) by (nonlinear_arith);
        }
        rest = rest / 256;
        i = i + 1;
        proof {
            if i == 8 {
                lemma_pow256_values();
                lemma_le_value_bound(out@.subrange(base, base + 8));
                if rest > 0 {
                    assert(rest * pow256(8) >= pow256(8)) by (nonlinear_arith)
                        requires
                            rest >= 1 && pow256(8) >= 0,
                    ;
                }
            }
        }
    }
    proof {
        lemma_pow256_values();
    }
}

} // verus!
