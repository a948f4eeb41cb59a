//! Big-endian numbers of one to eight bytes, unsigned and two's complement.

use vstd::prelude::*;

verus! {

/// 256 to the power `width`.
pub open spec fn pow256(width: nat) -> nat
    decreases width,
{
    if width == 0 {
        1
    } else {
        256 * pow256((width - 1) as nat)
    }
}

/// The number that `bytes` spells, most significant byte first.
pub open spec fn be_uint(bytes: Seq<u8>) -> nat
    decreases bytes.len(),
{
    if bytes.len() == 0 {
        0
    } else {
        be_uint(bytes.drop_last()) * 256 + bytes.last() as nat
    }
}

/// The low `width` bytes of `n`, most significant byte first.
pub open spec fn be_bytes(n: nat, width: nat) -> Seq<u8>
    decreases width,
{
    if width == 0 {
        Seq::empty()
    } else {
        be_bytes(n / 256, (width - 1) as nat).push((n % 256) as u8)
    }
}

/// The integer whose two's complement representation in `width` bytes is `u`.
pub open spec fn from_twos(u: nat, width: nat) -> int {
    if 2 * u >= pow256(width) {
        u - pow256(width)
    } else {
        u as int
    }
}

/// The two's complement representation of `n` in `width` bytes.
pub open spec fn to_twos(n: int, width: nat) -> nat {
    if n < 0 {
        (n + pow256(width)) as nat
    } else {
        n as nat
    }
}

pub proof fn lemma_pow256_values()
    ensures
        pow256(0) == 1,
        pow256(1) == 0x100,
        pow256(2) == 0x1_0000,
        pow256(3) == 0x100_0000,
        pow256(4) == 0x1_0000_0000,
        pow256(5) == 0x100_0000_0000,
        pow256(6) == 0x1_0000_0000_0000,
        pow256(7) == 0x100_0000_0000_0000,
        pow256(8) == 0x1_0000_0000_0000_0000,
{
    reveal_with_fuel(pow256, 9);
}

pub proof fn lemma_be_bytes_len(n: nat, width: nat)
    ensures
        be_bytes(n, width).len() == width,
    decreases width,
{
    if width > 0 {
        lemma_be_bytes_len(n / 256, (width - 1) as nat);
    }
}

pub proof fn lemma_be_uint_bound(bytes: Seq<u8>)
    ensures
        be_uint(bytes) < pow256(bytes.len()),
    decreases bytes.len(),
{
    if bytes.len() > 0 {
        lemma_be_uint_bound(bytes.drop_last());
    }
}

/// Reading back what was written gives the number, if it fits the width.
pub proof fn lemma_be_uint_of_bytes(n: nat, width: nat)
    requires
        n < pow256(width),
    ensures
        be_uint(be_bytes(n, width)) == n,
    decreases width,
{
    if width > 0 {
        let rest = be_bytes(n / 256, (width - 1) as nat);
        lemma_be_uint_of_bytes(n / 256, (width - 1) as nat);
        assert(be_bytes(n, width).drop_last() =~= rest);
    }
}

/// Two's complement round trip for numbers that fit `width` bytes.
pub proof fn lemma_twos_round_trip(n: int, width: nat)
    requires
        -(pow256(width) as int) <= 2 * n < pow256(width),
    ensures
        to_twos(n, width) < pow256(width),
        from_twos(to_twos(n, width), width) == n,
{
}

/// Reads the `width` bytes at `start` as one big-endian number.
pub fn read_be(bytes: &[u8], start: usize, width: usize) -> (n: u64)
    requires
        width <= 8,
        start + width <= bytes@.len(),
    ensures
        n == be_uint(bytes@.subrange(start as int, start + width)),
{
    let total: usize = bytes.len();
    let mut n: u64 = 0;
    let mut i: usize = 0;
    while i < width
        invariant
            i <= width <= 8,
            start + width <= total == bytes@.len(),
            n == be_uint(bytes@.subrange(start as int, start + i)),
        decreases width - i,
    {
        proof {
            let done = bytes@.subrange(start as int, start + i);
            let next = bytes@.subrange(start as int, start + i + 1);
            lemma_be_uint_bound(done);
            lemma_pow256_values();
            assert(next.drop_last() =~= done);
            assert(pow256(i as nat) <= pow256(7)) by {
                lemma_pow256_values();
                reveal_with_fuel(pow256, 9);
            }
        }
        n = n * 256 + bytes[start + i] as u64;
        i = i + 1;
    }
    n
}

/// Appends the low `width` bytes of `n`, most significant first.
pub fn write_be(out: &mut Vec<u8>, n: u64, width: usize)
    requires
        width <= 8,
    ensures
        final(out)@ == old(out)@ + be_bytes(n as nat, width as nat),
    decreases width,
{
    if width > 0 {
        write_be(out, n / 256, (width - 1) as usize);
        out.push((n % 256) as u8);
        assert(final(out)@ =~= old(out)@ + be_bytes(n as nat, width as nat));
    } else {
        assert(out@ =~= old(out)@ + be_bytes(n as nat, 0));
    }
}

} // verus!
