//! Byte strings: copying them, and the numbers written in them.

use vstd::prelude::*;

verus! {

/// `len` bytes, all zero.
pub open spec fn zeroed(len: nat) -> Seq<u8> {
    Seq::new(len, |i: int| 0u8)
}

/// The number that the first four bytes stand for, least significant byte
/// first. The definition is kept from the solver until it is revealed.
#[verifier::opaque]
pub open spec fn le_u32(bytes: Seq<u8>) -> int {
    bytes[0] + 256 * bytes[1] + 65536 * bytes[2] + 16777216 * bytes[3]
}

/// The four bytes that stand for `n`, least significant byte first. The
/// definition is kept from the solver until it is revealed.
#[verifier::opaque]
pub open spec fn le_u32_bytes(n: int) -> Seq<u8> {
    seq![
        (n % 256) as u8,
        (n / 256 % 256) as u8,
        (n / 65536 % 256) as u8,
        (n / 16777216 % 256) as u8,
    ]
}

/// The digits of a number written in base 256 are read back from it.
proof fn lemma_base_256_digits(b0: int, b1: int, b2: int, b3: int)
    requires
        0 <= b0 < 256,
        0 <= b1 < 256,
        0 <= b2 < 256,
        0 <= b3 < 256,
    ensures
        ({
            let n = b0 + 256 * b1 + 65536 * b2 + 16777216 * b3;
            &&& 0 <= n <= u32::MAX
            &&& n % 256 == b0
            &&& n / 256 % 256 == b1
            &&& n / 65536 % 256 == b2
            &&& n / 16777216 % 256 == b3
        }),
{
}

/// A number is the sum of its digits in base 256, each at its place.
proof fn lemma_base_256_sum(n: int)
    requires
        0 <= n <= u32::MAX,
    ensures
        n == n % 256 + 256 * (n / 256 % 256) + 65536 * (n / 65536 % 256) + 16777216 * (n
            / 16777216 % 256),
{
    assert(n / 256 / 256 / 256 == n / 16777216);
}

/// A number is always written in four bytes.
pub(crate) proof fn lemma_le_u32_bytes_len(n: int)
    ensures
        le_u32_bytes(n).len() == 4,
{
    reveal(le_u32_bytes);
}

/// Four bytes written for a number that fits them read back as that
/// number, whatever follows them.
pub(crate) proof fn lemma_le_u32_read_back(n: int, after: Seq<u8>)
    requires
        0 <= n <= u32::MAX,
    ensures
        le_u32(le_u32_bytes(n) + after) == n,
{
    reveal(le_u32);
    reveal(le_u32_bytes);
    lemma_base_256_sum(n);
}

/// Four bytes stand for a number that fits them, and writing that number
/// gives the four bytes back.
pub(crate) proof fn lemma_le_u32_written_back(bytes: Seq<u8>)
    requires
        4 <= bytes.len(),
    ensures
        0 <= le_u32(bytes) <= u32::MAX,
        le_u32_bytes(le_u32(bytes)) == bytes.subrange(0, 4),
{
    reveal(le_u32);
    reveal(le_u32_bytes);
    lemma_base_256_digits(bytes[0] as int, bytes[1] as int, bytes[2] as int, bytes[3] as int);
}

/// Reads the little-endian `u32` at `at`.
pub(crate) fn read_u32(data: &[u8], at: usize) -> (r: u32)
    requires
        at + 4 <= data@.len(),
    ensures
        r == le_u32(data@.skip(at as int)),
{
    proof {
        reveal(le_u32);
    }
    let b0: u32 = data[at] as u32;
    let b1: u32 = data[at + 1] as u32;
    let b2: u32 = data[at + 2] as u32;
    let b3: u32 = data[at + 3] as u32;
    b0 + b1 * 256 + b2 * 65536 + b3 * 16777216
}

/// Appends `n` as four bytes, least significant byte first.
pub(crate) fn write_u32(out: &mut Vec<u8>, n: u32)
    ensures
        final(out)@ == old(out)@ + le_u32_bytes(n as int),
{
    proof {
        reveal(le_u32_bytes);
    }
    out.push((n % 256) as u8);
    out.push((n / 256 % 256) as u8);
    out.push((n / 65536 % 256) as u8);
    out.push((n / 16777216 % 256) as u8);
}

/// A copy of the bytes of `data` from `start` up to `end`.
pub(crate) fn copy_range(data: &[u8], start: usize, end: usize) -> (r: Vec<u8>)
    requires
        start <= end <= data@.len(),
    ensures
        r@ == data@.subrange(start as int, end as int),
{
    let mut out: Vec<u8> = Vec::new();
    let mut i: usize = start;
    while i < end
        invariant
            start <= i <= end <= data@.len(),
            out@ == data@.subrange(start as int, i as int),
        decreases end - i,
    {
        out.push(data[i]);
        i = i + 1;
    }
    out
}

/// A copy of all of `data`.
pub(crate) fn copy_bytes(data: &[u8]) -> (r: Vec<u8>)
    ensures
        r@ == data@,
{
    copy_range(data, 0, data.len())
}

/// Appends `bytes` as they are.
pub(crate) fn append_bytes(out: &mut Vec<u8>, bytes: &[u8])
    ensures
        final(out)@ == old(out)@ + bytes@,
{
    let n = bytes.len();
    let mut i: usize = 0;
    while i < n
        invariant
            i <= n,
            n == bytes@.len(),
            out@ == old(out)@ + bytes@.take(i as int),
        decreases n - i,
    {
        out.push(bytes[i]);
        i = i + 1;
    }
}

/// `len` zero bytes.
pub(crate) fn zero_bytes(len: usize) -> (r: Vec<u8>)
    ensures
        r@ == zeroed(len as nat),
{
    let mut out: Vec<u8> = Vec::new();
    let mut i: usize = 0;
    while i < len
        invariant
            i <= len,
            out@ == zeroed(i as nat),
        decreases len - i,
    {
        out.push(0u8);
        i = i + 1;
        assert(out@ =~= zeroed(i as nat));
    }
    out
}

} // verus!
