//! Big-endian `u64` words: their mathematical meaning, and the two
//! `byteorder` routines that compute them.

use byteorder::{BigEndian, ByteOrder};
use vstd::prelude::*;

verus! {

/// Number of bytes of one `u64` word on the wire.
pub const WORD_LEN: usize = 8;

/// The eight bytes of `n`, most significant first.
pub open spec fn be_bytes(n: u64) -> Seq<u8> {
    seq![
        (n / 0x100_0000_0000_0000 % 0x100) as u8,
        (n / 0x1_0000_0000_0000 % 0x100) as u8,
        (n / 0x100_0000_0000 % 0x100) as u8,
        (n / 0x1_0000_0000 % 0x100) as u8,
        (n / 0x100_0000 % 0x100) as u8,
        (n / 0x1_0000 % 0x100) as u8,
        (n / 0x100 % 0x100) as u8,
        (n % 0x100) as u8,
    ]
}

/// The number whose big-endian digits in base 256 are the first eight
/// entries of `s`; as each digit is a byte, it is below 2^64.
pub open spec fn be_value(s: Seq<u8>) -> int
    recommends
        s.len() >= 8,
{
    s[0] * 0x100_0000_0000_0000 + s[1] * 0x1_0000_0000_0000 + s[2] * 0x100_0000_0000 + s[3]
        * 0x1_0000_0000 + s[4] * 0x100_0000 + s[5] * 0x1_0000 + s[6] * 0x100 + s[7]
}

/// Reading back the bytes of `n` gives `n`.
pub proof fn lemma_be_value_of_bytes(n: u64)
    ensures
        be_bytes(n).len() == 8,
        be_value(be_bytes(n)) == n,
{
    assert(n == (n / 0x100_0000_0000_0000 % 0x100) * 0x100_0000_0000_0000 + (n
        / 0x1_0000_0000_0000 % 0x100) * 0x1_0000_0000_0000 + (n / 0x100_0000_0000 % 0x100)
        * 0x100_0000_0000 + (n / 0x1_0000_0000 % 0x100) * 0x1_0000_0000 + (n / 0x100_0000 % 0x100)
        * 0x100_0000 + (n / 0x1_0000 % 0x100) * 0x1_0000 + (n / 0x100 % 0x100) * 0x100 + n
        % 0x100) by (bit_vector);
}

/// Calls `byteorder::BigEndian::write_u64` (trait `ByteOrder`) on an eight
/// byte buffer. Trusted: the buffer then holds the big-endian bytes of `n`,
/// as the crate's `to_be_bytes` based implementation shows.
#[verifier::external_body]
pub(crate) fn write_u64_be(buf: &mut [u8; 8], n: u64)
    ensures
        final(buf)@ == be_bytes(n),
{
    BigEndian::write_u64(buf, n)
}

/// Calls `byteorder::BigEndian::read_u64` (trait `ByteOrder`), which panics
/// on fewer than eight bytes. Trusted: the result is the big-endian value of
/// the first eight bytes of `buf`; later bytes are not looked at.
#[verifier::external_body]
pub(crate) fn read_u64_be(buf: &[u8]) -> (n: u64)
    requires
        buf@.len() >= 8,
    ensures
        n == be_value(buf@),
{
    BigEndian::read_u64(buf)
}

} // verus!
