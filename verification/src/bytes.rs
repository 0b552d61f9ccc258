//! Numbers spelled by bytes.

use vstd::prelude::*;

verus! {

/// The number that three bytes spell, first byte most significant.
pub open spec fn be24(b: Seq<u8>, at: int) -> int {
    b[at] as int * 65536 + b[at + 1] as int * 256 + b[at + 2] as int
}

/// The number that four bytes spell, first byte most significant.
pub open spec fn be32(b: Seq<u8>, at: int) -> int {
    b[at] as int * 16777216 + b[at + 1] as int * 65536 + b[at + 2] as int * 256 + b[at + 3] as int
}

/// The number that four bytes spell, first byte least significant.
pub open spec fn le32(b: Seq<u8>, at: int) -> int {
    b[at] as int + b[at + 1] as int * 256 + b[at + 2] as int * 65536 + b[at + 3] as int * 16777216
}

pub(crate) fn read_be24(b: &[u8], at: usize) -> (n: usize)
    requires
        at + 3 <= b@.len(),
    ensures
        n == be24(b@, at as int),
        n < 16777216,
{
    (b[at] as usize) * 65536 + (b[at + 1] as usize) * 256 + (b[at + 2] as usize)
}

pub(crate) fn read_be32(b: &[u8], at: usize) -> (n: u64)
    requires
        at + 4 <= b@.len(),
    ensures
        n == be32(b@, at as int),
        n < 4294967296,
{
    (b[at] as u64) * 16777216 + (b[at + 1] as u64) * 65536 + (b[at + 2] as u64) * 256 + (b[at
        + 3] as u64)
}

pub(crate) fn read_le32(b: &[u8], at: usize) -> (n: u64)
    requires
        at + 4 <= b@.len(),
    ensures
        n == le32(b@, at as int),
        n < 4294967296,
{
    (b[at] as u64) + (b[at + 1] as u64) * 256 + (b[at + 2] as u64) * 65536 + (b[at + 3] as u64)
        * 16777216
}

} // verus!
