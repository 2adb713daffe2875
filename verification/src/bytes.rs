//! Mathematical reading of big-endian integers out of a byte sequence.
//! These spec functions are the vocabulary in which every parsing contract
//! of the crate speaks about the raw stream.

use vstd::prelude::*;

verus! {

/// The 16-bit big-endian integer starting at index `i`.
pub open spec fn be16(s: Seq<u8>, i: int) -> int {
    s[i] * 0x100 + s[i + 1]
}

/// The 32-bit big-endian integer starting at index `i`.
pub open spec fn be32(s: Seq<u8>, i: int) -> int {
    be16(s, i) * 0x1_0000 + be16(s, i + 2)
}

/// The 64-bit big-endian integer starting at index `i`.
pub open spec fn be64(s: Seq<u8>, i: int) -> int {
    be32(s, i) * 0x1_0000_0000 + be32(s, i + 4)
}

/// The 32-bit big-endian two's-complement integer starting at index `i`.
pub open spec fn be_i32(s: Seq<u8>, i: int) -> int {
    if be32(s, i) < 0x8000_0000 {
        be32(s, i)
    } else {
        be32(s, i) - 0x1_0000_0000
    }
}

} // verus!
