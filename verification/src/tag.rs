//! The variable-length encoding of 28-bit tags.
//!
//! A tag is encoded most-significant-first in groups of seven bits; every
//! byte but the last carries a continuation bit. Trailing all-zero groups
//! are dropped, so the encoded size is one to four bytes.

use vstd::prelude::*;

verus! {

/// The greatest value a tag may take: 28 significant bits.
pub const TAG_MAX: u32 = 0x0FFFFFFF;

/// How many bytes the encoding of `tag` takes.
pub open spec fn spec_tag_size(tag: u32) -> int {
    if tag & 0x001FFFFF == 0 {
        1
    } else if tag & 0x00003FFF == 0 {
        2
    } else if tag & 0x0000007F == 0 {
        3
    } else {
        4
    }
}

/// Byte `i` of the encoding of `tag`, in an encoding of `size` bytes.
pub open spec fn spec_tag_byte(tag: u32, i: int, size: int) -> u8 {
    let group = ((tag >> ((21 - 7 * i) as u32)) & 0x7F) as u8;
    if i < size - 1 {
        (group | 0x80) as u8
    } else {
        group
    }
}

/// The encoded bytes of `tag`.
pub open spec fn spec_tag_bytes(tag: u32) -> Seq<u8> {
    Seq::new(spec_tag_size(tag) as nat, |i: int| spec_tag_byte(tag, i, spec_tag_size(tag)))
}

/// How many bytes `tag_encode` returns.
pub fn tag_size(tag: u32) -> (n: usize)
    ensures
        n == spec_tag_size(tag),
        1 <= n <= 4,
{
    if tag & 0x001FFFFF == 0 {
        1
    } else if tag & 0x00003FFF == 0 {
        2
    } else if tag & 0x0000007F == 0 {
        3
    } else {
        4
    }
}

/// Encodes `tag` most-significant-first with continuation bits.
pub fn tag_encode(tag: u32) -> (v: Vec<u8>)
    requires
        tag <= TAG_MAX,
    ensures
        v@ == spec_tag_bytes(tag),
{
    let size = tag_size(tag);
    let mut v: Vec<u8> = Vec::new();
    let mut i: usize = 0;
    while i < size
        invariant
            i <= size,
            size == spec_tag_size(tag),
            1 <= size <= 4,
            v@.len() == i,
            forall|j: int| 0 <= j < i ==> v@[j] == spec_tag_byte(tag, j, size as int),
        decreases size - i,
    {
        let shift: u32 = 21 - 7 * (i as u32);
        let group = ((tag >> shift) & 0x7F) as u8;
        let b = if i + 1 < size {
            group | 0x80
        } else {
            group
        };
        v.push(b);
        i = i + 1;
    }
    proof {
        assert(v@ =~= spec_tag_bytes(tag));
    }
    v
}

} // verus!
