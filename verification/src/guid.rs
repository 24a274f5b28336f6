//! 16-byte provider identifiers: the canonical string form they are written
//! in, and the derivation of an identifier from a provider name.
//!
//! Parsing and name-hashing are done by the `tracelogging` crate; the string
//! form accepted by the parser is stated here exactly, over the input's
//! bytes.

use vstd::prelude::*;
use vstd::string::StringSliceAdditionalSpecFns;

verus! {

/// A 16-byte identifier, held in the byte order its canonical string form
/// reads in.
#[derive(Clone, Copy, Debug)]
pub struct Guid {
    pub bytes_be: [u8; 16],
}

/// Whether a byte is an ASCII hexadecimal digit.
pub open spec fn is_hex(b: u8) -> bool {
    (48 <= b <= 57) || (97 <= b <= 102) || (65 <= b <= 70)
}

/// The value of one hexadecimal digit.
pub open spec fn hexv(b: u8) -> u8 {
    if 48 <= b <= 57 {
        (b - 48) as u8
    } else if 97 <= b <= 102 {
        (b - 87) as u8
    } else if 65 <= b <= 70 {
        (b - 55) as u8
    } else {
        0
    }
}

/// The input with one optional pair of enclosing braces removed.
pub open spec fn guid_inner(s: Seq<u8>) -> Seq<u8> {
    if s.len() >= 1 && s[0] == 123 && s[s.len() - 1] == 125 {
        s.subrange(1, s.len() - 1)
    } else {
        s
    }
}

/// Whether the (brace-stripped) input is the 36-byte dashed form.
pub open spec fn guid_dashed(t: Seq<u8>) -> bool {
    t.len() == 36 && t[8] == 45 && t[13] == 45 && t[18] == 45 && t[23] == 45
}

/// Whether every digit position of the (brace-stripped) input holds a
/// hexadecimal digit: the 36-byte dashed form or the 32-byte plain form.
pub open spec fn guid_digits_ok(t: Seq<u8>) -> bool {
    if guid_dashed(t) {
        forall|i: int|
            0 <= i < 36 && i != 8 && i != 13 && i != 18 && i != 23 ==> is_hex(#[trigger] t[i])
    } else {
        t.len() == 32 && forall|i: int| 0 <= i < 32 ==> is_hex(#[trigger] t[i])
    }
}

/// Whether the whole input parses as an identifier.
pub open spec fn guid_wf(s: Seq<u8>) -> bool {
    s.len() >= 32 && guid_digits_ok(guid_inner(s))
}

/// Where byte `i` of the identifier starts in the (brace-stripped) input.
pub open spec fn guid_src(dashed: bool, i: int) -> int {
    if !dashed {
        2 * i
    } else if i < 4 {
        2 * i
    } else if i < 6 {
        2 * i + 1
    } else if i < 8 {
        2 * i + 2
    } else if i < 10 {
        2 * i + 3
    } else {
        2 * i + 4
    }
}

/// The sixteen identifier bytes read from the (brace-stripped) input.
pub open spec fn spec_guid_bytes(t: Seq<u8>) -> Seq<u8> {
    Seq::new(
        16,
        |i: int|
            {
                let p = guid_src(guid_dashed(t), i);
                (hexv(t[p]) * 16 + hexv(t[p + 1])) as u8
            },
    )
}

/// The identifier bytes reordered as the provider trait block stores them:
/// the first three fields little-endian, the final eight bytes as they are.
pub open spec fn guid_le(b: Seq<u8>) -> Seq<u8> {
    seq![
        b[3],
        b[2],
        b[1],
        b[0],
        b[5],
        b[4],
        b[7],
        b[6],
        b[8],
        b[9],
        b[10],
        b[11],
        b[12],
        b[13],
        b[14],
        b[15],
    ]
}

/// Reordering to the trait-block order is its own inverse.
pub proof fn lemma_guid_le_involution(b: Seq<u8>)
    requires
        b.len() == 16,
    ensures
        guid_le(guid_le(b)) =~= b,
{
}

/// What the name-derivation of an identifier returns; a deterministic
/// function of the provider name alone.
pub uninterp spec fn provider_id_of(name: Seq<char>) -> Seq<u8>;

impl Guid {
    /// The all-zero identifier.
    pub fn zero() -> (g: Guid)
        ensures
            g.bytes_be@ =~= Seq::new(16, |i: int| 0u8),
    {
        Guid { bytes_be: [0u8; 16] }
    }

    /// The identifier bytes in the order the provider trait block stores
    /// them.
    pub fn to_bytes_le(&self) -> (r: Vec<u8>)
        ensures
            r@ == guid_le(self.bytes_be@),
    {
        let b = &self.bytes_be;
        let mut v: Vec<u8> = Vec::new();
        v.push(b[3]);
        v.push(b[2]);
        v.push(b[1]);
        v.push(b[0]);
        v.push(b[5]);
        v.push(b[4]);
        v.push(b[7]);
        v.push(b[6]);
        v.push(b[8]);
        v.push(b[9]);
        v.push(b[10]);
        v.push(b[11]);
        v.push(b[12]);
        v.push(b[13]);
        v.push(b[14]);
        v.push(b[15]);
        proof {
            assert(v@ =~= guid_le(self.bytes_be@));
        }
        v
    }
}

/// Relies on `tracelogging::Guid::try_parse` (with `to_bytes_be` taking the
/// parsed bytes out): accepts the canonical string form, braces and dashes
/// optional, and returns the digits' values in reading order.
#[verifier::external_body]
pub fn guid_try_parse(s: &str) -> (r: Option<Guid>)
    ensures
        match r {
            Some(g) => guid_wf(s.spec_bytes()) && g.bytes_be@ == spec_guid_bytes(
                guid_inner(s.spec_bytes()),
            ),
            None => !guid_wf(s.spec_bytes()),
        },
{
    match tracelogging::Guid::try_parse(s) {
        Some(g) => Some(Guid { bytes_be: g.to_bytes_be() }),
        None => None,
    }
}

/// Relies on `tracelogging::Guid::from_name` (with `to_bytes_be` taking the
/// bytes out): derives a provider identifier as a stable hash of the
/// provider name alone.
#[verifier::external_body]
pub fn guid_from_name(name: &str) -> (g: Guid)
    ensures
        g.bytes_be@ == provider_id_of(name@),
{
    Guid { bytes_be: tracelogging::Guid::from_name(name).to_bytes_be() }
}

} // verus!
