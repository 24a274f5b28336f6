//! Opaque host-language expressions, and the rewriting of enumeration-valued
//! option arguments.
//!
//! An expression is carried through compilation as a value: either an
//! integer literal, or its source text. An enumeration-valued option
//! (channel, level, opcode, in-type, out-type) accepts a known symbolic name,
//! which is rewritten to a fully qualified constant reference; an expression
//! beginning with a digit, which is wrapped in an explicit from-integer
//! conversion; or anything else, which passes through unchanged.

use vstd::prelude::*;

use crate::order::NameOrder;
use crate::order::name_order;

verus! {

/// A host-language expression, opaque to compilation.
#[derive(PartialEq, Eq, Debug)]
pub enum Expr {
    /// An integer literal.
    Int(u64),
    /// Any other expression, by its source text.
    Text(String),
}

/// The enumerations whose names the rewriting knows.
#[derive(Clone, Copy, PartialEq, Eq, Structural, Debug)]
pub enum EnumKind {
    Channel,
    Level,
    Opcode,
    InType,
    OutType,
}

/// An enumeration-valued argument after rewriting.
#[derive(PartialEq, Eq, Debug)]
pub enum EnumRef {
    /// A known symbolic name, to be rendered as a fully qualified constant
    /// reference of the named enumeration.
    Qualified(EnumKind, String),
    /// An arbitrary integer-valued expression, to be wrapped in the named
    /// enumeration's from-integer conversion.
    FromInt(EnumKind, Expr),
    /// Anything else; passes through unchanged for the host language to
    /// type-check.
    Verbatim(Expr),
}

/// Whether some name in the list reads `k`.
pub open spec fn list_contains(names: Seq<Seq<char>>, k: Seq<char>) -> bool {
    exists|i: int| 0 <= i < names.len() && names[i] == k
}

/// The character sequences of a list of names.
pub open spec fn views_of(names: Seq<String>) -> Seq<Seq<char>> {
    Seq::new(names.len(), |i: int| names[i]@)
}

/// Whether a character is an ASCII digit.
pub open spec fn is_ascii_digit(c: char) -> bool {
    48 <= c as int <= 57
}

/// What the rewriting produces: a leading-digit expression is wrapped in a
/// from-integer conversion, a known name is qualified, anything else passes
/// through.
pub open spec fn spec_normalize(kind: EnumKind, names: Seq<Seq<char>>, e: Expr) -> EnumRef {
    match e {
        Expr::Int(v) => EnumRef::FromInt(kind, Expr::Int(v)),
        Expr::Text(t) => if t@.len() > 0 && is_ascii_digit(t@[0]) {
            EnumRef::FromInt(kind, Expr::Text(t))
        } else if list_contains(names, t@) {
            EnumRef::Qualified(kind, t)
        } else {
            EnumRef::Verbatim(Expr::Text(t))
        },
    }
}

/// Whether some name in the list reads `key`.
pub fn name_in_list(names: &Vec<String>, key: &str) -> (r: bool)
    ensures
        r == list_contains(views_of(names@), key@),
{
    let mut i: usize = 0;
    while i < names.len()
        invariant
            i <= names@.len(),
            forall|j: int| 0 <= j < i ==> views_of(names@)[j] != key@,
        decreases names@.len() - i,
    {
        match name_order(names[i].as_str(), key) {
            NameOrder::Same => {
                assert(views_of(names@)[i as int] == key@);
                return true;
            },
            _ => {},
        }
        i = i + 1;
    }
    false
}

/// Rewrites one enumeration-valued argument against the given name list.
pub fn normalize_enum_value(kind: EnumKind, names: &Vec<String>, e: Expr) -> (r: EnumRef)
    ensures
        r == spec_normalize(kind, views_of(names@), e),
{
    match e {
        Expr::Int(v) => EnumRef::FromInt(kind, Expr::Int(v)),
        Expr::Text(t) => {
            let leading_digit = if t.as_str().unicode_len() > 0 {
                let c = t.as_str().get_char(0);
                (c as u32) >= 48 && (c as u32) <= 57
            } else {
                false
            };
            if leading_digit {
                EnumRef::FromInt(kind, Expr::Text(t))
            } else if name_in_list(names, t.as_str()) {
                EnumRef::Qualified(kind, t)
            } else {
                EnumRef::Verbatim(Expr::Text(t))
            }
        },
    }
}

} // verus!
