//! Lexicographic (strcmp-style) ordering on names, as a specification over
//! character sequences, together with a verified executable comparator.
//!
//! Catalog names and the user-supplied keys looked up against them are
//! compared by this order; binary search correctness rests on it.

use vstd::prelude::*;

verus! {

/// Strict lexicographic order on character sequences, comparing code points.
pub open spec fn name_lt(a: Seq<char>, b: Seq<char>) -> bool
    decreases a.len(),
{
    if b.len() == 0 {
        false
    } else if a.len() == 0 {
        true
    } else if a[0] != b[0] {
        (a[0] as int) < (b[0] as int)
    } else {
        name_lt(a.drop_first(), b.drop_first())
    }
}

/// Outcome of comparing two names.
#[derive(Clone, Copy, PartialEq, Eq, Structural, Debug)]
pub enum NameOrder {
    Before,
    Same,
    After,
}

/// How `name_lt` behaves once the two sequences are known to agree on their
/// first `i` characters: the order is decided by what follows the common
/// prefix.
pub proof fn lemma_name_lt_prefix(a: Seq<char>, b: Seq<char>, i: int)
    requires
        0 <= i <= a.len(),
        i <= b.len(),
        forall|j: int| 0 <= j < i ==> a[j] == b[j],
    ensures
        i == a.len() && i == b.len() ==> !name_lt(a, b) && !name_lt(b, a) && a =~= b,
        i == a.len() && i < b.len() ==> name_lt(a, b) && !name_lt(b, a),
        i == b.len() && i < a.len() ==> name_lt(b, a) && !name_lt(a, b),
        i < a.len() && i < b.len() && a[i] != b[i] ==> (name_lt(a, b) <==> (a[i] as int) < (
        b[i] as int)),
        i < a.len() && i < b.len() && a[i] != b[i] ==> (name_lt(b, a) <==> (b[i] as int) < (
        a[i] as int)),
    decreases i,
{
    if i == 0 {
        reveal_with_fuel(name_lt, 2);
    } else {
        assert(a[0] == b[0]);
        reveal_with_fuel(name_lt, 2);
        lemma_name_lt_prefix(a.drop_first(), b.drop_first(), i - 1);
        if i == a.len() && i == b.len() {
            assert forall|j: int| 0 <= j < a.len() implies a[j] == b[j] by {
                if j > 0 {
                    assert(a[j] == a.drop_first()[j - 1]);
                    assert(b[j] == b.drop_first()[j - 1]);
                }
            }
            assert(a =~= b);
        }
    }
}

/// The order is irreflexive and asymmetric.
pub proof fn lemma_name_lt_asym(a: Seq<char>, b: Seq<char>)
    requires
        name_lt(a, b),
    ensures
        !name_lt(b, a),
        !(a =~= b),
    decreases a.len(),
{
    reveal_with_fuel(name_lt, 2);
    if b.len() == 0 {
    } else if a.len() == 0 {
    } else if a[0] != b[0] {
    } else {
        lemma_name_lt_asym(a.drop_first(), b.drop_first());
        assert(a =~= b ==> a.drop_first() =~= b.drop_first());
        assert(a == b ==> a.drop_first() =~= b.drop_first());
    }
}

/// Two names neither of which precedes the other are equal.
pub proof fn lemma_name_lt_connected(a: Seq<char>, b: Seq<char>)
    requires
        !name_lt(a, b),
        !name_lt(b, a),
    ensures
        a =~= b,
    decreases a.len(),
{
    reveal_with_fuel(name_lt, 2);
    if b.len() == 0 {
    } else if a.len() == 0 {
    } else if a[0] != b[0] {
    } else {
        lemma_name_lt_connected(a.drop_first(), b.drop_first());
        assert forall|j: int| 0 <= j < a.len() implies a[j] == b[j] by {
            if j > 0 {
                assert(a[j] == a.drop_first()[j - 1]);
                assert(b[j] == b.drop_first()[j - 1]);
            }
        }
    }
}

/// The order is transitive.
pub proof fn lemma_name_lt_trans(a: Seq<char>, b: Seq<char>, c: Seq<char>)
    requires
        name_lt(a, b),
        name_lt(b, c),
    ensures
        name_lt(a, c),
    decreases a.len(),
{
    reveal_with_fuel(name_lt, 2);
    if a.len() == 0 {
    } else if b.len() == 0 {
    } else if c.len() == 0 {
    } else {
        if a[0] == b[0] && b[0] == c[0] {
            lemma_name_lt_trans(a.drop_first(), b.drop_first(), c.drop_first());
        }
    }
}

/// Compares two names in the lexicographic order.
pub fn name_order(a: &str, b: &str) -> (r: NameOrder)
    ensures
        r is Before <==> name_lt(a@, b@),
        r is After <==> name_lt(b@, a@),
        r is Same <==> a@ == b@,
{
    let alen = a.unicode_len();
    let blen = b.unicode_len();
    let mut i: usize = 0;
    loop
        invariant
            alen == a@.len(),
            blen == b@.len(),
            0 <= i <= alen,
            i <= blen,
            forall|j: int| 0 <= j < i ==> a@[j] == b@[j],
        decreases alen - i,
    {
        proof {
            lemma_name_lt_prefix(a@, b@, i as int);
        }
        if i == alen {
            if i == blen {
                return NameOrder::Same;
            }
            return NameOrder::Before;
        }
        if i == blen {
            return NameOrder::After;
        }
        let ca = a.get_char(i);
        let cb = b.get_char(i);
        if ca as u32 != cb as u32 {
            proof {
                if name_lt(a@, b@) {
                    lemma_name_lt_asym(a@, b@);
                }
                if name_lt(b@, a@) {
                    lemma_name_lt_asym(b@, a@);
                }
            }
            if (ca as u32) < (cb as u32) {
                return NameOrder::Before;
            }
            return NameOrder::After;
        }
        i = i + 1;
    }
}

/// Whether two texts are equal.
pub fn str_is(a: &str, b: &str) -> (r: bool)
    ensures
        r == (a@ == b@),
{
    matches!(name_order(a, b), NameOrder::Same)
}

/// A sequence of names in strictly increasing order.
pub open spec fn names_sorted(s: Seq<Seq<char>>) -> bool {
    forall|i: int, j: int| 0 <= i < j < s.len() ==> name_lt(s[i], s[j])
}

/// Adjacent ordering of a name sequence implies full pairwise ordering.
pub proof fn lemma_adjacent_sorted_implies_sorted(s: Seq<Seq<char>>)
    requires
        forall|i: int| 0 < i < s.len() ==> #[trigger] name_lt(s[i - 1], s[i]),
    ensures
        names_sorted(s),
{
    assert forall|i: int, j: int| 0 <= i < j < s.len() implies name_lt(s[i], s[j]) by {
        lemma_name_lt_upto(s, i, j);
    }
}

proof fn lemma_name_lt_upto(s: Seq<Seq<char>>, i: int, j: int)
    requires
        forall|k: int| 0 < k < s.len() ==> #[trigger] name_lt(s[k - 1], s[k]),
        0 <= i < j < s.len(),
    ensures
        name_lt(s[i], s[j]),
    decreases j - i,
{
    assert(name_lt(s[j - 1], s[j]));
    if j == i + 1 {
    } else {
        lemma_name_lt_upto(s, i, j - 1);
        lemma_name_lt_trans(s[i], s[j - 1], s[j]);
    }
}

} // verus!
