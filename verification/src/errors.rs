//! Diagnostic aggregation: both validators collect every problem they find
//! into one list and report the whole list as a single failure, instead of
//! stopping at the first.

use vstd::prelude::*;

verus! {

/// Which rule a diagnostic reports a violation of.
#[derive(Clone, Copy, PartialEq, Eq, Structural, Debug)]
pub enum DiagKind {
    /// Malformed or unrecognized option syntax.
    Syntax,
    /// A single-valued option set more than once.
    Uniqueness,
    /// Ill-formed content: an embedded NUL, an oversized provider name, a
    /// malformed identifier literal, a bad group-name character.
    Content,
    /// More than 128 fields in one event.
    LimitFieldCount,
    /// More than 127 fields in one nested group.
    LimitGroupFields,
    /// More than 128 data-descriptor blocks in one event.
    LimitDescBlocks,
    /// More than 65535 estimated metadata bytes in one event.
    LimitMetaBytes,
    /// A tag above the 28-bit maximum.
    LimitTagRange,
}

/// One point-located diagnostic: the construct at fault and what is wrong
/// with it.
#[derive(Debug)]
pub struct Diag {
    /// The rule violated.
    pub kind: DiagKind,
    /// The offending construct (an option name, a field name, the provider
    /// name).
    pub context: String,
    /// The human-readable description of the problem.
    pub message: String,
}

/// How many of the diagnostics report a violation of the given kind.
pub open spec fn count_kind(ds: Seq<Diag>, k: DiagKind) -> int
    decreases ds.len(),
{
    if ds.len() == 0 {
        0
    } else {
        (if ds[0].kind == k {
            1int
        } else {
            0int
        }) + count_kind(ds.drop_first(), k)
    }
}

/// Counting distributes over appending one diagnostic.
pub proof fn lemma_count_kind_push(ds: Seq<Diag>, d: Diag, k: DiagKind)
    ensures
        count_kind(ds.push(d), k) == count_kind(ds, k) + (if d.kind == k {
            1int
        } else {
            0int
        }),
    decreases ds.len(),
{
    if ds.len() == 0 {
        assert(ds.push(d).drop_first() =~= ds);
    } else {
        assert(ds.push(d).drop_first() =~= ds.drop_first().push(d));
        lemma_count_kind_push(ds.drop_first(), d, k);
    }
}

/// Counting by kind after one push: the pushed kind gains one, every other
/// kind is unchanged.
pub proof fn lemma_count_kind_push_all(before: Seq<Diag>, after: Seq<Diag>)
    requires
        after.len() == before.len() + 1,
        after == before.push(after.last()),
    ensures
        forall|k: DiagKind| #[trigger] count_kind(after, k) == count_kind(before, k)
            + (if after.last().kind == k { 1int } else { 0int }),
{
    assert forall|k: DiagKind| #[trigger] count_kind(after, k) == count_kind(before, k)
        + (if after.last().kind == k { 1int } else { 0int }) by {
        lemma_count_kind_push(before, after.last(), k);
    }
}

/// The aggregator the validators thread through their walk.
pub struct Errors {
    /// Every diagnostic reported so far, in report order.
    pub items: Vec<Diag>,
}

impl Errors {
    /// An empty aggregate.
    pub fn new() -> (r: Errors)
        ensures
            r.items@.len() == 0,
    {
        Errors { items: Vec::new() }
    }

    /// Whether nothing has been reported.
    pub fn is_empty(&self) -> (r: bool)
        ensures
            r == (self.items@.len() == 0),
    {
        self.items.len() == 0
    }

    /// Reports one diagnostic.
    pub fn push(&mut self, d: Diag)
        ensures
            final(self).items@ == old(self).items@.push(d),
    {
        self.items.push(d);
    }

    /// Reports one diagnostic built from a kind, a construct name and a
    /// message.
    pub fn add(&mut self, kind: DiagKind, context: &str, message: &str)
        ensures
            final(self).items@.len() == old(self).items@.len() + 1,
            forall|i: int|
                0 <= i < old(self).items@.len() ==> final(self).items@[i] == old(self).items@[i],
            final(self).items@.last().kind == kind,
            final(self).items@.last().context@ == context@,
            final(self).items@.last().message@ == message@,
            final(self).items@ == old(self).items@.push(final(self).items@.last()),
    {
        self.items.push(
            Diag { kind, context: context.to_owned(), message: message.to_owned() },
        );
    }

    /// The combined outcome: success when nothing was reported, otherwise
    /// every collected diagnostic as one failure.
    pub fn check(self) -> (r: Result<(), Vec<Diag>>)
        ensures
            match r {
                Ok(()) => self.items@.len() == 0,
                Err(ds) => ds == self.items && self.items@.len() > 0,
            },
    {
        if self.items.len() == 0 {
            Ok(())
        } else {
            Err(self.items)
        }
    }

    /// Surrenders the collected diagnostics.
    pub fn into_items(self) -> (r: Vec<Diag>)
        ensures
            r == self.items,
    {
        self.items
    }
}

} // verus!
