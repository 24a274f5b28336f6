//! The metadata layout compiler: turns a validated event model into the
//! event metadata block (a chunk sequence behind a two-byte size prefix),
//! the ordered argument-binding plan, the runtime length slots, and the
//! data-descriptor plan.
//!
//! The metadata bytes are specified item by item ([`event_meta_items`]);
//! the chunk sequence the compiler emits flattens to exactly those items,
//! with maximal literal runs (no empty literal chunk, never two adjacent).

use vstd::prelude::*;

use crate::catalog::Strategy;
use crate::catalog::TypeTok;
use crate::catalog::ValueType;
use crate::event::EventInfo;
use crate::event::FieldModel;
use crate::event::TagVal;
use crate::expr::EnumRef;
use crate::expr::Expr;
use crate::strings::str_bytes;
use crate::tag::TAG_MAX;
use crate::tag::spec_tag_bytes;
use crate::tag::tag_encode;

verus! {

/// One element of the metadata block after the size prefix: a known byte,
/// or a value the emitting platform computes.
pub enum MetaItem {
    /// A byte known at compilation.
    Byte(u8),
    /// A deferred type code: the expression's integer value, with the given
    /// flag bits folded in.
    CodeExpr(EnumRef, u8),
    /// A pointer-width in-type alias the platform resolves, with flags.
    SymCode(TypeTok, u8),
    /// The variable-length encoding of a deferred tag expression.
    TagEnc(String),
}

/// One chunk of the metadata block: a literal byte run or one deferred
/// element.
#[derive(PartialEq, Eq, Debug)]
pub enum Chunk {
    Literal(Vec<u8>),
    CodeExpr(EnumRef, u8),
    SymCode(TypeTok, u8),
    TagEnc(String),
}

/// How one argument is bound at the call site.
#[derive(PartialEq, Eq, Debug)]
pub enum BindKind {
    /// A reference to one fixed-size value.
    Scalar { vtype: ValueType, arity: u8, value: Expr },
    /// A 32-bit seconds count, converted to a filetime at emission.
    Time32 { value: Expr },
    /// A 64-bit seconds count, converted to a filetime at emission.
    Time64 { value: Expr },
    /// A calendar time, converted to a filetime at emission, splitting the
    /// cases before and after 1970.
    SystemTime { value: Expr },
    /// A reference to a contiguous sequence of elements.
    Slice { vtype: ValueType, arity: u8, value: Expr },
}

/// One argument binding: the argument's number (its field's index) and its
/// shape.
#[derive(PartialEq, Eq, Debug)]
pub struct Binding {
    pub arg: usize,
    pub kind: BindKind,
}

/// One runtime length slot: which pure function fills it, from which
/// argument.
#[derive(PartialEq, Eq, Debug)]
pub enum LengthRule {
    /// The payload byte size of a counted sequence.
    CountedSize { arg: usize },
    /// The element count of a variable-length slice.
    SliceCount { arg: usize },
}

/// One data descriptor of the emission plan.
#[derive(PartialEq, Eq, Debug)]
pub enum Desc {
    /// The provider metadata block.
    ProviderMeta,
    /// The event metadata block.
    EventMeta,
    /// One argument's bytes, by value reference.
    Value { arg: usize },
    /// One argument's bytes, as a counted payload.
    Counted { arg: usize },
    /// One argument's bytes, as a variable-length slice payload.
    SliceData { arg: usize },
    /// One argument's bytes, as a security identifier.
    Sid { arg: usize },
    /// One argument's bytes, as a nul-terminated payload.
    CStr { arg: usize },
    /// The explicit zero terminator following a nul-terminated payload.
    ZeroTerm { vtype: ValueType },
    /// One computed length slot.
    LengthSlot { slot: usize },
}

/// How the event keyword is assembled: one constant, or one constant per
/// declared keyword combined with bitwise-or (kept apart so each ill-typed
/// keyword expression is reported on its own).
#[derive(PartialEq, Eq, Debug)]
pub enum KeywordPlan {
    Single(Expr),
    Combined(Vec<Expr>),
}

/// The compiled event: the metadata chunk sequence (behind the size
/// prefix), the binding, length and descriptor plans, and the event header
/// settings passed through for the emission descriptor.
#[derive(Debug)]
pub struct CompiledEvent {
    pub chunks: Vec<Chunk>,
    pub bindings: Vec<Binding>,
    pub lengths: Vec<LengthRule>,
    pub descriptors: Vec<Desc>,
    pub keyword_plan: KeywordPlan,
    pub provider_symbol: String,
    pub id: Expr,
    pub version: Expr,
    pub channel: crate::expr::EnumRef,
    pub level: crate::expr::EnumRef,
    pub opcode: crate::expr::EnumRef,
    pub task: Expr,
    pub activity_id: Option<Expr>,
    pub related_id: Option<Expr>,
}

/// The items one chunk flattens to.
pub open spec fn chunk_items(c: Chunk) -> Seq<MetaItem> {
    match c {
        Chunk::Literal(v) => v@.map_values(|b: u8| MetaItem::Byte(b)),
        Chunk::CodeExpr(e, fl) => seq![MetaItem::CodeExpr(e, fl)],
        Chunk::SymCode(t, fl) => seq![MetaItem::SymCode(t, fl)],
        Chunk::TagEnc(t) => seq![MetaItem::TagEnc(t)],
    }
}

/// The items a chunk sequence flattens to.
pub open spec fn items_of_chunks(cs: Seq<Chunk>) -> Seq<MetaItem>
    decreases cs.len(),
{
    if cs.len() == 0 {
        Seq::empty()
    } else {
        items_of_chunks(cs.drop_last()) + chunk_items(cs.last())
    }
}

/// Chunks alternate: no literal chunk is empty, no two stand adjacent.
pub open spec fn chunks_wf(cs: Seq<Chunk>) -> bool {
    &&& forall|i: int|
        0 <= i < cs.len() ==> ((#[trigger] cs[i]) matches Chunk::Literal(v) ==> v@.len() > 0)
    &&& forall|i: int|
        0 < i < cs.len() ==> !(cs[i - 1] is Literal && (#[trigger] cs[i]) is Literal)
}

/// The byte items of a tag: a literal tag's encoding, or one deferred
/// element.
pub open spec fn tag_items(t: TagVal) -> Seq<MetaItem> {
    match t {
        TagVal::Lit(v) => spec_tag_bytes(v).map_values(|b: u8| MetaItem::Byte(b)),
        TagVal::Dyn(e) => seq![MetaItem::TagEnc(e)],
    }
}

/// The metadata items one field contributes: its name and terminator, its
/// in-type (with the extension and variable-count flags), its out-type
/// where one is emitted (with the tag flag), and its tag.
pub open spec fn field_meta_items(f: FieldModel) -> Seq<MetaItem> {
    if !f.strategy.spec_has_metadata() {
        Seq::empty()
    } else {
        let name_bytes = match f.name {
            Some(s) => str_bytes(s@),
            None => Seq::<u8>::empty(),
        };
        let has_out = f.outtype_expr is Some || f.outtype != 0;
        let has_tag = f.tag is Some;
        let inflags = ((if has_out || has_tag {
            0x80u8
        } else {
            0u8
        }) | (if f.strategy.spec_is_slice() {
            0x40u8
        } else {
            0u8
        })) as u8;
        let in_item = match f.intype_expr {
            Some(e) => seq![MetaItem::CodeExpr(e, inflags)],
            None => match f.intype {
                TypeTok::Code(c) => seq![MetaItem::Byte((c | inflags) as u8)],
                _ => seq![MetaItem::SymCode(f.intype, inflags)],
            },
        };
        let outflags: u8 = if has_tag {
            0x80u8
        } else {
            0u8
        };
        let out_item: Seq<MetaItem> = if has_out || has_tag {
            match f.outtype_expr {
                Some(e) => seq![MetaItem::CodeExpr(e, outflags)],
                None => seq![MetaItem::Byte((f.outtype | outflags) as u8)],
            }
        } else {
            Seq::empty()
        };
        let tag_part = match f.tag {
            Some(t) => tag_items(t),
            None => Seq::empty(),
        };
        name_bytes.map_values(|b: u8| MetaItem::Byte(b)) + seq![MetaItem::Byte(0u8)] + in_item
            + out_item + tag_part
    }
}

/// The metadata items of the fields from index `i` on.
pub open spec fn items_from(fields: Seq<FieldModel>, i: int) -> Seq<MetaItem>
    decreases fields.len() - i,
{
    if i < 0 || i >= fields.len() {
        Seq::empty()
    } else {
        field_meta_items(fields[i]) + items_from(fields, i + 1)
    }
}

/// Every metadata item of the event, after the size prefix: the event tag,
/// the event name and terminator, then each field's items in order.
pub open spec fn event_meta_items(m: EventInfo) -> Seq<MetaItem> {
    tag_items(m.tag) + str_bytes(m.name@).map_values(|b: u8| MetaItem::Byte(b)) + seq![
        MetaItem::Byte(0u8),
    ] + items_from(m.fields@, 0)
}

/// The descriptors one field contributes, its argument numbered `arg` and
/// the next free length slot numbered `slot`.
pub open spec fn field_descs(f: FieldModel, arg: int, slot: int) -> Seq<Desc> {
    match f.strategy {
        Strategy::Scalar => seq![Desc::Value { arg: arg as usize }],
        Strategy::Time32 => seq![Desc::Value { arg: arg as usize }],
        Strategy::Time64 => seq![Desc::Value { arg: arg as usize }],
        Strategy::SystemTime => seq![Desc::Value { arg: arg as usize }],
        Strategy::RawData => seq![Desc::Counted { arg: arg as usize }],
        Strategy::RawField => seq![Desc::Counted { arg: arg as usize }],
        Strategy::RawFieldSlice => seq![Desc::Counted { arg: arg as usize }],
        Strategy::Sid => seq![Desc::Sid { arg: arg as usize }],
        Strategy::CStr => seq![
            Desc::CStr { arg: arg as usize },
            Desc::ZeroTerm { vtype: f.vtype },
        ],
        Strategy::Counted => seq![
            Desc::LengthSlot { slot: slot as usize },
            Desc::Counted { arg: arg as usize },
        ],
        Strategy::Slice => seq![
            Desc::LengthSlot { slot: slot as usize },
            Desc::SliceData { arg: arg as usize },
        ],
        _ => Seq::empty(),
    }
}

/// The length slots one field contributes.
pub open spec fn field_lengths(f: FieldModel, arg: int) -> Seq<LengthRule> {
    match f.strategy {
        Strategy::Counted => seq![LengthRule::CountedSize { arg: arg as usize }],
        Strategy::Slice => seq![LengthRule::SliceCount { arg: arg as usize }],
        _ => Seq::empty(),
    }
}

/// The argument bindings one field contributes.
pub open spec fn field_bindings(f: FieldModel, arg: int) -> Seq<Binding> {
    let v = f.value->0;
    match f.strategy {
        Strategy::Scalar => seq![
            Binding {
                arg: arg as usize,
                kind: BindKind::Scalar { vtype: f.vtype, arity: f.arity, value: v },
            },
        ],
        Strategy::Time32 => seq![
            Binding { arg: arg as usize, kind: BindKind::Time32 { value: v } },
        ],
        Strategy::Time64 => seq![
            Binding { arg: arg as usize, kind: BindKind::Time64 { value: v } },
        ],
        Strategy::SystemTime => seq![
            Binding { arg: arg as usize, kind: BindKind::SystemTime { value: v } },
        ],
        Strategy::RawData => seq![
            Binding {
                arg: arg as usize,
                kind: BindKind::Slice { vtype: f.vtype, arity: f.arity, value: v },
            },
        ],
        Strategy::RawField => seq![
            Binding {
                arg: arg as usize,
                kind: BindKind::Slice { vtype: f.vtype, arity: f.arity, value: v },
            },
        ],
        Strategy::RawFieldSlice => seq![
            Binding {
                arg: arg as usize,
                kind: BindKind::Slice { vtype: f.vtype, arity: f.arity, value: v },
            },
        ],
        Strategy::Sid => seq![
            Binding {
                arg: arg as usize,
                kind: BindKind::Slice { vtype: f.vtype, arity: f.arity, value: v },
            },
        ],
        Strategy::CStr => seq![
            Binding {
                arg: arg as usize,
                kind: BindKind::Slice { vtype: f.vtype, arity: f.arity, value: v },
            },
        ],
        Strategy::Counted => if f.arity == 0 {
            seq![
                Binding {
                    arg: arg as usize,
                    kind: BindKind::Slice { vtype: f.vtype, arity: f.arity, value: v },
                },
            ]
        } else {
            seq![
                Binding {
                    arg: arg as usize,
                    kind: BindKind::Scalar { vtype: f.vtype, arity: f.arity, value: v },
                },
            ]
        },
        Strategy::Slice => seq![
            Binding {
                arg: arg as usize,
                kind: BindKind::Slice { vtype: f.vtype, arity: f.arity, value: v },
            },
        ],
        _ => Seq::empty(),
    }
}

/// The per-field descriptors from index `i` on, length slots numbered from
/// `slot`.
pub open spec fn descs_from(fields: Seq<FieldModel>, i: int, slot: int) -> Seq<Desc>
    decreases fields.len() - i,
{
    if i < 0 || i >= fields.len() {
        Seq::empty()
    } else {
        field_descs(fields[i], i, slot) + descs_from(
            fields,
            i + 1,
            slot + field_lengths(fields[i], i).len(),
        )
    }
}

/// The length slots of the fields from index `i` on.
pub open spec fn lengths_from(fields: Seq<FieldModel>, i: int) -> Seq<LengthRule>
    decreases fields.len() - i,
{
    if i < 0 || i >= fields.len() {
        Seq::empty()
    } else {
        field_lengths(fields[i], i) + lengths_from(fields, i + 1)
    }
}

/// The argument bindings of the fields from index `i` on.
pub open spec fn bindings_from(fields: Seq<FieldModel>, i: int) -> Seq<Binding>
    decreases fields.len() - i,
{
    if i < 0 || i >= fields.len() {
        Seq::empty()
    } else {
        field_bindings(fields[i], i) + bindings_from(fields, i + 1)
    }
}

/// The descriptor blocks the fields from index `i` on consume.
pub open spec fn sum_data_counts(fields: Seq<FieldModel>, i: int) -> int
    decreases fields.len() - i,
{
    if i < 0 || i >= fields.len() {
        0
    } else {
        fields[i].strategy.spec_data_count() + sum_data_counts(fields, i + 1)
    }
}

/// Descriptor count parity: the per-field descriptor plan holds exactly as
/// many entries as the fields' data-block counts add up to — one per
/// fixed-size field, two per variable-length field, one more for a
/// nul-terminated field's terminator — so the whole plan holds two (the
/// provider and event blocks) plus that sum.
pub proof fn lemma_descriptor_count_parity(fields: Seq<FieldModel>, i: int, slot: int)
    ensures
        descs_from(fields, i, slot).len() == sum_data_counts(fields, i),
    decreases fields.len() - i,
{
    if 0 <= i < fields.len() {
        lemma_descriptor_count_parity(fields, i + 1, slot + field_lengths(fields[i], i).len());
    }
}

/// A field of a validated model: it binds a value exactly when its kind
/// consumes descriptor blocks, carries a name exactly when its kind has a
/// metadata footprint, and any literal tag is within the 28-bit range.
pub open spec fn field_model_wf(f: FieldModel) -> bool {
    &&& (f.value is Some <==> f.strategy.spec_data_count() != 0)
    &&& (f.tag matches Some(TagVal::Lit(v)) ==> v <= TAG_MAX)
}

/// An event model fit for layout: every field well-formed and the event
/// tag in range.
pub open spec fn event_model_wf(m: EventInfo) -> bool {
    &&& (m.tag matches TagVal::Lit(v) ==> v <= TAG_MAX)
    &&& forall|i: int| 0 <= i < m.fields@.len() ==> field_model_wf(#[trigger] m.fields@[i])
}


/// Appends a byte run.
fn push_bytes(buf: &mut Vec<u8>, s: &[u8])
    ensures
        final(buf)@ == old(buf)@ + s@,
{
    let mut j: usize = 0;
    while j < s.len()
        invariant
            j <= s@.len(),
            buf@ == old(buf)@ + s@.subrange(0, j as int),
        decreases s@.len() - j,
    {
        buf.push(s[j]);
        proof {
            assert(buf@ =~= old(buf)@ + s@.subrange(0, j + 1));
        }
        j = j + 1;
    }
    proof {
        assert(buf@ =~= old(buf)@ + s@);
    }
}

/// Closes the pending literal run, if any, as one chunk.
fn flush_meta_buffer(chunks: &mut Vec<Chunk>, buf: &mut Vec<u8>)
    requires
        chunks_wf(old(chunks)@),
        old(buf)@.len() > 0 ==> old(chunks)@.len() == 0 || !(old(chunks)@.last() is Literal),
    ensures
        chunks_wf(final(chunks)@),
        final(buf)@.len() == 0,
        items_of_chunks(final(chunks)@) == items_of_chunks(old(chunks)@) + old(buf)@.map_values(
            |b: u8| MetaItem::Byte(b),
        ),
{
    if buf.len() > 0 {
        let mut lit: Vec<u8> = Vec::new();
        std::mem::swap(buf, &mut lit);
        chunks.push(Chunk::Literal(lit));
        proof {
            assert(final(chunks)@.drop_last() =~= old(chunks)@);
            assert(items_of_chunks(final(chunks)@) =~= items_of_chunks(old(chunks)@) + old(
                buf,
            )@.map_values(|b: u8| MetaItem::Byte(b)));
        }
    } else {
        proof {
            assert(old(buf)@.map_values(|b: u8| MetaItem::Byte(b)) =~= Seq::<MetaItem>::empty());
            assert(items_of_chunks(final(chunks)@) =~= items_of_chunks(old(chunks)@) + old(
                buf,
            )@.map_values(|b: u8| MetaItem::Byte(b)));
        }
    }
}

/// Pushes one deferred chunk; the pending literal run is closed first.
fn push_deferred(chunks: &mut Vec<Chunk>, buf: &mut Vec<u8>, c: Chunk)
    requires
        chunks_wf(old(chunks)@),
        !(c is Literal),
        old(buf)@.len() > 0 ==> old(chunks)@.len() == 0 || !(old(chunks)@.last() is Literal),
    ensures
        chunks_wf(final(chunks)@),
        final(buf)@.len() == 0,
        !(final(chunks)@.last() is Literal),
        final(chunks)@.len() > 0,
        items_of_chunks(final(chunks)@) == items_of_chunks(old(chunks)@) + old(buf)@.map_values(
            |b: u8| MetaItem::Byte(b),
        ) + chunk_items(c),
{
    flush_meta_buffer(chunks, buf);
    let ghost mid = chunks@;
    chunks.push(c);
    proof {
        assert(final(chunks)@.drop_last() =~= mid);
        assert(items_of_chunks(final(chunks)@) =~= items_of_chunks(mid) + chunk_items(c));
    }
}


/// The byte items of a byte run.
pub open spec fn byte_items(b: Seq<u8>) -> Seq<MetaItem> {
    b.map_values(|x: u8| MetaItem::Byte(x))
}

/// The name, terminator and in-type items of a metadata-bearing field.
pub open spec fn field_head_items(f: FieldModel, inflags: u8) -> Seq<MetaItem> {
    let name_bytes = match f.name {
        Some(s) => str_bytes(s@),
        None => Seq::<u8>::empty(),
    };
    let in_item = match f.intype_expr {
        Some(e) => seq![MetaItem::CodeExpr(e, inflags)],
        None => match f.intype {
            TypeTok::Code(c) => seq![MetaItem::Byte((c | inflags) as u8)],
            _ => seq![MetaItem::SymCode(f.intype, inflags)],
        },
    };
    byte_items(name_bytes) + seq![MetaItem::Byte(0u8)] + in_item
}

/// The out-type and tag items of a metadata-bearing field.
pub open spec fn field_tail_items(f: FieldModel) -> Seq<MetaItem> {
    let has_out = f.outtype_expr is Some || f.outtype != 0;
    let has_tag = f.tag is Some;
    let outflags: u8 = if has_tag {
        0x80u8
    } else {
        0u8
    };
    let out_item: Seq<MetaItem> = if has_out || has_tag {
        match f.outtype_expr {
            Some(e) => seq![MetaItem::CodeExpr(e, outflags)],
            None => seq![MetaItem::Byte((f.outtype | outflags) as u8)],
        }
    } else {
        Seq::empty()
    };
    let tag_part = match f.tag {
        Some(t) => tag_items(t),
        None => Seq::<MetaItem>::empty(),
    };
    out_item + tag_part
}

/// The field's items are its head items followed by its tail items.
proof fn lemma_field_items_split(f: FieldModel, inflags: u8)
    requires
        f.strategy.spec_has_metadata(),
        inflags == ((if f.outtype_expr is Some || f.outtype != 0 || f.tag is Some {
            0x80u8
        } else {
            0u8
        }) | (if f.strategy.spec_is_slice() {
            0x40u8
        } else {
            0u8
        })) as u8,
    ensures
        field_meta_items(f) == field_head_items(f, inflags) + field_tail_items(f),
{
    assert(field_meta_items(f) =~= field_head_items(f, inflags) + field_tail_items(f));
}

/// Emits a field's name, terminator and in-type.
#[verifier::rlimit(100)]
fn emit_field_head(
    chunks: &mut Vec<Chunk>,
    buf: &mut Vec<u8>,
    fname: &Option<String>,
    intype: TypeTok,
    intype_expr: Option<EnumRef>,
    inflags: u8,
    Ghost(f_spec): Ghost<FieldModel>,
)
    requires
        f_spec.name == *fname,
        f_spec.intype == intype,
        f_spec.intype_expr == intype_expr,
        chunks_wf(old(chunks)@),
        old(chunks)@.len() == 0 || !(old(chunks)@.last() is Literal),
    ensures
        chunks_wf(final(chunks)@),
        final(chunks)@.len() == 0 || !(final(chunks)@.last() is Literal),
        items_of_chunks(final(chunks)@) + byte_items(final(buf)@) == items_of_chunks(old(chunks)@)
            + byte_items(old(buf)@) + field_head_items(f_spec, inflags),
{
    let ghost items_before = items_of_chunks(chunks@) + byte_items(buf@);
    match fname {
        Some(s) => {
            push_bytes(buf, s.as_str().as_bytes());
        },
        None => {},
    }
    buf.push(0);
    proof {
        assert(items_of_chunks(chunks@) + byte_items(buf@) =~= items_before + byte_items(
            match f_spec.name {
                Some(s) => str_bytes(s@),
                None => Seq::<u8>::empty(),
            },
        ) + seq![MetaItem::Byte(0u8)]);
    }
    let ghost stage1 = items_of_chunks(chunks@) + byte_items(buf@);
    match intype_expr {
        Some(e) => {
            push_deferred(chunks, buf, Chunk::CodeExpr(e, inflags));
        },
        None => {
            match intype {
                TypeTok::Code(c) => {
                    buf.push(c | inflags);
                },
                _ => {
                    push_deferred(chunks, buf, Chunk::SymCode(intype, inflags));
                },
            }
        },
    }
    proof {
        assert(items_of_chunks(chunks@) + byte_items(buf@) =~= stage1 + (match f_spec.intype_expr {
            Some(e) => seq![MetaItem::CodeExpr(e, inflags)],
            None => match f_spec.intype {
                TypeTok::Code(c) => seq![MetaItem::Byte((c | inflags) as u8)],
                _ => seq![MetaItem::SymCode(f_spec.intype, inflags)],
            },
        }));
        assert(items_of_chunks(chunks@) + byte_items(buf@) =~= items_before + field_head_items(
            f_spec,
            inflags,
        ));
    }
}

/// Emits a field's out-type and tag.
#[verifier::rlimit(100)]
fn emit_field_tail(
    chunks: &mut Vec<Chunk>,
    buf: &mut Vec<u8>,
    outtype: u8,
    outtype_expr: Option<EnumRef>,
    ftag: Option<TagVal>,
    Ghost(f_spec): Ghost<FieldModel>,
)
    requires
        f_spec.outtype == outtype,
        f_spec.outtype_expr == outtype_expr,
        f_spec.tag == ftag,
        field_model_wf(f_spec),
        chunks_wf(old(chunks)@),
        old(chunks)@.len() == 0 || !(old(chunks)@.last() is Literal),
    ensures
        chunks_wf(final(chunks)@),
        final(chunks)@.len() == 0 || !(final(chunks)@.last() is Literal),
        items_of_chunks(final(chunks)@) + byte_items(final(buf)@) == items_of_chunks(old(chunks)@)
            + byte_items(old(buf)@) + field_tail_items(f_spec),
{
    let ghost items_before = items_of_chunks(chunks@) + byte_items(buf@);
    let has_out = outtype_expr.is_some() || outtype != 0;
    let has_tag = ftag.is_some();
    if has_out || has_tag {
        let outflags: u8 = if has_tag {
            0x80u8
        } else {
            0u8
        };
        match outtype_expr {
            Some(e) => {
                push_deferred(chunks, buf, Chunk::CodeExpr(e, outflags));
            },
            None => {
                buf.push(outtype | outflags);
            },
        }
    }
    let ghost stage1 = items_of_chunks(chunks@) + byte_items(buf@);
    proof {
        assert(stage1 =~= items_before + (if has_out || has_tag {
            match f_spec.outtype_expr {
                Some(e) => seq![
                    MetaItem::CodeExpr(
                        e,
                        if has_tag {
                            0x80u8
                        } else {
                            0u8
                        },
                    ),
                ],
                None => seq![
                    MetaItem::Byte(
                        (f_spec.outtype | (if has_tag {
                            0x80u8
                        } else {
                            0u8
                        })) as u8,
                    ),
                ],
            }
        } else {
            Seq::<MetaItem>::empty()
        }));
    }
    match ftag {
        Some(TagVal::Lit(v)) => {
            let tb = tag_encode(v);
            push_bytes(buf, tb.as_slice());
        },
        Some(TagVal::Dyn(t)) => {
            push_deferred(chunks, buf, Chunk::TagEnc(t));
        },
        None => {},
    }
    proof {
        assert(items_of_chunks(chunks@) + byte_items(buf@) =~= stage1 + (match f_spec.tag {
            Some(t) => tag_items(t),
            None => Seq::<MetaItem>::empty(),
        }));
        assert(items_of_chunks(chunks@) + byte_items(buf@) =~= items_before + field_tail_items(
            f_spec,
        ));
    }
}

/// Emits one field's metadata items into the chunk builder.
fn emit_field_meta(
    chunks: &mut Vec<Chunk>,
    buf: &mut Vec<u8>,
    fname: Option<String>,
    intype: TypeTok,
    intype_expr: Option<EnumRef>,
    outtype: u8,
    outtype_expr: Option<EnumRef>,
    strategy: Strategy,
    ftag: Option<TagVal>,
    Ghost(f_spec): Ghost<FieldModel>,
)
    requires
        f_spec.name == fname,
        f_spec.intype == intype,
        f_spec.intype_expr == intype_expr,
        f_spec.outtype == outtype,
        f_spec.outtype_expr == outtype_expr,
        f_spec.strategy == strategy,
        f_spec.tag == ftag,
        field_model_wf(f_spec),
        chunks_wf(old(chunks)@),
        old(chunks)@.len() == 0 || !(old(chunks)@.last() is Literal),
    ensures
        chunks_wf(final(chunks)@),
        final(chunks)@.len() == 0 || !(final(chunks)@.last() is Literal),
        items_of_chunks(final(chunks)@) + byte_items(final(buf)@) == items_of_chunks(old(chunks)@)
            + byte_items(old(buf)@) + field_meta_items(f_spec),
{
    if strategy.has_metadata() {
        let has_out = outtype_expr.is_some() || outtype != 0;
        let has_tag = ftag.is_some();
        let inflags: u8 = (if has_out || has_tag {
            0x80u8
        } else {
            0u8
        }) | (if strategy.is_slice() {
            0x40u8
        } else {
            0u8
        });
        emit_field_head(chunks, buf, &fname, intype, intype_expr, inflags, Ghost(f_spec));
        emit_field_tail(chunks, buf, outtype, outtype_expr, ftag, Ghost(f_spec));
        proof {
            lemma_field_items_split(f_spec, inflags);
        }
    } else {
        proof {
            assert(field_meta_items(f_spec) =~= Seq::<MetaItem>::empty());
            assert(items_of_chunks(chunks@) + byte_items(buf@) =~= items_of_chunks(old(chunks)@)
                + byte_items(old(buf)@) + field_meta_items(f_spec));
        }
    }
}

/// Appends one field's binding, length slot and descriptors to the plans.
#[verifier::rlimit(100)]
fn emit_field_plans(
    bindings: &mut Vec<Binding>,
    lengths: &mut Vec<LengthRule>,
    descriptors: &mut Vec<Desc>,
    strategy: Strategy,
    vtype: ValueType,
    arity: u8,
    value: Option<Expr>,
    arg: usize,
    Ghost(f_spec): Ghost<FieldModel>,
)
    requires
        f_spec.strategy == strategy,
        f_spec.vtype == vtype,
        f_spec.arity == arity,
        f_spec.value == value,
        field_model_wf(f_spec),
    ensures
        final(bindings)@ == old(bindings)@ + field_bindings(f_spec, arg as int),
        final(lengths)@ == old(lengths)@ + field_lengths(f_spec, arg as int),
        final(descriptors)@ == old(descriptors)@ + field_descs(
            f_spec,
            arg as int,
            old(lengths)@.len() as int,
        ),
{
    let i = arg;
    match strategy {
        Strategy::Scalar => {
            bindings.push(
                Binding { arg: i, kind: BindKind::Scalar { vtype, arity, value: value.unwrap() } },
            );
            descriptors.push(Desc::Value { arg: i });
        },
        Strategy::Time32 => {
            bindings.push(Binding { arg: i, kind: BindKind::Time32 { value: value.unwrap() } });
            descriptors.push(Desc::Value { arg: i });
        },
        Strategy::Time64 => {
            bindings.push(Binding { arg: i, kind: BindKind::Time64 { value: value.unwrap() } });
            descriptors.push(Desc::Value { arg: i });
        },
        Strategy::SystemTime => {
            bindings.push(Binding { arg: i, kind: BindKind::SystemTime { value: value.unwrap() } });
            descriptors.push(Desc::Value { arg: i });
        },
        Strategy::RawData | Strategy::RawField | Strategy::RawFieldSlice => {
            bindings.push(
                Binding { arg: i, kind: BindKind::Slice { vtype, arity, value: value.unwrap() } },
            );
            descriptors.push(Desc::Counted { arg: i });
        },
        Strategy::Sid => {
            bindings.push(
                Binding { arg: i, kind: BindKind::Slice { vtype, arity, value: value.unwrap() } },
            );
            descriptors.push(Desc::Sid { arg: i });
        },
        Strategy::CStr => {
            bindings.push(
                Binding { arg: i, kind: BindKind::Slice { vtype, arity, value: value.unwrap() } },
            );
            descriptors.push(Desc::CStr { arg: i });
            descriptors.push(Desc::ZeroTerm { vtype });
        },
        Strategy::Counted => {
            if arity == 0 {
                bindings.push(
                    Binding {
                        arg: i,
                        kind: BindKind::Slice { vtype, arity, value: value.unwrap() },
                    },
                );
            } else {
                bindings.push(
                    Binding {
                        arg: i,
                        kind: BindKind::Scalar { vtype, arity, value: value.unwrap() },
                    },
                );
            }
            let slot = lengths.len();
            lengths.push(LengthRule::CountedSize { arg: i });
            descriptors.push(Desc::LengthSlot { slot });
            descriptors.push(Desc::Counted { arg: i });
        },
        Strategy::Slice => {
            bindings.push(
                Binding { arg: i, kind: BindKind::Slice { vtype, arity, value: value.unwrap() } },
            );
            let slot = lengths.len();
            lengths.push(LengthRule::SliceCount { arg: i });
            descriptors.push(Desc::LengthSlot { slot });
            descriptors.push(Desc::SliceData { arg: i });
        },
        _ => {},
    }
    proof {
        assert(final(bindings)@ =~= old(bindings)@ + field_bindings(f_spec, arg as int));
        assert(final(lengths)@ =~= old(lengths)@ + field_lengths(f_spec, arg as int));
        assert(final(descriptors)@ =~= old(descriptors)@ + field_descs(
            f_spec,
            arg as int,
            old(lengths)@.len() as int,
        ));
    }
}

/// The layout compiler.
pub struct EventGenerator {}

impl EventGenerator {
    /// Compiles a validated event model: the metadata chunks whose items
    /// are exactly the event's metadata items, the binding, length-slot and
    /// descriptor plans in field order (the provider and event blocks
    /// first), and the keyword plan.
    #[verifier::rlimit(100)]
    pub fn generate(event: EventInfo) -> (r: CompiledEvent)
        requires
            event_model_wf(event),
        ensures
            items_of_chunks(r.chunks@) == event_meta_items(event),
            chunks_wf(r.chunks@),
            r.descriptors@ == seq![Desc::ProviderMeta, Desc::EventMeta] + descs_from(
                event.fields@,
                0,
                0,
            ),
            r.lengths@ == lengths_from(event.fields@, 0),
            r.bindings@ == bindings_from(event.fields@, 0),
            r.descriptors@.len() == 2 + sum_data_counts(event.fields@, 0),
            (match r.keyword_plan {
                KeywordPlan::Single(e) => event.keywords@.len() == 1 && e == event.keywords@[0],
                KeywordPlan::Combined(v) => v == event.keywords && event.keywords@.len() != 1,
            }),
            r.provider_symbol == event.provider_symbol,
            r.id == event.id,
            r.version == event.version,
            r.channel == event.channel,
            r.level == event.level,
            r.opcode == event.opcode,
            r.task == event.task,
            r.activity_id == event.activity_id,
            r.related_id == event.related_id,
    {
        let ghost m_spec = event;
        let EventInfo {
            provider_symbol,
            name,
            id,
            version,
            channel,
            level,
            opcode,
            task,
            keywords,
            tag,
            activity_id,
            related_id,
            fields,
        } = event;

        let mut chunks: Vec<Chunk> = Vec::new();
        let mut buf: Vec<u8> = Vec::new();
        let mut bindings: Vec<Binding> = Vec::new();
        let mut lengths: Vec<LengthRule> = Vec::new();
        let mut descriptors: Vec<Desc> = Vec::new();

        descriptors.push(Desc::ProviderMeta);
        descriptors.push(Desc::EventMeta);

        // the event tag
        match tag {
            TagVal::Lit(v) => {
                let tb = tag_encode(v);
                push_bytes(&mut buf, tb.as_slice());
            },
            TagVal::Dyn(t) => {
                push_deferred(&mut chunks, &mut buf, Chunk::TagEnc(t));
            },
        }
        proof {
            assert(items_of_chunks(chunks@) + buf@.map_values(|b: u8| MetaItem::Byte(b)) =~= tag_items(
                m_spec.tag,
            ));
        }

        // the event name and its terminator
        push_bytes(&mut buf, name.as_str().as_bytes());
        buf.push(0);
        let ghost header_items = tag_items(m_spec.tag) + str_bytes(m_spec.name@).map_values(
            |b: u8| MetaItem::Byte(b),
        ) + seq![MetaItem::Byte(0u8)];
        proof {
            assert(items_of_chunks(chunks@) + buf@.map_values(|b: u8| MetaItem::Byte(b))
                =~= header_items);
        }

        // the fields, in declaration order
        let ghost fields_spec = fields@;
        let total: usize = fields.len();
        let mut rem = fields;
        let mut i: usize = 0;
        while rem.len() > 0
            invariant
                total == fields_spec.len(),
                i + rem@.len() == fields_spec.len(),
                rem@ =~= fields_spec.skip(i as int),
                forall|j: int|
                    0 <= j < fields_spec.len() ==> field_model_wf(#[trigger] fields_spec[j]),
                chunks_wf(chunks@),
                chunks@.len() == 0 || !(chunks@.last() is Literal),
                items_of_chunks(chunks@) + buf@.map_values(|b: u8| MetaItem::Byte(b)) + items_from(
                    fields_spec,
                    i as int,
                ) == header_items + items_from(fields_spec, 0),
                descriptors@ + descs_from(fields_spec, i as int, lengths@.len() as int) == seq![
                    Desc::ProviderMeta,
                    Desc::EventMeta,
                ] + descs_from(fields_spec, 0, 0),
                lengths@ + lengths_from(fields_spec, i as int) == lengths_from(fields_spec, 0),
                bindings@ + bindings_from(fields_spec, i as int) == bindings_from(fields_spec, 0),
            decreases rem@.len(),
        {
            let ghost f_spec = fields_spec[i as int];
            proof {
                assert(fields_spec.skip(i as int)[0] == fields_spec[i as int]);
                assert(fields_spec.skip(i as int).drop_first() =~= fields_spec.skip(i as int + 1));
                assert(field_model_wf(f_spec));
            }
            let f = rem.remove(0);
            let FieldModel {
                name: fname,
                vtype,
                intype,
                intype_expr,
                outtype,
                outtype_expr,
                strategy,
                arity,
                tag: ftag,
                value,
            } = f;
            emit_field_meta(
                &mut chunks,
                &mut buf,
                fname,
                intype,
                intype_expr,
                outtype,
                outtype_expr,
                strategy,
                ftag,
                Ghost(f_spec),
            );
            emit_field_plans(
                &mut bindings,
                &mut lengths,
                &mut descriptors,
                strategy,
                vtype,
                arity,
                value,
                i,
                Ghost(f_spec),
            );
            proof {
                assert(descs_from(fields_spec, i as int, lengths@.len() as int - field_lengths(
                    f_spec,
                    i as int,
                ).len()) == field_descs(
                    f_spec,
                    i as int,
                    lengths@.len() as int - field_lengths(f_spec, i as int).len(),
                ) + descs_from(fields_spec, i as int + 1, lengths@.len() as int));
            }
            i = i + 1;
        }
        proof {
            assert(fields_spec.skip(fields_spec.len() as int) =~= Seq::<FieldModel>::empty());
        }
        flush_meta_buffer(&mut chunks, &mut buf);
        proof {
            assert(items_of_chunks(chunks@) =~= event_meta_items(m_spec));
            assert(descriptors@ =~= seq![Desc::ProviderMeta, Desc::EventMeta] + descs_from(
                fields_spec,
                0,
                0,
            ));
            assert(lengths@ =~= lengths_from(fields_spec, 0));
            assert(bindings@ =~= bindings_from(fields_spec, 0));
            lemma_descriptor_count_parity(fields_spec, 0, 0);
        }

        // the keyword plan
        let keyword_plan = if keywords.len() == 1 {
            let mut ks = keywords;
            KeywordPlan::Single(ks.remove(0))
        } else {
            KeywordPlan::Combined(keywords)
        };

        CompiledEvent {
            chunks,
            bindings,
            lengths,
            descriptors,
            keyword_plan,
            provider_symbol,
            id,
            version,
            channel,
            level,
            opcode,
            task,
            activity_id,
            related_id,
        }
    }
}


/// Whether every chunk is a literal byte run: nothing in the block is
/// deferred to the emitting platform.
pub open spec fn all_literal(cs: Seq<Chunk>) -> bool {
    forall|i: int| 0 <= i < cs.len() ==> (#[trigger] cs[i]) is Literal
}

/// The bytes of the chunks from index `i` on, literal runs only (a
/// deferred chunk contributes nothing).
pub open spec fn flat_from(cs: Seq<Chunk>, i: int) -> Seq<u8>
    decreases cs.len() - i,
{
    if i < 0 || i >= cs.len() {
        Seq::empty()
    } else {
        (match cs[i] {
            Chunk::Literal(v) => v@,
            _ => Seq::<u8>::empty(),
        }) + flat_from(cs, i + 1)
    }
}

impl CompiledEvent {
    /// The complete metadata block, where every byte is known at
    /// compilation: the two-byte little-endian size prefix (covering
    /// itself) followed by the chunks' bytes. `None` when a deferred chunk
    /// remains or the block would outgrow its size prefix.
    pub fn metadata_bytes(&self) -> (r: Option<Vec<u8>>)
        ensures
            match r {
                Some(v) => {
                    &&& all_literal(self.chunks@)
                    &&& 2 + flat_from(self.chunks@, 0).len() <= 65535
                    &&& v@ == seq![
                        ((2 + flat_from(self.chunks@, 0).len()) % 256) as u8,
                        (((2 + flat_from(self.chunks@, 0).len()) / 256) % 256) as u8,
                    ] + flat_from(self.chunks@, 0)
                },
                None => !all_literal(self.chunks@) || 2 + flat_from(self.chunks@, 0).len() > 65535,
            },
    {
        let mut body: Vec<u8> = Vec::new();
        let mut i: usize = 0;
        while i < self.chunks.len()
            invariant
                i <= self.chunks@.len(),
                forall|j: int| 0 <= j < i ==> (#[trigger] self.chunks@[j]) is Literal,
                body@ + flat_from(self.chunks@, i as int) == flat_from(self.chunks@, 0),
            decreases self.chunks@.len() - i,
        {
            match &self.chunks[i] {
                Chunk::Literal(v) => {
                    push_bytes(&mut body, v.as_slice());
                },
                _ => {
                    return None;
                },
            }
            i = i + 1;
        }
        if body.len() > 65533 {
            return None;
        }
        let total: usize = 2 + body.len();
        let mut out: Vec<u8> = Vec::new();
        out.push((total % 256) as u8);
        out.push(((total / 256) % 256) as u8);
        push_bytes(&mut out, body.as_slice());
        proof {
            assert(out@ =~= seq![
                ((2 + flat_from(self.chunks@, 0).len()) % 256) as u8,
                (((2 + flat_from(self.chunks@, 0).len()) / 256) % 256) as u8,
            ] + flat_from(self.chunks@, 0));
        }
        Some(out)
    }
}

} // verus!
