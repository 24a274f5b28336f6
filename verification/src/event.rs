//! The event schema validator: resolves each option of an event description
//! against the option catalog or the fixed set of event-level options,
//! enforces the structural, uniqueness, content and limit rules, applies
//! defaults, and produces the validated event model or the aggregated
//! diagnostics.
//!
//! The whole walk is specified by a fold ([`walk_opts`]) over the option
//! tree: the validator returns a model exactly when the fold reports no
//! violation, and the model's every part equals what the fold builds.

use vstd::prelude::*;

use crate::catalog::Catalog;
use crate::catalog::FieldDef;
use crate::catalog::Strategy;
use crate::catalog::TypeTok;
use crate::catalog::ValueType;
use crate::errors::Diag;
use crate::errors::DiagKind;
use crate::errors::Errors;
use crate::errors::count_kind;
use crate::errors::lemma_count_kind_push_all;
use crate::expr::EnumKind;
use crate::expr::EnumRef;
use crate::expr::Expr;
use crate::expr::normalize_enum_value;
use crate::expr::spec_normalize;
use crate::order::name_lt;
use crate::order::str_is;
use crate::strings::channel_name_views;
use crate::strings::channel_names;
use crate::strings::contains_zero;
use crate::strings::has_nul;
use crate::strings::intype_name_views;
use crate::strings::intype_names;
use crate::strings::level_name_views;
use crate::strings::level_names;
use crate::strings::opcode_name_views;
use crate::strings::opcode_names;
use crate::strings::outtype_name_views;
use crate::strings::outtype_names;
use crate::strings::str_bytes;
use crate::tag::TAG_MAX;

verus! {

/// A suboption of a field: `tag(...)` or `format(...)`.
pub struct SubOption {
    pub name: String,
    pub expr: Expr,
}

/// One option of an event description: a field kind or an event-level
/// setting, with its string argument, its positional expression arguments,
/// its suboptions and, for a nested group, its member options.
pub struct EventOption {
    /// The option name, resolved against the catalog first.
    pub name: String,
    /// The leading string-literal argument: a field's name.
    pub field_name: Option<String>,
    /// The positional expression arguments, in order: an explicit type code
    /// or member count where the kind takes one, then the field's value
    /// where the kind binds one; event-level options take one or two.
    pub exprs: Vec<Expr>,
    /// The `tag`/`format` suboptions, in order; they precede a member group.
    pub subs: Vec<SubOption>,
    /// The braced group of member options, where one follows.
    pub group: Option<Vec<EventOption>>,
}

/// An event description as the host surface hands it over.
pub struct EventDesc {
    pub provider_symbol: String,
    pub name: String,
    pub options: Vec<EventOption>,
}

/// A field or event tag: a checked 28-bit value, or a deferred expression
/// the host language evaluates.
#[derive(PartialEq, Eq, Debug)]
pub enum TagVal {
    Lit(u32),
    Dyn(String),
}

/// One validated field of the event model.
#[derive(Debug)]
pub struct FieldModel {
    /// The field name; absent for kinds without a metadata footprint.
    pub name: Option<String>,
    /// The host type of the bound value.
    pub vtype: ValueType,
    /// The default wire in-type.
    pub intype: TypeTok,
    /// An explicit in-type, for the raw kinds that take one.
    pub intype_expr: Option<EnumRef>,
    /// The wire out-type code to emit when no explicit format is given;
    /// for a group, the patched member count.
    pub outtype: u8,
    /// An explicit out-type: a `format(...)` suboption or a raw group's
    /// member count.
    pub outtype_expr: Option<EnumRef>,
    /// The marshalling strategy.
    pub strategy: Strategy,
    /// The element count of one fixed-arity value; 0 otherwise.
    pub arity: u8,
    /// The field's tag, where one was declared.
    pub tag: Option<TagVal>,
    /// The field's value expression, where the kind binds one.
    pub value: Option<Expr>,
}

/// The validated event model; every optional setting holds its declared
/// value or its fixed default.
#[derive(Debug)]
pub struct EventInfo {
    pub provider_symbol: String,
    pub name: String,
    pub id: Expr,
    pub version: Expr,
    pub channel: EnumRef,
    pub level: EnumRef,
    pub opcode: EnumRef,
    pub task: Expr,
    /// The declared keywords; `1` when none was declared.
    pub keywords: Vec<Expr>,
    pub tag: TagVal,
    pub activity_id: Option<Expr>,
    pub related_id: Option<Expr>,
    pub fields: Vec<FieldModel>,
}

/// The validator's abstract state: the model built so far, the raw running
/// counters, and whether any diagnostic has been reported.
#[verifier::ext_equal]
pub struct Walk {
    /// No diagnostic reported so far.
    pub ok: bool,
    /// The raw metadata-byte estimate; the budget is exceeded above 65535.
    pub est: int,
    /// The raw descriptor-block count; the cap is exceeded above 128.
    pub dd: int,
    /// How many nested groups have exceeded their member cap.
    pub ngd: int,
    /// Metadata-bearing fields seen at the current group level.
    pub local: int,
    /// Unrecognized or malformed options reported so far.
    pub n_syntax: int,
    /// Single-valued options or suboptions set a second time, reported so
    /// far.
    pub n_unique: int,
    /// Embedded NULs in names reported so far.
    pub n_content: int,
    /// Literal tags above the 28-bit maximum, reported so far.
    pub n_tagrange: int,
    pub fields: Seq<FieldModel>,
    pub id: Option<Expr>,
    pub version: Option<Expr>,
    pub channel: Option<EnumRef>,
    pub level: Option<EnumRef>,
    pub opcode: Option<EnumRef>,
    pub task: Option<Expr>,
    pub keywords: Seq<Expr>,
    pub tag: Option<TagVal>,
    pub aid: Option<Expr>,
    pub rid: Option<Expr>,
}

/// The catalog entry a name resolves to.
pub open spec fn cat_lookup(defs: Seq<FieldDef>, name: Seq<char>) -> Option<FieldDef>
    decreases defs.len(),
{
    if defs.len() == 0 {
        None
    } else if defs[0].name@ == name {
        Some(defs[0])
    } else {
        cat_lookup(defs.drop_first(), name)
    }
}

/// The clamped metadata-estimate contribution of one name with `kinds` type
/// bytes: name bytes, the terminator, and the type bytes.
pub open spec fn est_size(name_bytes: int, kinds: int) -> int {
    if name_bytes >= 65535 {
        65535
    } else {
        name_bytes + 1 + kinds
    }
}

/// The byte length of an optional field name.
pub open spec fn name_len_of(n: Option<String>) -> int {
    match n {
        Some(s) => str_bytes(s@).len() as int,
        None => 0,
    }
}

/// How many positional expressions a field kind takes.
pub open spec fn n_exprs(s: Strategy) -> int {
    (if s.spec_takes_type_code() || s.spec_takes_member_count() {
        1int
    } else {
        0int
    }) + (if s.spec_data_count() != 0 {
        1int
    } else {
        0int
    })
}

/// The tag a tag-valued expression denotes, and whether it is within the
/// 28-bit range (a deferred expression cannot be checked here).
pub open spec fn spec_tag_val(e: Expr) -> (TagVal, bool) {
    match e {
        Expr::Int(v) => if v <= TAG_MAX as u64 {
            (TagVal::Lit(v as u32), true)
        } else {
            (TagVal::Lit((v % 0x10000000) as u32), false)
        },
        Expr::Text(t) => (TagVal::Dyn(t), true),
    }
}

/// The state of one field's suboption walk.
#[verifier::ext_equal]
pub struct SubWalk {
    pub ok: bool,
    pub tag: Option<TagVal>,
    pub fmt: Option<EnumRef>,
    /// Unrecognized suboptions seen so far.
    pub n_syntax: int,
    /// Duplicate `tag`/`format` uses seen so far.
    pub n_unique: int,
    /// Out-of-range literal tags seen so far.
    pub n_tagrange: int,
}

/// How one suboption advances a field's suboption state.
pub open spec fn sub_step(sw: SubWalk, s: SubOption, at: bool, af: bool) -> SubWalk {
    if s.name@ == "tag"@ && at {
        let (tv, okv) = spec_tag_val(s.expr);
        SubWalk {
            ok: sw.ok && sw.tag is None && okv,
            tag: Some(tv),
            n_unique: sw.n_unique + (if sw.tag is Some {
                1int
            } else {
                0int
            }),
            n_tagrange: sw.n_tagrange + (if okv {
                0int
            } else {
                1int
            }),
            ..sw
        }
    } else if s.name@ == "format"@ && af {
        SubWalk {
            ok: sw.ok && sw.fmt is None,
            fmt: Some(spec_normalize(EnumKind::OutType, outtype_name_views(), s.expr)),
            n_unique: sw.n_unique + (if sw.fmt is Some {
                1int
            } else {
                0int
            }),
            ..sw
        }
    } else {
        SubWalk { ok: false, n_syntax: sw.n_syntax + 1, ..sw }
    }
}

/// The suboption state after every suboption of a field.
pub open spec fn sub_walk(subs: Seq<SubOption>, sw: SubWalk, at: bool, af: bool) -> SubWalk
    decreases subs.len(),
{
    if subs.len() == 0 {
        sw
    } else {
        sub_walk(subs.drop_first(), sub_step(sw, subs[0], at, af), at, af)
    }
}

/// How one event-level option advances the validator's state.
pub open spec fn event_opt_step(o: EventOption, in_group: bool, w: Walk) -> Walk {
    if in_group {
        Walk { ok: false, n_syntax: w.n_syntax + 1, ..w }
    } else if o.name@ == "debug"@ {
        w
    } else if o.name@ == "id_version"@ {
        if !evt_shape_ok(o, 2) {
            Walk { ok: false, n_syntax: w.n_syntax + 1, ..w }
        } else {
            Walk {
                ok: w.ok && w.id is None,
                id: Some(o.exprs@[0]),
                version: Some(o.exprs@[1]),
                n_unique: w.n_unique + (if w.id is Some {
                    1int
                } else {
                    0int
                }),
                ..w
            }
        }
    } else if o.name@ == "channel"@ {
        if !evt_shape_ok(o, 1) {
            Walk { ok: false, n_syntax: w.n_syntax + 1, ..w }
        } else {
            Walk {
                ok: w.ok && w.channel is None,
                channel: Some(
                    spec_normalize(EnumKind::Channel, channel_name_views(), o.exprs@[0]),
                ),
                n_unique: w.n_unique + (if w.channel is Some {
                    1int
                } else {
                    0int
                }),
                ..w
            }
        }
    } else if o.name@ == "level"@ {
        if !evt_shape_ok(o, 1) {
            Walk { ok: false, n_syntax: w.n_syntax + 1, ..w }
        } else {
            Walk {
                ok: w.ok && w.level is None,
                level: Some(spec_normalize(EnumKind::Level, level_name_views(), o.exprs@[0])),
                n_unique: w.n_unique + (if w.level is Some {
                    1int
                } else {
                    0int
                }),
                ..w
            }
        }
    } else if o.name@ == "opcode"@ {
        if !evt_shape_ok(o, 1) {
            Walk { ok: false, n_syntax: w.n_syntax + 1, ..w }
        } else {
            Walk {
                ok: w.ok && w.opcode is None,
                opcode: Some(spec_normalize(EnumKind::Opcode, opcode_name_views(), o.exprs@[0])),
                n_unique: w.n_unique + (if w.opcode is Some {
                    1int
                } else {
                    0int
                }),
                ..w
            }
        }
    } else if o.name@ == "task"@ {
        if !evt_shape_ok(o, 1) {
            Walk { ok: false, n_syntax: w.n_syntax + 1, ..w }
        } else {
            Walk {
                ok: w.ok && w.task is None,
                task: Some(o.exprs@[0]),
                n_unique: w.n_unique + (if w.task is Some {
                    1int
                } else {
                    0int
                }),
                ..w
            }
        }
    } else if o.name@ == "keyword"@ {
        if !evt_shape_ok(o, 1) {
            Walk { ok: false, n_syntax: w.n_syntax + 1, ..w }
        } else {
            Walk { keywords: w.keywords.push(o.exprs@[0]), ..w }
        }
    } else if o.name@ == "tag"@ {
        if !evt_shape_ok(o, 1) {
            Walk { ok: false, n_syntax: w.n_syntax + 1, ..w }
        } else {
            let (tv, okv) = spec_tag_val(o.exprs@[0]);
            Walk {
                ok: w.ok && w.tag is None && okv,
                tag: Some(tv),
                n_unique: w.n_unique + (if w.tag is Some {
                    1int
                } else {
                    0int
                }),
                n_tagrange: w.n_tagrange + (if okv {
                    0int
                } else {
                    1int
                }),
                ..w
            }
        }
    } else if o.name@ == "activity_id"@ {
        if !evt_shape_ok(o, 1) {
            Walk { ok: false, n_syntax: w.n_syntax + 1, ..w }
        } else {
            Walk {
                ok: w.ok && w.aid is None,
                aid: Some(o.exprs@[0]),
                n_unique: w.n_unique + (if w.aid is Some {
                    1int
                } else {
                    0int
                }),
                ..w
            }
        }
    } else if o.name@ == "related_id"@ {
        if !evt_shape_ok(o, 1) {
            Walk { ok: false, n_syntax: w.n_syntax + 1, ..w }
        } else {
            Walk {
                ok: w.ok && w.rid is None,
                rid: Some(o.exprs@[0]),
                n_unique: w.n_unique + (if w.rid is Some {
                    1int
                } else {
                    0int
                }),
                ..w
            }
        }
    } else {
        Walk { ok: false, n_syntax: w.n_syntax + 1, ..w }
    }
}

/// Whether an event-level option has the shape its name demands: no field
/// name, no suboptions, no group, and exactly `n` expressions.
pub open spec fn evt_shape_ok(o: EventOption, n: int) -> bool {
    o.field_name is None && o.subs@.len() == 0 && o.group is None && o.exprs@.len() == n
}

/// The field model one catalog-resolved option builds, before any group
/// patching.
pub open spec fn field_model_of(o: EventOption, d: FieldDef) -> FieldModel {
    let sw = sub_walk(
        o.subs@,
        SubWalk {
            ok: true,
            tag: None,
            fmt: if d.strategy.spec_takes_member_count() {
                Some(EnumRef::FromInt(EnumKind::OutType, o.exprs@[0]))
            } else {
                None
            },
            n_syntax: 0,
            n_unique: 0,
            n_tagrange: 0,
        },
        d.strategy.spec_accepts_tag(),
        d.strategy.spec_accepts_format(),
    );
    FieldModel {
        name: o.field_name,
        vtype: d.vtype,
        intype: d.intype,
        intype_expr: if d.strategy.spec_takes_type_code() {
            Some(spec_normalize(EnumKind::InType, intype_name_views(), o.exprs@[0]))
        } else {
            None
        },
        outtype: if o.group is Some {
            1
        } else {
            d.outtype
        },
        outtype_expr: sw.fmt,
        strategy: d.strategy,
        arity: d.arity,
        tag: sw.tag,
        value: if d.strategy.spec_data_count() != 0 {
            Some(
                o.exprs@[if d.strategy.spec_takes_type_code() {
                    1int
                } else {
                    0int
                }],
            )
        } else {
            None
        },
    }
}

/// The state after a well-shaped field's checks and push, before any group
/// members are walked.
pub open spec fn field_push_state(o: EventOption, d: FieldDef, in_group: bool, w: Walk) -> Walk {
    let nul_ok = match o.field_name {
        Some(s) => !contains_zero(str_bytes(s@)),
        None => true,
    };
    let raw_ok = !(d.strategy.spec_takes_member_count() && in_group);
    let sw = sub_walk(
        o.subs@,
        SubWalk {
            ok: true,
            tag: None,
            fmt: if d.strategy.spec_takes_member_count() {
                Some(EnumRef::FromInt(EnumKind::OutType, o.exprs@[0]))
            } else {
                None
            },
            n_syntax: 0,
            n_unique: 0,
            n_tagrange: 0,
        },
        d.strategy.spec_accepts_tag(),
        d.strategy.spec_accepts_format(),
    );
    let f = field_model_of(o, d);
    let fsize = est_size(
        name_len_of(f.name),
        if f.tag is Some {
            6int
        } else if f.outtype != 0 {
            2int
        } else {
            1int
        },
    );
    Walk {
        ok: w.ok && nul_ok && raw_ok && sw.ok && w.fields.len() != 128 && w.est + fsize <= 65535
            && w.dd + d.strategy.spec_data_count() <= 128,
        est: w.est + fsize,
        dd: w.dd + d.strategy.spec_data_count(),
        fields: w.fields.push(f),
        n_content: w.n_content + (if nul_ok {
            0int
        } else {
            1int
        }),
        n_syntax: w.n_syntax + (if raw_ok {
            0int
        } else {
            1int
        }) + sw.n_syntax,
        n_unique: w.n_unique + sw.n_unique,
        n_tagrange: w.n_tagrange + sw.n_tagrange,
        ..w
    }
}

/// Restores the parent level after a group walk: the member count is
/// patched into the opening field's out-type slot.
pub open spec fn group_close(wg: Walk, parent_local: int, parent_idx: int) -> Walk {
    Walk {
        local: parent_local,
        fields: wg.fields.update(
            parent_idx,
            FieldModel { outtype: (wg.local % 128) as u8, ..wg.fields[parent_idx] },
        ),
        ..wg
    }
}

/// Counts a metadata-bearing field against its level, reporting the group
/// cap on the crossing field.
pub open spec fn meta_close(w2: Walk, in_group: bool) -> Walk {
    Walk {
        ok: w2.ok && !(in_group && w2.local == 127),
        ngd: w2.ngd + (if in_group && w2.local == 127 {
            1int
        } else {
            0int
        }),
        local: if w2.local < 255 {
            w2.local + 1
        } else {
            255
        },
        ..w2
    }
}

/// Whether a catalog-resolved option has the shape its kind demands.
pub open spec fn field_shape_ok(o: EventOption, d: FieldDef) -> bool {
    (if d.strategy.spec_has_metadata() {
        o.field_name is Some
    } else {
        o.field_name is None
    }) && o.exprs@.len() == n_exprs(d.strategy)
}

/// How one option advances the validator's state: a field resolved in the
/// catalog, or an event-level setting.
pub open spec fn walk_one(defs: Seq<FieldDef>, o: EventOption, in_group: bool, w: Walk) -> Walk
    decreases o, 1int,
{
    match cat_lookup(defs, o.name@) {
        Some(d) => {
            if !field_shape_ok(o, d) {
                Walk { ok: false, n_syntax: w.n_syntax + 1, ..w }
            } else {
                let w1 = field_push_state(o, d, in_group, w);
                let w2 = match o.group {
                    Some(g) => group_close(
                        walk_opts(defs, g@, true, Walk { local: 0, ..w1 }),
                        w.local,
                        w.fields.len() as int,
                    ),
                    None => Walk {
                        ok: w1.ok && !d.strategy.spec_wants_group(),
                        n_syntax: w1.n_syntax + (if d.strategy.spec_wants_group() {
                            1int
                        } else {
                            0int
                        }),
                        ..w1
                    },
                };
                if d.strategy.spec_has_metadata() {
                    meta_close(w2, in_group)
                } else {
                    w2
                }
            }
        },
        None => event_opt_step(o, in_group, w),
    }
}

/// The validator's state after every option, starting from `w`.
pub open spec fn walk_opts(defs: Seq<FieldDef>, opts: Seq<EventOption>, in_group: bool, w: Walk) -> Walk
    decreases opts, 0int,
{
    if opts.len() == 0 {
        w
    } else {
        walk_opts(defs, opts.drop_first(), in_group, walk_one(defs, opts[0], in_group, w))
    }
}

/// The validator's state before any option: the size prefix and the
/// assumed event-tag bytes, the event name's metadata, the two reserved
/// descriptor blocks, and the name's content check.
pub open spec fn event_init(name: Seq<char>) -> Walk {
    Walk {
        ok: !contains_zero(str_bytes(name)) && 6 + est_size(str_bytes(name).len() as int, 0)
            <= 65535,
        est: 6 + est_size(str_bytes(name).len() as int, 0),
        dd: 2,
        ngd: 0,
        local: 0,
        n_syntax: 0,
        n_unique: 0,
        n_content: if contains_zero(str_bytes(name)) {
            1int
        } else {
            0int
        },
        n_tagrange: 0,
        fields: Seq::empty(),
        id: None,
        version: None,
        channel: None,
        level: None,
        opcode: None,
        task: None,
        keywords: Seq::empty(),
        tag: None,
        aid: None,
        rid: None,
    }
}


/// In a sorted table, `cat_lookup` of an entry's name is that entry: this
/// carries the pinned table data of `crate::catalog::catalog_ok` into every
/// resolution the walk makes.
pub proof fn lemma_cat_lookup_at(defs: Seq<FieldDef>, n: Seq<char>, i: int)
    requires
        crate::catalog::defs_sorted(defs),
        0 <= i < defs.len(),
        defs[i].name@ == n,
    ensures
        cat_lookup(defs, n) == Some(defs[i]),
    decreases i,
{
    if i == 0 {
    } else {
        assert(name_lt(defs[0].name@, defs[i].name@));
        crate::order::lemma_name_lt_asym(defs[0].name@, defs[i].name@);
        assert(defs[0].name@ != n);
        assert forall|p: int, q: int|
            0 <= p < q < defs.drop_first().len() implies name_lt(
            #[trigger] defs.drop_first()[p].name@,
            #[trigger] defs.drop_first()[q].name@,
        ) by {
            assert(defs.drop_first()[p] == defs[p + 1]);
            assert(defs.drop_first()[q] == defs[q + 1]);
        }
        assert(defs.drop_first()[i - 1] == defs[i]);
        lemma_cat_lookup_at(defs.drop_first(), n, i - 1);
    }
}

/// A name no entry bears resolves to nothing.
pub proof fn lemma_cat_lookup_absent(defs: Seq<FieldDef>, n: Seq<char>)
    requires
        forall|i: int| 0 <= i < defs.len() ==> (#[trigger] defs[i].name@) != n,
    ensures
        cat_lookup(defs, n) is None,
    decreases defs.len(),
{
    if defs.len() > 0 {
        assert forall|j: int| 0 <= j < defs.drop_first().len() implies (#[trigger] defs.drop_first()[j].name@) != n by {
            assert(defs.drop_first()[j] == defs[j + 1]);
        }
        lemma_cat_lookup_absent(defs.drop_first(), n);
    }
}

/// The validator's working state: the aggregator, the sticky counters (0
/// marks a tripped counter), the fields and settings gathered so far, and
/// the five name lists.
pub struct BState {
    pub errors: Errors,
    pub est: u16,
    pub dd: u8,
    pub fields: Vec<FieldModel>,
    pub id: Option<Expr>,
    pub version: Option<Expr>,
    pub channel: Option<EnumRef>,
    pub level: Option<EnumRef>,
    pub opcode: Option<EnumRef>,
    pub task: Option<Expr>,
    pub keywords: Vec<Expr>,
    pub tag: Option<TagVal>,
    pub aid: Option<Expr>,
    pub rid: Option<Expr>,
    pub ch_names: Vec<String>,
    pub lv_names: Vec<String>,
    pub op_names: Vec<String>,
    pub in_names: Vec<String>,
    pub out_names: Vec<String>,
}

/// The name lists hold exactly the known symbolic names.
pub open spec fn lists_ok(st: BState) -> bool {
    &&& crate::expr::views_of(st.ch_names@) == channel_name_views()
    &&& crate::expr::views_of(st.lv_names@) == level_name_views()
    &&& crate::expr::views_of(st.op_names@) == opcode_name_views()
    &&& crate::expr::views_of(st.in_names@) == intype_name_views()
    &&& crate::expr::views_of(st.out_names@) == outtype_name_views()
}

/// How the working state realizes an abstract walk state: the counters are
/// the raw totals while in bounds and 0 once tripped, each limit kind has
/// been reported exactly when its total is out of bounds, every other kind
/// has been reported exactly as often as the walk tallies it, and the
/// gathered model parts agree.
pub open spec fn brel(st: BState, w: Walk) -> bool {
    &&& lists_ok(st)
    &&& (st.errors.items@.len() == 0 <==> w.ok)
    &&& w.est >= 7
    &&& w.dd >= 2
    &&& st.est == (if w.est > 65535 { 0int } else { w.est })
    &&& st.dd == (if w.dd > 128 { 0int } else { w.dd })
    &&& count_kind(st.errors.items@, DiagKind::LimitMetaBytes) == (if w.est > 65535 { 1int } else { 0int })
    &&& count_kind(st.errors.items@, DiagKind::LimitDescBlocks) == (if w.dd > 128 { 1int } else { 0int })
    &&& count_kind(st.errors.items@, DiagKind::LimitFieldCount) == (if w.fields.len() > 128 { 1int } else { 0int })
    &&& count_kind(st.errors.items@, DiagKind::LimitGroupFields) == w.ngd
    &&& count_kind(st.errors.items@, DiagKind::Syntax) == w.n_syntax
    &&& count_kind(st.errors.items@, DiagKind::Uniqueness) == w.n_unique
    &&& count_kind(st.errors.items@, DiagKind::Content) == w.n_content
    &&& count_kind(st.errors.items@, DiagKind::LimitTagRange) == w.n_tagrange
    &&& st.fields@ == w.fields
    &&& st.id == w.id
    &&& st.version == w.version
    &&& st.channel == w.channel
    &&& st.level == w.level
    &&& st.opcode == w.opcode
    &&& st.task == w.task
    &&& st.keywords@ == w.keywords
    &&& st.tag == w.tag
    &&& st.aid == w.aid
    &&& st.rid == w.rid
}

/// Adds `size` bytes to the sticky metadata estimate: a tripped counter
/// stays tripped silently; an addition past the budget trips it and reports
/// the one budget diagnostic.
pub fn add_estimated_metadata(est: &mut u16, errors: &mut Errors, context: &str, size: usize)
    ensures
        ({
            let tripped = *old(est) != 0 && size > 65535 - *old(est);
            &&& *final(est) == (if *old(est) == 0 || tripped { 0int } else { *old(est) + size })
            &&& (!tripped ==> final(errors).items@ == old(errors).items@)
            &&& (tripped ==> final(errors).items@.len() == old(errors).items@.len() + 1
                && final(errors).items@ == old(errors).items@.push(final(errors).items@.last())
                && final(errors).items@.last().kind == DiagKind::LimitMetaBytes)
        }),
{
    if *est == 0 {
        // a diagnostic was already reported for this dimension
    } else if (65535 - *est) as usize >= size {
        *est = *est + size as u16;
    } else {
        *est = 0;
        errors.add(
            DiagKind::LimitMetaBytes,
            context,
            "event metadata is too large (includes event name string, field name strings, and field type codes; limit is 65535 bytes)",
        );
    }
}

/// Adds `count` blocks to the sticky descriptor counter, in the same
/// fashion.
pub fn add_data_desc_used(dd: &mut u8, errors: &mut Errors, context: &str, count: u8)
    requires
        *old(dd) <= 128,
    ensures
        ({
            let tripped = *old(dd) != 0 && count > 128 - *old(dd);
            &&& *final(dd) == (if *old(dd) == 0 || tripped { 0int } else { *old(dd) + count })
            &&& (!tripped ==> final(errors).items@ == old(errors).items@)
            &&& (tripped ==> final(errors).items@.len() == old(errors).items@.len() + 1
                && final(errors).items@ == old(errors).items@.push(final(errors).items@.last())
                && final(errors).items@.last().kind == DiagKind::LimitDescBlocks)
        }),
{
    if *dd == 0 {
        // a diagnostic was already reported for this dimension
    } else if 128 - *dd >= count {
        *dd = *dd + count;
    } else {
        *dd = 0;
        errors.add(
            DiagKind::LimitDescBlocks,
            context,
            "event has too many blocks of data (1 block per fixed-length field, 2 blocks per variable-length field; limit is 128 blocks)",
        );
    }
}

/// The clamped metadata size of one field, as the estimate counts it.
fn field_est_size(f: &FieldModel) -> (r: usize)
    requires
        name_len_of(f.name) <= usize::MAX,
    ensures
        r == est_size(
            name_len_of(f.name),
            if f.tag is Some { 6int } else if f.outtype != 0 { 2int } else { 1int },
        ),
{
    let nb: usize = match &f.name {
        Some(s) => s.as_str().len(),
        None => 0,
    };
    let kinds: usize = if f.tag.is_some() {
        6
    } else if f.outtype != 0 {
        2
    } else {
        1
    };
    if nb >= 65535 {
        65535
    } else {
        nb + 1 + kinds
    }
}

/// Appends one resolved field: charges the metadata estimate and the
/// descriptor budget, reports the field-count limit on the crossing push,
/// and pushes the field.
fn push_field(st: &mut BState, context: &str, f: FieldModel)
    requires
        name_len_of(f.name) <= usize::MAX - 7,
        old(st).dd <= 128,
    ensures
        ({
            let fsize = est_size(
                name_len_of(f.name),
                if f.tag is Some { 6int } else if f.outtype != 0 { 2int } else { 1int },
            );
            let meta_trip = old(st).est != 0 && fsize > 65535 - old(st).est;
            let dd_trip = old(st).dd != 0 && f.strategy.spec_data_count() > 128 - old(st).dd;
            let cnt_trip = old(st).fields@.len() == 128;
            &&& final(st).est == (if old(st).est == 0 || meta_trip { 0int } else { old(st).est + fsize })
            &&& final(st).dd == (if old(st).dd == 0 || dd_trip { 0int } else { old(st).dd + f.strategy.spec_data_count() })
            &&& final(st).fields@ == old(st).fields@.push(f)
            &&& final(st).errors.items@.len() == old(st).errors.items@.len()
                + (if meta_trip { 1int } else { 0int }) + (if dd_trip { 1int } else { 0int })
                + (if cnt_trip { 1int } else { 0int })
            &&& forall|k: DiagKind| #[trigger] count_kind(final(st).errors.items@, k)
                == count_kind(old(st).errors.items@, k)
                + (if meta_trip && k == DiagKind::LimitMetaBytes { 1int } else { 0int })
                + (if dd_trip && k == DiagKind::LimitDescBlocks { 1int } else { 0int })
                + (if cnt_trip && k == DiagKind::LimitFieldCount { 1int } else { 0int })
            &&& final(st).id == old(st).id
            &&& final(st).version == old(st).version
            &&& final(st).channel == old(st).channel
            &&& final(st).level == old(st).level
            &&& final(st).opcode == old(st).opcode
            &&& final(st).task == old(st).task
            &&& final(st).keywords == old(st).keywords
            &&& final(st).tag == old(st).tag
            &&& final(st).aid == old(st).aid
            &&& final(st).rid == old(st).rid
            &&& final(st).ch_names == old(st).ch_names
            &&& final(st).lv_names == old(st).lv_names
            &&& final(st).op_names == old(st).op_names
            &&& final(st).in_names == old(st).in_names
            &&& final(st).out_names == old(st).out_names
        }),
{
    let fsize = field_est_size(&f);
    let ghost items0 = st.errors.items@;
    add_estimated_metadata(&mut st.est, &mut st.errors, context, fsize);
    proof {
        if st.errors.items@.len() > items0.len() {
            lemma_count_kind_push_all(items0, st.errors.items@);
        } else {
            assert(st.errors.items@ == items0);
        }
    }
    let ghost items1 = st.errors.items@;
    add_data_desc_used(&mut st.dd, &mut st.errors, context, f.strategy.data_count());
    proof {
        if st.errors.items@.len() > items1.len() {
            lemma_count_kind_push_all(items1, st.errors.items@);
        }
    }
    let ghost items2 = st.errors.items@;
    if st.fields.len() == 128 {
        st.errors.add(
            DiagKind::LimitFieldCount,
            context,
            "event has too many fields (limit is 128 fields)",
        );
        proof {
            lemma_count_kind_push_all(items2, st.errors.items@);
        }
    }
    st.fields.push(f);
}



/// Whether an option's names fit the machine's address space (so that byte
/// lengths can be computed); a limit of the machine, not of the format.
pub open spec fn opt_fits(o: EventOption) -> bool
    decreases o, 1int,
{
    (match o.field_name {
        Some(s) => str_bytes(s@).len() <= usize::MAX - 7,
        None => true,
    }) && (match o.group {
        Some(g) => opts_fit(g@),
        None => true,
    })
}

/// `opt_fits`, over a whole option list.
pub open spec fn opts_fit(opts: Seq<EventOption>) -> bool
    decreases opts, 0int,
{
    opts.len() == 0 || (opt_fits(opts[0]) && opts_fit(opts.drop_first()))
}

/// The suboption fold's outcome relative to its start: the `ok` flag is
/// the start's conjoined with the fold started accepting, the tallies are
/// the start's plus the fold's own, and the gathered tag and format do not
/// depend on the start's `ok` or tallies.
proof fn lemma_sub_walk_ok(subs: Seq<SubOption>, sw: SubWalk, at: bool, af: bool)
    ensures
        ({
            let t = sub_walk(
                subs,
                SubWalk {
                    ok: true,
                    tag: sw.tag,
                    fmt: sw.fmt,
                    n_syntax: 0,
                    n_unique: 0,
                    n_tagrange: 0,
                },
                at,
                af,
            );
            let full = sub_walk(subs, sw, at, af);
            &&& full.tag == t.tag
            &&& full.fmt == t.fmt
            &&& full.ok == (sw.ok && t.ok)
            &&& full.n_syntax == sw.n_syntax + t.n_syntax
            &&& full.n_unique == sw.n_unique + t.n_unique
            &&& full.n_tagrange == sw.n_tagrange + t.n_tagrange
        }),
    decreases subs.len(),
{
    if subs.len() == 0 {
    } else {
        let s0 = sub_step(sw, subs[0], at, af);
        let s0t = sub_step(
            SubWalk {
                ok: true,
                tag: sw.tag,
                fmt: sw.fmt,
                n_syntax: 0,
                n_unique: 0,
                n_tagrange: 0,
            },
            subs[0],
            at,
            af,
        );
        assert(s0t.tag == s0.tag && s0t.fmt == s0.fmt && s0.ok == (sw.ok && s0t.ok));
        lemma_sub_walk_ok(subs.drop_first(), s0, at, af);
        lemma_sub_walk_ok(subs.drop_first(), s0t, at, af);
    }
}

/// Applies a field's suboptions: `tag` and `format` where the kind accepts
/// them, each at most once, a literal tag held to the 28-bit range;
/// anything else is unrecognized.
fn process_subs(
    errors: &mut Errors,
    out_names: &Vec<String>,
    subs: Vec<SubOption>,
    at: bool,
    af: bool,
    tag0: Option<TagVal>,
    fmt0: Option<EnumRef>,
    ctx: &str,
) -> (r: (Option<TagVal>, Option<EnumRef>))
    requires
        crate::expr::views_of(out_names@) == outtype_name_views(),
    ensures
        ({
            let sw = sub_walk(
                subs@,
                SubWalk { ok: true, tag: tag0, fmt: fmt0, n_syntax: 0, n_unique: 0, n_tagrange: 0 },
                at,
                af,
            );
            &&& r.0 == sw.tag
            &&& r.1 == sw.fmt
            &&& (final(errors).items@.len() == old(errors).items@.len() <==> sw.ok)
            &&& final(errors).items@.len() >= old(errors).items@.len()
            &&& count_kind(final(errors).items@, DiagKind::Syntax) == count_kind(
                old(errors).items@,
                DiagKind::Syntax,
            ) + sw.n_syntax
            &&& count_kind(final(errors).items@, DiagKind::Uniqueness) == count_kind(
                old(errors).items@,
                DiagKind::Uniqueness,
            ) + sw.n_unique
            &&& count_kind(final(errors).items@, DiagKind::LimitTagRange) == count_kind(
                old(errors).items@,
                DiagKind::LimitTagRange,
            ) + sw.n_tagrange
            &&& forall|k: DiagKind|
                (k == DiagKind::Content || k == DiagKind::LimitMetaBytes || k
                    == DiagKind::LimitDescBlocks || k == DiagKind::LimitFieldCount || k
                    == DiagKind::LimitGroupFields) ==> #[trigger] count_kind(
                    final(errors).items@,
                    k,
                ) == count_kind(old(errors).items@, k)
        }),
    decreases subs@,
{
    let mut subs = subs;
    if subs.len() == 0 {
        return (tag0, fmt0);
    }
    let ghost subs0 = subs@;
    let ghost sw_start = SubWalk { ok: true, tag: tag0, fmt: fmt0, n_syntax: 0, n_unique: 0, n_tagrange: 0 };
    let s = subs.remove(0);
    proof {
        assert(subs@ =~= subs0.drop_first());
        assert(s == subs0[0]);
    }
    let mut tag1 = tag0;
    let mut fmt1 = fmt0;
    if str_is(s.name.as_str(), "tag") && at {
        if tag1.is_some() {
            let ghost items = errors.items@;
            errors.add(DiagKind::Uniqueness, ctx, "tag already set");
            proof {
                lemma_count_kind_push_all(items, errors.items@);
            }
        }
        match s.expr {
            Expr::Int(v) => {
                if v <= TAG_MAX as u64 {
                    tag1 = Some(TagVal::Lit(v as u32));
                } else {
                    let ghost items = errors.items@;
                    errors.add(
                        DiagKind::LimitTagRange,
                        ctx,
                        "tag must not be greater than 0x0FFFFFFF",
                    );
                    proof {
                        lemma_count_kind_push_all(items, errors.items@);
                    }
                    tag1 = Some(TagVal::Lit((v % 0x10000000) as u32));
                }
            },
            Expr::Text(t) => {
                tag1 = Some(TagVal::Dyn(t));
            },
        }
    } else if str_is(s.name.as_str(), "format") && af {
        if fmt1.is_some() {
            let ghost items = errors.items@;
            errors.add(DiagKind::Uniqueness, ctx, "format already set");
            proof {
                lemma_count_kind_push_all(items, errors.items@);
            }
        }
        fmt1 = Some(normalize_enum_value(EnumKind::OutType, out_names, s.expr));
    } else {
        let ghost items = errors.items@;
        errors.add(DiagKind::Syntax, ctx, "unrecognized option");
        proof {
            lemma_count_kind_push_all(items, errors.items@);
        }
    }
    proof {
        let step = sub_step(sw_start, subs0[0], at, af);
        assert(step.tag == tag1 && step.fmt == fmt1);
        lemma_sub_walk_ok(subs0.drop_first(), step, at, af);
    }
    let r = process_subs(errors, out_names, subs, at, af, tag1, fmt1, ctx);
    r
}



/// The walk never removes fields: one option leaves at least as many.
proof fn lemma_walk_one_fields_grow(defs: Seq<FieldDef>, o: EventOption, in_group: bool, w: Walk)
    ensures
        walk_one(defs, o, in_group, w).fields.len() >= w.fields.len(),
    decreases o, 2int,
{
    match cat_lookup(defs, o.name@) {
        Some(d) => {
            if field_shape_ok(o, d) {
                let w1 = field_push_state(o, d, in_group, w);
                assert(w1.fields.len() == w.fields.len() + 1);
                match o.group {
                    Some(g) => {
                        lemma_walk_opts_fields_ge(defs, g@, true);
                        let wg = walk_opts(defs, g@, true, Walk { local: 0, ..w1 });
                        assert(wg.fields.len() >= w.fields.len() + 1);
                        assert(walk_one(defs, o, in_group, w).fields.len() == wg.fields.len());
                    },
                    None => {
                        assert(walk_one(defs, o, in_group, w).fields.len() == w1.fields.len());
                    },
                }
            } else {
                assert(walk_one(defs, o, in_group, w).fields == w.fields);
            }
        },
        None => {
            assert(walk_one(defs, o, in_group, w) == event_opt_step(o, in_group, w));
            assert(event_opt_step(o, in_group, w).fields == w.fields);
        },
    }
}

/// A list walk leaves at least the fields it starts with, whatever the
/// start state.
proof fn lemma_walk_opts_fields_ge(defs: Seq<FieldDef>, opts: Seq<EventOption>, in_group: bool)
    ensures
        forall|w2: Walk| #[trigger] walk_opts(defs, opts, in_group, w2).fields.len()
            >= w2.fields.len(),
    decreases opts, 3int,
{
    if opts.len() > 0 {
        assert forall|w2: Walk| #[trigger] walk_opts(defs, opts, in_group, w2).fields.len()
            >= w2.fields.len() by {
            lemma_walk_one_fields_grow(defs, opts[0], in_group, w2);
            lemma_walk_opts_fields_ge(defs, opts.drop_first(), in_group);
            assert(walk_opts(defs, opts.drop_first(), in_group, walk_one(defs, opts[0], in_group, w2)).fields.len() >= walk_one(defs, opts[0], in_group, w2).fields.len());
        }
    }
}

/// Checks a well-shaped field's name content and placement, applies its
/// suboptions, and pushes the resolved field with its budget charges.
#[verifier::rlimit(100)]
fn resolve_and_push_field(
    cat: &Catalog,
    st: &mut BState,
    oname: &str,
    field_name: Option<String>,
    exprs: Vec<Expr>,
    subs: Vec<SubOption>,
    group_present: bool,
    di: usize,
    in_group: bool,
    Ghost(o_spec): Ghost<EventOption>,
    Ghost(w0): Ghost<Walk>,
)
    requires
        cat.wf(),
        opt_fits(o_spec),
        o_spec.name@ == oname@,
        o_spec.field_name == field_name,
        o_spec.exprs == exprs,
        o_spec.subs == subs,
        o_spec.group is Some <==> group_present,
        di < cat.defs@.len(),
        cat_lookup(cat.defs@, o_spec.name@) == Some(cat.defs@[di as int]),
        field_shape_ok(o_spec, cat.defs@[di as int]),
        brel(*old(st), w0),
    ensures
        brel(*final(st), field_push_state(o_spec, cat.defs@[di as int], in_group, w0)),
{
    let mut exprs = exprs;
    let ghost d = cat.defs@[di as int];
    let strat = cat.defs[di].strategy;
    let d_vtype = cat.defs[di].vtype;
    let d_intype = cat.defs[di].intype;
    let d_outtype = cat.defs[di].outtype;
    let d_arity = cat.defs[di].arity;
    // content check on the field name
    let ghost nul_ok = match o_spec.field_name {
        Some(s) => !contains_zero(str_bytes(s@)),
        None => true,
    };
    match &field_name {
        Some(nm) => {
            if has_nul(nm.as_str()) {
                let ghost items = st.errors.items@;
                st.errors.add(DiagKind::Content, nm.as_str(), "field name must not contain '\\0'");
                proof {
                    lemma_count_kind_push_all(items, st.errors.items@);
                }
            }
        },
        None => {},
    }
    // a raw group may not open inside a group
    let ghost raw_ok = !(strat.spec_takes_member_count() && in_group);
    if strat.takes_member_count() && in_group {
        let ghost items = st.errors.items@;
        st.errors.add(DiagKind::Syntax, oname, "RawStruct not allowed within Struct");
        proof {
            lemma_count_kind_push_all(items, st.errors.items@);
        }
    }
    // the leading explicit type code or member count
    let mut intype_expr: Option<EnumRef> = None;
    let mut pre_fmt: Option<EnumRef> = None;
    if strat.takes_type_code() {
        let e0 = exprs.remove(0);
        intype_expr = Some(normalize_enum_value(EnumKind::InType, &st.in_names, e0));
    } else if strat.takes_member_count() {
        let e0 = exprs.remove(0);
        pre_fmt = Some(EnumRef::FromInt(EnumKind::OutType, e0));
    }
    // the bound value
    let value: Option<Expr> = if strat.data_count() != 0 {
        Some(exprs.remove(0))
    } else {
        None
    };
    // suboptions
    let ghost sw = sub_walk(
        o_spec.subs@,
        SubWalk {
            ok: true,
            tag: None,
            fmt: if strat.spec_takes_member_count() {
                Some(EnumRef::FromInt(EnumKind::OutType, o_spec.exprs@[0]))
            } else {
                None
            },
            n_syntax: 0,
            n_unique: 0,
            n_tagrange: 0,
        },
        strat.spec_accepts_tag(),
        strat.spec_accepts_format(),
    );
    let sub_r = process_subs(
        &mut st.errors,
        &st.out_names,
        subs,
        strat.accepts_tag(),
        strat.accepts_format(),
        None,
        pre_fmt,
        oname,
    );
    let tag_opt = sub_r.0;
    let fmt_opt = sub_r.1;
    proof {
        assert(tag_opt == sw.tag && fmt_opt == sw.fmt);
    }
    // the resolved field
    let f = FieldModel {
        name: field_name,
        vtype: d_vtype,
        intype: d_intype,
        intype_expr: intype_expr,
        outtype: if group_present {
            1
        } else {
            d_outtype
        },
        outtype_expr: fmt_opt,
        strategy: strat,
        arity: d_arity,
        tag: tag_opt,
        value: value,
    };
    let ghost f_spec = f;
    proof {
        assert(f_spec == field_model_of(o_spec, d));
        assert(name_len_of(f_spec.name) <= usize::MAX - 7);
    }
    push_field(st, oname, f);
    proof {
        assert(brel(*st, field_push_state(o_spec, d, in_group, w0)));
    }
}

/// Processes one option that resolved to a catalog field kind.
#[verifier::rlimit(100)]
fn process_field_option(
    cat: &Catalog,
    st: &mut BState,
    oname: String,
    field_name: Option<String>,
    exprs: Vec<Expr>,
    subs: Vec<SubOption>,
    group: Option<Vec<EventOption>>,
    di: usize,
    in_group: bool,
    local0: u8,
    Ghost(o_spec): Ghost<EventOption>,
    Ghost(w0): Ghost<Walk>,
) -> (local: u8)
    requires
        cat.wf(),
        opt_fits(o_spec),
        o_spec.name@ == oname@,
        o_spec.field_name == field_name,
        o_spec.exprs == exprs,
        o_spec.subs == subs,
        o_spec.group == group,
        di < cat.defs@.len(),
        cat_lookup(cat.defs@, o_spec.name@) == Some(cat.defs@[di as int]),
        brel(*old(st), w0),
        w0.local == local0 as int,
    ensures
        ({
            let w = walk_one(cat.defs@, o_spec, in_group, w0);
            brel(*final(st), w) && w.local == local as int
        }),
    decreases o_spec, 2int,
{
    let ghost w1 = walk_one(cat.defs@, o_spec, in_group, w0);
    let mut local1: u8 = local0;
    let ghost d = cat.defs@[di as int];
    let strat = cat.defs[di].strategy;
    let has_meta = strat.has_metadata();
    let n_pre: usize = if strat.takes_type_code() || strat.takes_member_count() {
        1
    } else {
        0
    };
    let n_need: usize = if strat.data_count() != 0 {
        n_pre + 1
    } else {
        n_pre
    };
    let name_shape = if has_meta {
        field_name.is_some()
    } else {
        field_name.is_none()
    };
    if !name_shape || exprs.len() != n_need {
        let ghost items = st.errors.items@;
        st.errors.add(
            DiagKind::Syntax,
            oname.as_str(),
            "expected the field's name string and argument list",
        );
        proof {
            assert(!field_shape_ok(o_spec, d));
            lemma_count_kind_push_all(items, st.errors.items@);
            assert(brel(*st, w1));
        }
        return local1;
    }
    proof {
        assert(field_shape_ok(o_spec, d));
    }
    let ghost w_push = field_push_state(o_spec, d, in_group, w0);
    resolve_and_push_field(
        cat,
        st,
        oname.as_str(),
        field_name,
        exprs,
        subs,
        group.is_some(),
        di,
        in_group,
        Ghost(o_spec),
        Ghost(w0),
    );
    match group {
        Some(gvec) => {
            proof {
                assert(brel(*st, Walk { local: 0int, ..w_push }));
            }
            let parent_idx = st.fields.len() - 1;
            let ghost wg = walk_opts(cat.defs@, gvec@, true, Walk { local: 0int, ..w_push });
            proof {
                assert(parent_idx as int == w0.fields.len());
            }
            let added = parse_event_options(
                cat,
                st,
                gvec,
                true,
                0,
                Ghost(Walk { local: 0int, ..w_push }),
            );
            proof {
                lemma_walk_opts_fields_ge(cat.defs@, gvec@, true);
                assert(wg.fields.len() >= w_push.fields.len());
                assert(st.fields@.len() >= parent_idx + 1);
            }
            let mut pf = st.fields.remove(parent_idx);
            pf.outtype = added & 0x7F;
            st.fields.insert(parent_idx, pf);
            proof {
                assert(added & 0x7F == added % 128) by (bit_vector);
                assert(st.fields@ =~= group_close(wg, w0.local, parent_idx as int).fields);
                assert(brel(*st, group_close(wg, w0.local, parent_idx as int)));
            }
        },
        None => {
            if strat.wants_group() {
                let ghost items = st.errors.items@;
                st.errors.add(
                    DiagKind::Syntax,
                    oname.as_str(),
                    "expected '{' for the group's member fields",
                );
                proof {
                    lemma_count_kind_push_all(items, st.errors.items@);
                }
            }
            proof {
                assert(brel(
                    *st,
                    Walk {
                        ok: w_push.ok && !strat.spec_wants_group(),
                        n_syntax: w_push.n_syntax + (if strat.spec_wants_group() {
                            1int
                        } else {
                            0int
                        }),
                        ..w_push
                    },
                ));
            }
        },
    }
    // this level's metadata-field count and the group cap
    let ghost w2 = match o_spec.group {
        Some(g) => group_close(
            walk_opts(cat.defs@, g@, true, Walk { local: 0, ..w_push }),
            w0.local,
            w0.fields.len() as int,
        ),
        None => Walk {
            ok: w_push.ok && !strat.spec_wants_group(),
            n_syntax: w_push.n_syntax + (if strat.spec_wants_group() {
                1int
            } else {
                0int
            }),
            ..w_push
        },
    };
    if has_meta {
        if in_group && local1 == 127 {
            let ghost items = st.errors.items@;
            st.errors.add(
                DiagKind::LimitGroupFields,
                oname.as_str(),
                "too many fields in struct (limit 127)",
            );
            proof {
                lemma_count_kind_push_all(items, st.errors.items@);
            }
        }
        if local1 < 255 {
            local1 = local1 + 1;
        }
        proof {
            assert(w2.local == local0 as int);
            assert(brel(*st, meta_close(w2, in_group)));
            assert(w1 == meta_close(w2, in_group));
        }
    } else {
        proof {
            assert(w1 == w2);
        }
    }
    proof {
        assert(brel(*st, w1));
        assert(w1.local == local1 as int);
    }
    local1
}

/// Processes one option that did not resolve in the catalog: an
/// event-level setting, recognized only at the top level.
#[verifier::rlimit(100)]
fn process_event_option(
    st: &mut BState,
    oname: String,
    field_name: Option<String>,
    exprs: Vec<Expr>,
    subs: Vec<SubOption>,
    group: Option<Vec<EventOption>>,
    in_group: bool,
    Ghost(o_spec): Ghost<EventOption>,
    Ghost(w0): Ghost<Walk>,
)
    requires
        o_spec.name@ == oname@,
        o_spec.field_name == field_name,
        o_spec.exprs == exprs,
        o_spec.subs == subs,
        o_spec.group == group,
        brel(*old(st), w0),
    ensures
        brel(*final(st), event_opt_step(o_spec, in_group, w0)),
        event_opt_step(o_spec, in_group, w0).local == w0.local,
{
    let mut exprs = exprs;
    let shape1 = field_name.is_none() && subs.len() == 0 && group.is_none() && exprs.len() == 1;
    let shape2 = field_name.is_none() && subs.len() == 0 && group.is_none() && exprs.len() == 2;
    if in_group {
        let ghost items = st.errors.items@;
        st.errors.add(DiagKind::Syntax, oname.as_str(), "unrecognized option");
        proof {
            lemma_count_kind_push_all(items, st.errors.items@);
        }
    } else if str_is(oname.as_str(), "debug") {
        // the no-op marker: ignored entirely
    } else if str_is(oname.as_str(), "id_version") {
        if !shape2 {
            let ghost items = st.errors.items@;
            st.errors.add(DiagKind::Syntax, oname.as_str(), "expected Id and Version values");
            proof {
                lemma_count_kind_push_all(items, st.errors.items@);
            }
        } else {
            if st.id.is_some() {
                let ghost items = st.errors.items@;
                st.errors.add(DiagKind::Uniqueness, oname.as_str(), "id_version already set");
                proof {
                    lemma_count_kind_push_all(items, st.errors.items@);
                }
            }
            let e0 = exprs.remove(0);
            let e1 = exprs.remove(0);
            st.id = Some(e0);
            st.version = Some(e1);
        }
    } else if str_is(oname.as_str(), "channel") {
        if !shape1 {
            let ghost items = st.errors.items@;
            st.errors.add(DiagKind::Syntax, oname.as_str(), "expected Channel value");
            proof {
                lemma_count_kind_push_all(items, st.errors.items@);
            }
        } else {
            if st.channel.is_some() {
                let ghost items = st.errors.items@;
                st.errors.add(DiagKind::Uniqueness, oname.as_str(), "channel already set");
                proof {
                    lemma_count_kind_push_all(items, st.errors.items@);
                }
            }
            let e0 = exprs.remove(0);
            st.channel = Some(normalize_enum_value(EnumKind::Channel, &st.ch_names, e0));
        }
    } else if str_is(oname.as_str(), "level") {
        if !shape1 {
            let ghost items = st.errors.items@;
            st.errors.add(DiagKind::Syntax, oname.as_str(), "expected Level value");
            proof {
                lemma_count_kind_push_all(items, st.errors.items@);
            }
        } else {
            if st.level.is_some() {
                let ghost items = st.errors.items@;
                st.errors.add(DiagKind::Uniqueness, oname.as_str(), "level already set");
                proof {
                    lemma_count_kind_push_all(items, st.errors.items@);
                }
            }
            let e0 = exprs.remove(0);
            st.level = Some(normalize_enum_value(EnumKind::Level, &st.lv_names, e0));
        }
    } else {
        process_event_option_more(
            st,
            oname,
            field_name,
            exprs,
            subs,
            group,
            Ghost(o_spec),
            Ghost(w0),
        );
    }
}

/// The tail of the event-level options: those after the level setting in
/// the recognition order.
#[verifier::rlimit(100)]
fn process_event_option_more(
    st: &mut BState,
    oname: String,
    field_name: Option<String>,
    exprs: Vec<Expr>,
    subs: Vec<SubOption>,
    group: Option<Vec<EventOption>>,
    Ghost(o_spec): Ghost<EventOption>,
    Ghost(w0): Ghost<Walk>,
)
    requires
        o_spec.name@ == oname@,
        o_spec.field_name == field_name,
        o_spec.exprs == exprs,
        o_spec.subs == subs,
        o_spec.group == group,
        brel(*old(st), w0),
        o_spec.name@ != "debug"@,
        o_spec.name@ != "id_version"@,
        o_spec.name@ != "channel"@,
        o_spec.name@ != "level"@,
    ensures
        brel(*final(st), event_opt_step(o_spec, false, w0)),
{
    let mut exprs = exprs;
    let shape1 = field_name.is_none() && subs.len() == 0 && group.is_none() && exprs.len() == 1;
    if str_is(oname.as_str(), "opcode") {
        if !shape1 {
            let ghost items = st.errors.items@;
            st.errors.add(DiagKind::Syntax, oname.as_str(), "expected Opcode value");
            proof {
                lemma_count_kind_push_all(items, st.errors.items@);
            }
        } else {
            if st.opcode.is_some() {
                let ghost items = st.errors.items@;
                st.errors.add(DiagKind::Uniqueness, oname.as_str(), "opcode already set");
                proof {
                    lemma_count_kind_push_all(items, st.errors.items@);
                }
            }
            let e0 = exprs.remove(0);
            st.opcode = Some(normalize_enum_value(EnumKind::Opcode, &st.op_names, e0));
        }
    } else if str_is(oname.as_str(), "task") {
        if !shape1 {
            let ghost items = st.errors.items@;
            st.errors.add(DiagKind::Syntax, oname.as_str(), "expected Task value");
            proof {
                lemma_count_kind_push_all(items, st.errors.items@);
            }
        } else {
            if st.task.is_some() {
                let ghost items = st.errors.items@;
                st.errors.add(DiagKind::Uniqueness, oname.as_str(), "task already set");
                proof {
                    lemma_count_kind_push_all(items, st.errors.items@);
                }
            }
            let e0 = exprs.remove(0);
            st.task = Some(e0);
        }
    } else if str_is(oname.as_str(), "keyword") {
        if !shape1 {
            let ghost items = st.errors.items@;
            st.errors.add(DiagKind::Syntax, oname.as_str(), "expected Keyword value");
            proof {
                lemma_count_kind_push_all(items, st.errors.items@);
            }
        } else {
            let e0 = exprs.remove(0);
            st.keywords.push(e0);
        }
    } else if str_is(oname.as_str(), "tag") {
        if !shape1 {
            let ghost items = st.errors.items@;
            st.errors.add(DiagKind::Syntax, oname.as_str(), "expected Tag value");
            proof {
                lemma_count_kind_push_all(items, st.errors.items@);
            }
        } else {
            if st.tag.is_some() {
                let ghost items = st.errors.items@;
                st.errors.add(DiagKind::Uniqueness, oname.as_str(), "tag already set");
                proof {
                    lemma_count_kind_push_all(items, st.errors.items@);
                }
            }
            let e0 = exprs.remove(0);
            match e0 {
                Expr::Int(v) => {
                    if v <= TAG_MAX as u64 {
                        st.tag = Some(TagVal::Lit(v as u32));
                    } else {
                        let ghost items = st.errors.items@;
                        st.errors.add(
                            DiagKind::LimitTagRange,
                            oname.as_str(),
                            "tag must not be greater than 0x0FFFFFFF",
                        );
                        proof {
                            lemma_count_kind_push_all(items, st.errors.items@);
                        }
                        st.tag = Some(TagVal::Lit((v % 0x10000000) as u32));
                    }
                },
                Expr::Text(t) => {
                    st.tag = Some(TagVal::Dyn(t));
                },
            }
        }
    } else if str_is(oname.as_str(), "activity_id") {
        if !shape1 {
            let ghost items = st.errors.items@;
            st.errors.add(DiagKind::Syntax, oname.as_str(), "expected Activity Id variable");
            proof {
                lemma_count_kind_push_all(items, st.errors.items@);
            }
        } else {
            if st.aid.is_some() {
                let ghost items = st.errors.items@;
                st.errors.add(DiagKind::Uniqueness, oname.as_str(), "activity_id already set");
                proof {
                    lemma_count_kind_push_all(items, st.errors.items@);
                }
            }
            let e0 = exprs.remove(0);
            st.aid = Some(e0);
        }
    } else if str_is(oname.as_str(), "related_id") {
        if !shape1 {
            let ghost items = st.errors.items@;
            st.errors.add(DiagKind::Syntax, oname.as_str(), "expected Related Id variable");
            proof {
                lemma_count_kind_push_all(items, st.errors.items@);
            }
        } else {
            if st.rid.is_some() {
                let ghost items = st.errors.items@;
                st.errors.add(DiagKind::Uniqueness, oname.as_str(), "related_id already set");
                proof {
                    lemma_count_kind_push_all(items, st.errors.items@);
                }
            }
            let e0 = exprs.remove(0);
            st.rid = Some(e0);
        }
    } else {
        let ghost items = st.errors.items@;
        st.errors.add(DiagKind::Syntax, oname.as_str(), "unrecognized option");
        proof {
            lemma_count_kind_push_all(items, st.errors.items@);
        }
    }
}

/// Processes one option list (the top level or one group's members): each
/// option is resolved against the catalog first and otherwise against the
/// event-level names; every violation is reported and the walk continues.
/// Returns the number of metadata-bearing fields seen at this level,
/// saturating at 255.
#[verifier::rlimit(60)]
fn parse_event_options(
    cat: &Catalog,
    st: &mut BState,
    opts: Vec<EventOption>,
    in_group: bool,
    local0: u8,
    Ghost(w0): Ghost<Walk>,
) -> (local: u8)
    requires
        cat.wf(),
        opts_fit(opts@),
        brel(*old(st), w0),
        w0.local == local0 as int,
    ensures
        ({
            let w = walk_opts(cat.defs@, opts@, in_group, w0);
            brel(*final(st), w) && w.local == local as int
        }),
    decreases opts@, 3int,
{
    let mut opts = opts;
    if opts.len() == 0 {
        return local0;
    }
    let ghost opts0 = opts@;
    let o = opts.remove(0);
    proof {
        assert(opts@ =~= opts0.drop_first());
        assert(o == opts0[0]);
        assert(opts_fit(opts@));
    }
    let ghost o_spec = o;
    let ghost w1 = walk_one(cat.defs@, o_spec, in_group, w0);
    let mut local1: u8 = local0;

    let idx = cat.find(o.name.as_str());
    let EventOption { name: oname, field_name, exprs, subs, group } = o;
    match idx {
        Some(di) => {
            proof {
                lemma_cat_lookup_at(cat.defs@, o_spec.name@, di as int);
            }
            local1 = process_field_option(
                cat,
                st,
                oname,
                field_name,
                exprs,
                subs,
                group,
                di,
                in_group,
                local0,
                Ghost(o_spec),
                Ghost(w0),
            );
        },
        None => {
            proof {
                lemma_cat_lookup_absent(cat.defs@, o_spec.name@);
            }
            process_event_option(
                st,
                oname,
                field_name,
                exprs,
                subs,
                group,
                in_group,
                Ghost(o_spec),
                Ghost(w0),
            );
            proof {
                assert(w1 == event_opt_step(o_spec, in_group, w0));
                assert(w1.local == local1 as int);
            }
        },
    }
    parse_event_options(cat, st, opts, in_group, local1, Ghost(w1))
}

impl EventInfo {
    /// Validates an event description against the catalog: the name's
    /// content, every option, the four limits, then applies the fixed
    /// defaults. A model is returned exactly when the walk reports no
    /// violation; otherwise every collected diagnostic is returned: one of
    /// the matching kind per syntax, uniqueness, content or tag-range
    /// violation, and each exceeded limit reported exactly once however far
    /// past the limit the description went.
    pub fn parse(catalog: &Catalog, desc: EventDesc) -> (r: Result<EventInfo, Vec<Diag>>)
        requires
            catalog.wf(),
            str_bytes(desc.name@).len() <= usize::MAX - 7,
            opts_fit(desc.options@),
        ensures
            ({
                let w = walk_opts(catalog.defs@, desc.options@, false, event_init(desc.name@));
                match r {
                    Ok(m) => {
                        &&& w.ok
                        &&& m.provider_symbol == desc.provider_symbol
                        &&& m.name == desc.name
                        &&& m.fields@ == w.fields
                        &&& w.est <= 65535
                        &&& w.dd <= 128
                        &&& w.fields.len() <= 128
                        &&& m.id == (match w.id {
                            Some(e) => e,
                            None => Expr::Int(0),
                        })
                        &&& m.version == (match w.version {
                            Some(e) => e,
                            None => Expr::Int(0),
                        })
                        &&& m.task == (match w.task {
                            Some(e) => e,
                            None => Expr::Int(0),
                        })
                        &&& (match w.channel {
                            Some(c) => m.channel == c,
                            None => m.channel matches EnumRef::Qualified(EnumKind::Channel, s)
                                && s@ == "TraceLogging"@,
                        })
                        &&& (match w.level {
                            Some(c) => m.level == c,
                            None => m.level matches EnumRef::Qualified(EnumKind::Level, s) && s@
                                == "Verbose"@,
                        })
                        &&& (match w.opcode {
                            Some(c) => m.opcode == c,
                            None => m.opcode matches EnumRef::Qualified(EnumKind::Opcode, s) && s@
                                == "Info"@,
                        })
                        &&& m.keywords@ == (if w.keywords.len() == 0 {
                            seq![Expr::Int(1)]
                        } else {
                            w.keywords
                        })
                        &&& m.tag == (match w.tag {
                            Some(t) => t,
                            None => TagVal::Lit(0),
                        })
                        &&& m.activity_id == w.aid
                        &&& m.related_id == w.rid
                    },
                    Err(ds) => {
                        &&& !w.ok
                        &&& ds@.len() > 0
                        &&& count_kind(ds@, DiagKind::LimitFieldCount) == (if w.fields.len() > 128 {
                            1int
                        } else {
                            0int
                        })
                        &&& count_kind(ds@, DiagKind::LimitMetaBytes) == (if w.est > 65535 {
                            1int
                        } else {
                            0int
                        })
                        &&& count_kind(ds@, DiagKind::LimitDescBlocks) == (if w.dd > 128 {
                            1int
                        } else {
                            0int
                        })
                        &&& count_kind(ds@, DiagKind::LimitGroupFields) == w.ngd
                        &&& count_kind(ds@, DiagKind::Syntax) == w.n_syntax
                        &&& count_kind(ds@, DiagKind::Uniqueness) == w.n_unique
                        &&& count_kind(ds@, DiagKind::Content) == w.n_content
                        &&& count_kind(ds@, DiagKind::LimitTagRange) == w.n_tagrange
                    },
                }
            }),
    {
        let mut st = BState {
            errors: Errors::new(),
            est: 6,
            dd: 2,
            fields: Vec::new(),
            id: None,
            version: None,
            channel: None,
            level: None,
            opcode: None,
            task: None,
            keywords: Vec::new(),
            tag: None,
            aid: None,
            rid: None,
            ch_names: channel_names(),
            lv_names: level_names(),
            op_names: opcode_names(),
            in_names: intype_names(),
            out_names: outtype_names(),
        };
        // the event name's metadata and content
        let nb = desc.name.as_str().len();
        let sz: usize = if nb >= 65535 {
            65535
        } else {
            nb + 1
        };
        let ghost items0 = st.errors.items@;
        add_estimated_metadata(&mut st.est, &mut st.errors, desc.name.as_str(), sz);
        proof {
            if st.errors.items@.len() > items0.len() {
                lemma_count_kind_push_all(items0, st.errors.items@);
            }
        }
        if has_nul(desc.name.as_str()) {
            let ghost items = st.errors.items@;
            st.errors.add(DiagKind::Content, desc.name.as_str(), "event name must not contain '\\0'");
            proof {
                lemma_count_kind_push_all(items, st.errors.items@);
            }
        }
        proof {
            assert(brel(st, event_init(desc.name@)));
        }
        let ghost w = walk_opts(catalog.defs@, desc.options@, false, event_init(desc.name@));
        let _level_count = parse_event_options(
            catalog,
            &mut st,
            desc.options,
            false,
            0,
            Ghost(event_init(desc.name@)),
        );
        // defaults for the unset settings
        let BState {
            errors,
            est: _,
            dd: _,
            fields,
            id,
            version,
            channel,
            level,
            opcode,
            task,
            keywords,
            tag,
            aid,
            rid,
            ch_names: _,
            lv_names: _,
            op_names: _,
            in_names: _,
            out_names: _,
        } = st;
        let id = match id {
            Some(e) => e,
            None => Expr::Int(0),
        };
        let version = match version {
            Some(e) => e,
            None => Expr::Int(0),
        };
        let channel = match channel {
            Some(c) => c,
            None => EnumRef::Qualified(EnumKind::Channel, "TraceLogging".to_owned()),
        };
        let level = match level {
            Some(c) => c,
            None => EnumRef::Qualified(EnumKind::Level, "Verbose".to_owned()),
        };
        let opcode = match opcode {
            Some(c) => c,
            None => EnumRef::Qualified(EnumKind::Opcode, "Info".to_owned()),
        };
        let task = match task {
            Some(e) => e,
            None => Expr::Int(0),
        };
        let mut keywords = keywords;
        if keywords.len() == 0 {
            keywords.push(Expr::Int(1));
        }
        let tag = match tag {
            Some(t) => t,
            None => TagVal::Lit(0),
        };
        match errors.check() {
            Ok(()) => Ok(
                EventInfo {
                    provider_symbol: desc.provider_symbol,
                    name: desc.name,
                    id,
                    version,
                    channel,
                    level,
                    opcode,
                    task,
                    keywords,
                    tag,
                    activity_id: aid,
                    related_id: rid,
                    fields,
                },
            ),
            Err(ds) => Err(ds),
        }
    }
}


/// A tag slot within the 28-bit range, if it holds a checked value.
pub open spec fn tag_slot_wf(t: Option<TagVal>) -> bool {
    t matches Some(TagVal::Lit(v)) ==> v <= TAG_MAX
}

/// Every field the walk has built is fit for layout, and so is the tag.
pub open spec fn walk_wf(w: Walk) -> bool {
    &&& forall|i: int|
        0 <= i < w.fields.len() ==> crate::layout::field_model_wf(#[trigger] w.fields[i])
    &&& tag_slot_wf(w.tag)
}

proof fn lemma_sub_walk_tag_wf(subs: Seq<SubOption>, sw: SubWalk, at: bool, af: bool)
    requires
        tag_slot_wf(sw.tag),
    ensures
        tag_slot_wf(sub_walk(subs, sw, at, af).tag),
    decreases subs.len(),
{
    if subs.len() > 0 {
        lemma_sub_walk_tag_wf(subs.drop_first(), sub_step(sw, subs[0], at, af), at, af);
    }
}

proof fn lemma_walk_one_wf(defs: Seq<FieldDef>, o: EventOption, in_group: bool, w: Walk)
    requires
        walk_wf(w),
    ensures
        walk_wf(walk_one(defs, o, in_group, w)),
    decreases o, 2int,
{
    match cat_lookup(defs, o.name@) {
        Some(d) => {
            if field_shape_ok(o, d) {
                let w1 = field_push_state(o, d, in_group, w);
                lemma_sub_walk_tag_wf(
                    o.subs@,
                    SubWalk {
                        ok: true,
                        tag: None,
                        fmt: if d.strategy.spec_takes_member_count() {
                            Some(EnumRef::FromInt(EnumKind::OutType, o.exprs@[0]))
                        } else {
                            None
                        },
                        n_syntax: 0,
                        n_unique: 0,
                        n_tagrange: 0,
                    },
                    d.strategy.spec_accepts_tag(),
                    d.strategy.spec_accepts_format(),
                );
                assert(crate::layout::field_model_wf(field_model_of(o, d)));
                assert(walk_wf(w1));
                match o.group {
                    Some(g) => {
                        assert(walk_wf(Walk { local: 0, ..w1 }));
                        lemma_walk_opts_wf(defs, g@, true, Walk { local: 0, ..w1 });
                        lemma_walk_opts_fields_ge(defs, g@, true);
                        let wg = walk_opts(defs, g@, true, Walk { local: 0, ..w1 });
                        assert(wg.fields.len() >= w1.fields.len());
                        let patched = group_close(wg, w.local, w.fields.len() as int);
                        assert forall|i: int|
                            0 <= i < patched.fields.len() implies crate::layout::field_model_wf(
                            #[trigger] patched.fields[i],
                        ) by {
                            assert(walk_wf(wg));
                            assert(crate::layout::field_model_wf(wg.fields[i]));
                            if i == w.fields.len() as int {
                                assert(patched.fields[i] == FieldModel {
                                    outtype: (wg.local % 128) as u8,
                                    ..wg.fields[i]
                                });
                            } else {
                                assert(patched.fields[i] == wg.fields[i]);
                            }
                        }
                    },
                    None => {},
                }
            }
        },
        None => {},
    }
}

proof fn lemma_walk_opts_wf(defs: Seq<FieldDef>, opts: Seq<EventOption>, in_group: bool, w: Walk)
    requires
        walk_wf(w),
    ensures
        walk_wf(walk_opts(defs, opts, in_group, w)),
    decreases opts, 3int,
{
    if opts.len() > 0 {
        lemma_walk_one_wf(defs, opts[0], in_group, w);
        lemma_walk_opts_wf(defs, opts.drop_first(), in_group, walk_one(defs, opts[0], in_group, w));
    }
}

/// Whatever the validator's walk builds is fit for the layout compiler:
/// every field binds a value exactly when its kind consumes descriptor
/// blocks, and every checked tag is within the 28-bit range.
pub proof fn lemma_walk_model_fits(defs: Seq<FieldDef>, opts: Seq<EventOption>, name: Seq<char>)
    ensures
        walk_wf(walk_opts(defs, opts, false, event_init(name))),
{
    lemma_walk_opts_wf(defs, opts, false, event_init(name));
}

} // verus!
