use tlg_compile::catalog::Catalog;
use tlg_compile::errors::{Diag, DiagKind};
use tlg_compile::event::{EventDesc, EventInfo, EventOption, SubOption, TagVal};
use tlg_compile::expr::{EnumKind, EnumRef, Expr};
use tlg_compile::layout::{BindKind, Chunk, Desc, EventGenerator, KeywordPlan, LengthRule};

fn txt(s: &str) -> Expr {
    Expr::Text(s.to_string())
}

fn plain(name: &str) -> EventOption {
    EventOption {
        name: name.to_string(),
        field_name: None,
        exprs: vec![],
        subs: vec![],
        group: None,
    }
}

fn evopt(name: &str, exprs: Vec<Expr>) -> EventOption {
    EventOption {
        name: name.to_string(),
        field_name: None,
        exprs,
        subs: vec![],
        group: None,
    }
}

fn field(kind: &str, fname: &str, value: Expr) -> EventOption {
    EventOption {
        name: kind.to_string(),
        field_name: Some(fname.to_string()),
        exprs: vec![value],
        subs: vec![],
        group: None,
    }
}

fn sub(name: &str, expr: Expr) -> SubOption {
    SubOption {
        name: name.to_string(),
        expr,
    }
}

fn ev(name: &str, options: Vec<EventOption>) -> EventDesc {
    EventDesc {
        provider_symbol: "PROV1".to_string(),
        name: name.to_string(),
        options,
    }
}

fn parse(desc: EventDesc) -> Result<EventInfo, Vec<Diag>> {
    let catalog = Catalog::new();
    EventInfo::parse(&catalog, desc)
}

fn count_kind(ds: &[Diag], k: DiagKind) -> usize {
    ds.iter().filter(|d| d.kind == k).count()
}

#[test]
fn event_no_args() {
    let m = parse(ev("MyEventName", vec![])).unwrap();
    assert_eq!(m.name, "MyEventName");
    assert_eq!(m.id, Expr::Int(0));
    assert_eq!(m.version, Expr::Int(0));
    assert_eq!(m.task, Expr::Int(0));
    assert_eq!(m.tag, TagVal::Lit(0));
    assert_eq!(m.keywords, vec![Expr::Int(1)]);
    assert!(matches!(&m.channel, EnumRef::Qualified(EnumKind::Channel, s) if s == "TraceLogging"));
    assert!(matches!(&m.level, EnumRef::Qualified(EnumKind::Level, s) if s == "Verbose"));
    assert!(matches!(&m.opcode, EnumRef::Qualified(EnumKind::Opcode, s) if s == "Info"));
    assert!(m.fields.is_empty());
    let c = EventGenerator::generate(m);
    assert_eq!(c.descriptors, vec![Desc::ProviderMeta, Desc::EventMeta]);
    assert_eq!(c.keyword_plan, KeywordPlan::Single(Expr::Int(1)));
}

#[test]
fn event_no_args_with_comma() {
    let m = parse(ev("MyEventName", vec![])).unwrap();
    assert_eq!(m.name, "MyEventName");
}

#[test]
fn event_no_args_with_activity_id() {
    let m = parse(ev(
        "MyEventName",
        vec![evopt("activity_id", vec![txt("&guid1")])],
    ))
    .unwrap();
    assert_eq!(m.activity_id, Some(txt("&guid1")));
    assert_eq!(m.related_id, None);
}

#[test]
fn event_with_level() {
    let m = parse(ev("Foo", vec![evopt("level", vec![txt("Informational")])])).unwrap();
    assert_eq!(
        m.level,
        EnumRef::Qualified(EnumKind::Level, "Informational".to_string())
    );
}

#[test]
fn event_with_opcode() {
    let m = parse(ev("Foo", vec![evopt("opcode", vec![Expr::Int(0)])])).unwrap();
    assert_eq!(m.opcode, EnumRef::FromInt(EnumKind::Opcode, Expr::Int(0)));
}

#[test]
fn event_with_ipv4() {
    let m = parse(ev("Foo", vec![field("ipv4", "ipv4", txt("&[127, 0, 0, 1]"))])).unwrap();
    assert_eq!(m.fields.len(), 1);
    let c = EventGenerator::generate(m);
    assert_eq!(c.bindings.len(), 1);
    assert!(matches!(
        &c.bindings[0].kind,
        BindKind::Scalar { arity: 4, .. }
    ));
    assert_eq!(
        c.descriptors,
        vec![Desc::ProviderMeta, Desc::EventMeta, Desc::Value { arg: 0 }]
    );
}

#[test]
fn event_with_pointer() {
    let m = parse(ev("Foo", vec![field("pointer", "pointer", txt("&1234"))])).unwrap();
    let c = EventGenerator::generate(m);
    // the pointer-width in-type is resolved by the emitting platform: the
    // block holds a deferred chunk and cannot be fully literal
    assert!(c.metadata_bytes().is_none());
    assert!(c
        .chunks
        .iter()
        .any(|ch| matches!(ch, Chunk::SymCode(_, _))));
}

#[test]
fn event_with_time32() {
    let m = parse(ev("Foo", vec![field("time32", "time32", txt("&100"))])).unwrap();
    let c = EventGenerator::generate(m);
    assert_eq!(c.bindings.len(), 1);
    assert!(matches!(&c.bindings[0].kind, BindKind::Time32 { .. }));
    assert_eq!(
        c.descriptors,
        vec![Desc::ProviderMeta, Desc::EventMeta, Desc::Value { arg: 0 }]
    );
}

#[test]
fn event_u32_metadata_bytes() {
    // event("E", u32("x", &1)) with default options
    let m = parse(ev("E", vec![field("u32", "x", txt("&1"))])).unwrap();
    let c = EventGenerator::generate(m);
    // [size][tag][E\0][x\0][intype=U32]; one descriptor pair for the
    // provider and event blocks, then the value of x
    let bytes = c.metadata_bytes().unwrap();
    assert_eq!(
        bytes,
        vec![8, 0, 0x00, b'E', 0, b'x', 0, 8]
    );
    assert_eq!(
        c.descriptors,
        vec![Desc::ProviderMeta, Desc::EventMeta, Desc::Value { arg: 0 }]
    );
    assert_eq!(c.bindings.len(), 1);
    assert!(c.lengths.is_empty());
}

#[test]
fn field_tag_metadata_bytes() {
    let mut f = field("u32", "x", txt("&1"));
    f.subs.push(sub("tag", Expr::Int(5)));
    let m = parse(ev("E", vec![f])).unwrap();
    let c = EventGenerator::generate(m);
    // tagged field: extension flag on the in-type, tag flag on the
    // out-type, then the tag's four-byte encoding
    assert_eq!(
        c.metadata_bytes().unwrap(),
        vec![
            13, 0, 0x00, b'E', 0, b'x', 0, 8 | 0x80, 0x80, 0x80, 0x80, 0x80, 0x05
        ]
    );
}

#[test]
fn duplicate_tag_diagnostic() {
    // two tag(5) suboptions on one field: the second is a duplicate
    let mut f = field("u32", "x", txt("&1"));
    f.subs.push(sub("tag", Expr::Int(5)));
    f.subs.push(sub("tag", Expr::Int(5)));
    let err = parse(ev("E", vec![f])).unwrap_err();
    assert_eq!(err.len(), 1);
    assert_eq!(err[0].kind, DiagKind::Uniqueness);
    assert_eq!(err[0].message, "tag already set");
    // the metadata estimate counted the tag once: the same description
    // with one tag is accepted, still far under the byte budget
    let mut f1 = field("u32", "x", txt("&1"));
    f1.subs.push(sub("tag", Expr::Int(5)));
    assert!(parse(ev("E", vec![f1])).is_ok());
}

#[test]
fn str8_counted_layout() {
    // a counted text field: one length slot, then two descriptors, the
    // length-slot reference before the payload reference
    let m = parse(ev("E", vec![field("str8", "s", txt("\"ok\""))])).unwrap();
    let c = EventGenerator::generate(m);
    assert_eq!(c.lengths, vec![LengthRule::CountedSize { arg: 0 }]);
    assert_eq!(
        c.descriptors,
        vec![
            Desc::ProviderMeta,
            Desc::EventMeta,
            Desc::LengthSlot { slot: 0 },
            Desc::Counted { arg: 0 },
        ]
    );
    // the length slot's value for "ok" is its byte size, 2
    assert_eq!(tracelogging::_internal::counted_size::<u8>("ok".as_bytes()), 2);
}

#[test]
fn cstr_terminator_descriptor() {
    let m = parse(ev("E", vec![field("cstr8", "s", txt("\"hi\""))])).unwrap();
    let c = EventGenerator::generate(m);
    assert_eq!(
        c.descriptors,
        vec![
            Desc::ProviderMeta,
            Desc::EventMeta,
            Desc::CStr { arg: 0 },
            Desc::ZeroTerm { vtype: tlg_compile::catalog::ValueType::U8 },
        ]
    );
}

#[test]
fn descriptor_count_parity_mixed() {
    // 2 + one per fixed field + two per variable-length field + one per
    // nul-terminated field's terminator
    let m = parse(ev(
        "E",
        vec![
            field("u32", "a", txt("&1")),
            field("str8", "b", txt("\"x\"")),
            field("cstr8", "c", txt("\"y\"")),
            field("u8_slice", "d", txt("&[1u8]")),
        ],
    ))
    .unwrap();
    let c = EventGenerator::generate(m);
    assert_eq!(c.descriptors.len(), 2 + 1 + 2 + 2 + 2);
    assert_eq!(c.lengths.len(), 2);
    assert_eq!(
        c.lengths,
        vec![
            LengthRule::CountedSize { arg: 1 },
            LengthRule::SliceCount { arg: 3 },
        ]
    );
}

#[test]
fn field_count_limit_sticky() {
    // 129 fields where 128 is the cap: exactly one field-count diagnostic
    let mut opts = Vec::new();
    for i in 0..129 {
        opts.push(field("u8", &format!("f{}", i), txt("&0")));
    }
    let err = parse(ev("E", opts)).unwrap_err();
    assert_eq!(count_kind(&err, DiagKind::LimitFieldCount), 1);
    // far past the cap it is still one
    let mut opts2 = Vec::new();
    for i in 0..140 {
        opts2.push(field("u8", &format!("f{}", i), txt("&0")));
    }
    let err2 = parse(ev("E", opts2)).unwrap_err();
    assert_eq!(count_kind(&err2, DiagKind::LimitFieldCount), 1);
}

#[test]
fn metadata_budget_limit() {
    // two fields whose names alone overrun the 65535-byte budget: one
    // budget diagnostic, and no model comes back
    let big_a = "a".repeat(40000);
    let big_b = "b".repeat(40000);
    let err = parse(ev(
        "E",
        vec![field("u8", &big_a, txt("&0")), field("u8", &big_b, txt("&0"))],
    ))
    .unwrap_err();
    assert_eq!(err.len(), 1);
    assert_eq!(count_kind(&err, DiagKind::LimitMetaBytes), 1);
}

#[test]
fn data_block_limit_sticky() {
    // 64 counted fields consume 2 + 128 descriptor blocks: one diagnostic
    let mut opts = Vec::new();
    for i in 0..64 {
        opts.push(field("str8", &format!("s{}", i), txt("\"v\"")));
    }
    let err = parse(ev("E", opts)).unwrap_err();
    assert_eq!(err.len(), 1);
    assert_eq!(count_kind(&err, DiagKind::LimitDescBlocks), 1);
}

#[test]
fn group_member_limit() {
    // a group of 128 members: the per-group cap of 127 trips once (and the
    // event's own 128-field cap trips once, on the 129th field overall)
    let mut members = Vec::new();
    for i in 0..128 {
        members.push(field("u8", &format!("m{}", i), txt("&0")));
    }
    let group = EventOption {
        name: "struct".to_string(),
        field_name: Some("g".to_string()),
        exprs: vec![],
        subs: vec![],
        group: Some(members),
    };
    let err = parse(ev("E", vec![group])).unwrap_err();
    assert_eq!(count_kind(&err, DiagKind::LimitGroupFields), 1);
    assert_eq!(count_kind(&err, DiagKind::LimitFieldCount), 1);
}

#[test]
fn group_patches_member_count() {
    let group = EventOption {
        name: "struct".to_string(),
        field_name: Some("s".to_string()),
        exprs: vec![],
        subs: vec![],
        group: Some(vec![
            field("u8", "a", txt("&1")),
            field("u8", "b", txt("&2")),
        ]),
    };
    let m = parse(ev("S", vec![group])).unwrap();
    assert_eq!(m.fields.len(), 3);
    assert_eq!(m.fields[0].outtype, 2);
    let c = EventGenerator::generate(m);
    // the group field itself has no descriptor; each member has one
    assert_eq!(c.descriptors.len(), 2 + 2);
    assert_eq!(
        c.metadata_bytes().unwrap(),
        vec![
            15, 0, 0x00, b'S', 0, // size, event tag, event name
            b's', 0, 24 | 0x80, 2, // group field: Struct in-type, member count
            b'a', 0, 4, // first member
            b'b', 0, 4, // second member
        ]
    );
}

#[test]
fn tag_range_diagnostic() {
    let err = parse(ev("E", vec![evopt("tag", vec![Expr::Int(0x10000000)])])).unwrap_err();
    assert_eq!(err.len(), 1);
    assert_eq!(err[0].kind, DiagKind::LimitTagRange);
}

#[test]
fn unknown_option_diagnostic() {
    let err = parse(ev("E", vec![evopt("bogus", vec![txt("&1")])])).unwrap_err();
    assert_eq!(err.len(), 1);
    assert_eq!(err[0].kind, DiagKind::Syntax);
    assert_eq!(err[0].message, "unrecognized option");
}

#[test]
fn duplicate_level_diagnostic() {
    let err = parse(ev(
        "E",
        vec![
            evopt("level", vec![txt("Verbose")]),
            evopt("level", vec![txt("Warning")]),
        ],
    ))
    .unwrap_err();
    assert_eq!(err.len(), 1);
    assert_eq!(err[0].kind, DiagKind::Uniqueness);
    assert_eq!(err[0].message, "level already set");
}

#[test]
fn event_name_nul_diagnostic() {
    let err = parse(ev("bad\0name", vec![])).unwrap_err();
    assert_eq!(err.len(), 1);
    assert_eq!(err[0].kind, DiagKind::Content);
}

#[test]
fn field_name_nul_diagnostic() {
    let err = parse(ev("E", vec![field("u8", "bad\0field", txt("&0"))])).unwrap_err();
    assert_eq!(err.len(), 1);
    assert_eq!(err[0].kind, DiagKind::Content);
}

#[test]
fn unknown_level_name_passes_through() {
    let m = parse(ev("E", vec![evopt("level", vec![txt("my_level")])])).unwrap();
    assert_eq!(m.level, EnumRef::Verbatim(txt("my_level")));
}

#[test]
fn leading_digit_level_wrapped() {
    let m = parse(ev("E", vec![evopt("level", vec![txt("5u8")])])).unwrap();
    assert_eq!(m.level, EnumRef::FromInt(EnumKind::Level, txt("5u8")));
}

#[test]
fn keywords_accumulate() {
    let m = parse(ev(
        "E",
        vec![
            evopt("keyword", vec![Expr::Int(0x10)]),
            evopt("keyword", vec![txt("KW_B")]),
        ],
    ))
    .unwrap();
    assert_eq!(m.keywords.len(), 2);
    let c = EventGenerator::generate(m);
    assert_eq!(
        c.keyword_plan,
        KeywordPlan::Combined(vec![Expr::Int(0x10), txt("KW_B")])
    );
}

#[test]
fn id_version_and_task() {
    let m = parse(ev(
        "E",
        vec![
            evopt("id_version", vec![Expr::Int(7), Expr::Int(2)]),
            evopt("task", vec![Expr::Int(9)]),
            plain("debug"),
        ],
    ))
    .unwrap();
    assert_eq!(m.id, Expr::Int(7));
    assert_eq!(m.version, Expr::Int(2));
    assert_eq!(m.task, Expr::Int(9));
}

#[test]
fn raw_field_explicit_type() {
    let mut o = EventOption {
        name: "raw_field".to_string(),
        field_name: Some("r".to_string()),
        exprs: vec![txt("Bool32"), txt("&data")],
        subs: vec![],
        group: None,
    };
    o.subs.push(sub("format", txt("String")));
    let m = parse(ev("E", vec![o])).unwrap();
    assert_eq!(
        m.fields[0].intype_expr,
        Some(EnumRef::Qualified(EnumKind::InType, "Bool32".to_string()))
    );
    assert_eq!(
        m.fields[0].outtype_expr,
        Some(EnumRef::Qualified(EnumKind::OutType, "String".to_string()))
    );
    let c = EventGenerator::generate(m);
    // both type codes are deferred expressions: not a fully literal block
    assert!(c.metadata_bytes().is_none());
    assert_eq!(c.descriptors.len(), 3);
    assert_eq!(c.descriptors[2], Desc::Counted { arg: 0 });
}

#[test]
fn raw_struct_not_allowed_in_group() {
    let raw = EventOption {
        name: "raw_struct".to_string(),
        field_name: Some("r".to_string()),
        exprs: vec![Expr::Int(2)],
        subs: vec![],
        group: None,
    };
    let group = EventOption {
        name: "struct".to_string(),
        field_name: Some("g".to_string()),
        exprs: vec![],
        subs: vec![],
        group: Some(vec![raw]),
    };
    let err = parse(ev("E", vec![group])).unwrap_err();
    assert_eq!(err.len(), 1);
    assert_eq!(err[0].kind, DiagKind::Syntax);
    assert_eq!(err[0].message, "RawStruct not allowed within Struct");
}

#[test]
fn raw_meta_contributes_no_data() {
    // metadata with no payload: a name and explicit type, no binding, no
    // descriptor
    let o = EventOption {
        name: "raw_meta".to_string(),
        field_name: Some("m".to_string()),
        exprs: vec![Expr::Int(13)],
        subs: vec![],
        group: None,
    };
    let m = parse(ev("E", vec![o])).unwrap();
    let c = EventGenerator::generate(m);
    assert_eq!(c.bindings.len(), 0);
    assert_eq!(c.descriptors, vec![Desc::ProviderMeta, Desc::EventMeta]);
    // the explicit in-type is a deferred from-integer conversion
    assert!(c
        .chunks
        .iter()
        .any(|ch| matches!(ch, Chunk::CodeExpr(EnumRef::FromInt(EnumKind::InType, _), _))));
}

#[test]
fn ipv6_fixed_arity_counted() {
    // a counted kind with a fixed sixteen-byte value: bound as one value,
    // still a length slot and two descriptors
    let m = parse(ev("E", vec![field("ipv6", "a", txt("&addr"))])).unwrap();
    let c = EventGenerator::generate(m);
    assert!(matches!(
        &c.bindings[0].kind,
        BindKind::Scalar { arity: 16, .. }
    ));
    assert_eq!(c.lengths, vec![LengthRule::CountedSize { arg: 0 }]);
    assert_eq!(c.descriptors.len(), 4);
}

#[test]
fn sid_descriptor() {
    let m = parse(ev("E", vec![field("win_sid", "s", txt("&sid"))])).unwrap();
    let c = EventGenerator::generate(m);
    assert_eq!(
        c.descriptors,
        vec![Desc::ProviderMeta, Desc::EventMeta, Desc::Sid { arg: 0 }]
    );
}

#[test]
fn dynamic_event_tag_defers() {
    let m = parse(ev("E", vec![evopt("tag", vec![txt("MY_TAG")])])).unwrap();
    assert_eq!(m.tag, TagVal::Dyn("MY_TAG".to_string()));
    let c = EventGenerator::generate(m);
    assert!(c.metadata_bytes().is_none());
    assert!(matches!(&c.chunks[0], Chunk::TagEnc(t) if t == "MY_TAG"));
}

#[test]
fn struct_without_group_diagnostic() {
    let o = EventOption {
        name: "struct".to_string(),
        field_name: Some("s".to_string()),
        exprs: vec![],
        subs: vec![],
        group: None,
    };
    let err = parse(ev("E", vec![o])).unwrap_err();
    assert_eq!(err.len(), 1);
    assert_eq!(err[0].kind, DiagKind::Syntax);
}

#[test]
fn format_on_group_unrecognized() {
    // a group kind takes no format suboption
    let o = EventOption {
        name: "struct".to_string(),
        field_name: Some("s".to_string()),
        exprs: vec![],
        subs: vec![sub("format", txt("String"))],
        group: Some(vec![field("u8", "a", txt("&1"))]),
    };
    let err = parse(ev("E", vec![o])).unwrap_err();
    assert_eq!(err.len(), 1);
    assert_eq!(err[0].kind, DiagKind::Syntax);
    assert_eq!(err[0].message, "unrecognized option");
}

#[test]
fn format_overrides_default_outtype() {
    let mut f = field("u32", "x", txt("&1"));
    f.subs.push(sub("format", txt("Hex")));
    let m = parse(ev("E", vec![f])).unwrap();
    assert_eq!(
        m.fields[0].outtype_expr,
        Some(EnumRef::Qualified(EnumKind::OutType, "Hex".to_string()))
    );
    let c = EventGenerator::generate(m);
    // the explicit out-type is deferred, so the block is not fully literal
    assert!(c.metadata_bytes().is_none());
}

#[test]
fn bool8_outtype_byte() {
    // bool8 carries a non-default out-type: the extension flag appears on
    // the in-type and the out-type byte follows
    let m = parse(ev("E", vec![field("bool8", "b", txt("&true"))])).unwrap();
    let c = EventGenerator::generate(m);
    assert_eq!(
        c.metadata_bytes().unwrap(),
        vec![9, 0, 0x00, b'E', 0, b'b', 0, 4 | 0x80, 3]
    );
}

#[test]
fn slice_variable_count_flag() {
    let m = parse(ev("E", vec![field("u8_slice", "v", txt("&buf"))])).unwrap();
    let c = EventGenerator::generate(m);
    assert_eq!(
        c.metadata_bytes().unwrap(),
        vec![8, 0, 0x00, b'E', 0, b'v', 0, 4 | 0x40]
    );
    assert_eq!(c.lengths, vec![LengthRule::SliceCount { arg: 0 }]);
}

#[test]
fn compile_event_end_to_end() {
    let catalog = Catalog::new();
    let c = tlg_compile::compile::compile_event(
        &catalog,
        ev("E", vec![field("u32", "x", txt("&1"))]),
    )
    .unwrap();
    assert_eq!(c.metadata_bytes().unwrap(), vec![8, 0, 0x00, b'E', 0, b'x', 0, 8]);
    let err = tlg_compile::compile::compile_event(
        &catalog,
        ev("E", vec![evopt("bogus", vec![txt("&1")])]),
    )
    .unwrap_err();
    assert_eq!(err.len(), 1);
}

#[test]
fn event_aggregates_multiple_diags() {
    // one walk collects every violation across independent rules
    let mut tagged = field("u32", "x", txt("&1"));
    tagged.subs.push(sub("tag", Expr::Int(0x10000000)));
    let err = parse(ev(
        "E",
        vec![
            field("u8", "bad\0name", txt("&0")),
            evopt("level", vec![txt("Verbose")]),
            evopt("level", vec![txt("Warning")]),
            evopt("bogus", vec![txt("&1")]),
            tagged,
        ],
    ))
    .unwrap_err();
    assert_eq!(err.len(), 4);
    assert_eq!(count_kind(&err, DiagKind::Content), 1);
    assert_eq!(count_kind(&err, DiagKind::Uniqueness), 1);
    assert_eq!(count_kind(&err, DiagKind::Syntax), 1);
    assert_eq!(count_kind(&err, DiagKind::LimitTagRange), 1);
}
