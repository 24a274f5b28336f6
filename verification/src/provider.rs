//! The provider side: validating a provider description and encoding the
//! fixed-format provider metadata block.
//!
//! The block reads `[u16 size][name bytes][0x00][optional 19-byte
//! group-trait block]`; the size prefix covers the whole block, itself
//! included. Decoding specifications and a round-trip proof stand at the
//! end.

use vstd::prelude::*;
use vstd::string::StringSliceAdditionalSpecFns;

use crate::errors::Diag;
use crate::errors::DiagKind;
use crate::errors::Errors;
use crate::errors::count_kind;
use crate::errors::lemma_count_kind_push_all;
use crate::guid::Guid;
use crate::guid::guid_from_name;
use crate::guid::guid_inner;
use crate::guid::guid_le;
use crate::guid::guid_try_parse;
use crate::guid::guid_wf;
use crate::guid::provider_id_of;
use crate::guid::spec_guid_bytes;
use crate::order::str_is;
use crate::strings::contains_zero;
use crate::strings::has_nul;
use crate::strings::is_lower_digit;
use crate::strings::lower_digit_only;
use crate::strings::str_bytes;

verus! {

/// One provider option: a name and, for all but the no-op marker, a string
/// argument.
pub struct ProviderOption {
    /// The option name: an identifier selector, a group selector, or the
    /// no-op debug marker.
    pub name: String,
    /// The option's string-literal argument, where one was given.
    pub value: Option<String>,
}

/// A provider description as the host surface hands it over: the symbol the
/// provider is bound to, its name, and its options.
pub struct ProviderDesc {
    pub symbol: String,
    pub name: String,
    pub options: Vec<ProviderOption>,
}

/// A validated provider: name checked, identifiers resolved.
#[derive(Debug)]
pub struct ProviderInfo {
    pub symbol: String,
    pub name: String,
    /// The provider identifier: explicit, or derived from the name.
    pub id: Guid,
    /// The provider-group identifier, if one was declared.
    pub group_id: Option<Guid>,
}

/// The validator's abstract state: what has been seen and whether any
/// diagnostic has been reported.
#[verifier::ext_equal]
pub struct ProvWalk {
    /// No diagnostic reported so far.
    pub ok: bool,
    /// An `id` option has been seen.
    pub id_set: bool,
    /// A nonempty `group_name` option has been seen.
    pub gname_set: bool,
    /// The explicit identifier bytes; all zero until an `id` option parses.
    pub id: Seq<u8>,
    /// The group identifier bytes, once a group option is seen.
    pub group: Option<Seq<u8>>,
    /// Unrecognized options and missing arguments reported so far.
    pub n_syntax: int,
    /// Single-valued options set a second time, reported so far.
    pub n_unique: int,
    /// Content violations (name length or NUL, malformed identifier
    /// literal, bad group-name character) reported so far.
    pub n_content: int,
}

/// The validator's state before any option is processed.
pub open spec fn prov_init(name: Seq<char>) -> ProvWalk {
    ProvWalk {
        ok: str_bytes(name).len() < 32768 && !contains_zero(str_bytes(name)),
        id_set: false,
        gname_set: false,
        id: Seq::new(16, |i: int| 0u8),
        group: None,
        n_syntax: 0,
        n_unique: 0,
        n_content: (if str_bytes(name).len() >= 32768 {
            1int
        } else {
            0int
        }) + (if contains_zero(str_bytes(name)) {
            1int
        } else {
            0int
        }),
    }
}

/// The value bytes an identifier-valued option leaves behind: the parsed
/// digits on success, all zeroes on a malformed literal.
pub open spec fn opt_guid_bytes(v: Option<String>) -> Seq<u8> {
    match v {
        Some(t) => if guid_wf(str_bytes(t@)) {
            spec_guid_bytes(guid_inner(str_bytes(t@)))
        } else {
            Seq::new(16, |i: int| 0u8)
        },
        None => Seq::new(16, |i: int| 0u8),
    }
}

/// Whether an identifier-valued option parses.
pub open spec fn opt_guid_ok(v: Option<String>) -> bool {
    match v {
        Some(t) => guid_wf(str_bytes(t@)),
        None => false,
    }
}

/// How one option advances the validator's state.
pub open spec fn prov_step(w: ProvWalk, o: ProviderOption) -> ProvWalk {
    if o.name@ == "debug"@ {
        w
    } else if o.name@ == "id"@ {
        ProvWalk {
            ok: w.ok && !w.id_set && opt_guid_ok(o.value),
            id_set: true,
            id: if opt_guid_ok(o.value) {
                opt_guid_bytes(o.value)
            } else {
                w.id
            },
            n_unique: w.n_unique + (if w.id_set {
                1int
            } else {
                0int
            }),
            n_syntax: w.n_syntax + (if o.value is None {
                1int
            } else {
                0int
            }),
            n_content: w.n_content + (if o.value is Some && !opt_guid_ok(o.value) {
                1int
            } else {
                0int
            }),
            ..w
        }
    } else if o.name@ == "group_id"@ || o.name@ == "groupid"@ {
        ProvWalk {
            ok: w.ok && w.group is None && opt_guid_ok(o.value),
            group: Some(opt_guid_bytes(o.value)),
            n_unique: w.n_unique + (if w.group is Some {
                1int
            } else {
                0int
            }),
            n_syntax: w.n_syntax + (if o.value is None {
                1int
            } else {
                0int
            }),
            n_content: w.n_content + (if o.value is Some && !opt_guid_ok(o.value) {
                1int
            } else {
                0int
            }),
            ..w
        }
    } else if o.name@ == "group_name"@ || o.name@ == "groupname"@ {
        match o.value {
            None => ProvWalk {
                ok: false,
                n_unique: w.n_unique + (if w.gname_set {
                    1int
                } else {
                    0int
                }),
                n_syntax: w.n_syntax + 1,
                ..w
            },
            Some(t) => ProvWalk {
                ok: w.ok && !w.gname_set && lower_digit_only(str_bytes(t@)),
                gname_set: w.gname_set || t@.len() > 0,
                n_unique: w.n_unique + (if w.gname_set {
                    1int
                } else {
                    0int
                }),
                n_content: w.n_content + (if !lower_digit_only(str_bytes(t@)) {
                    1int
                } else {
                    0int
                }),
                ..w
            },
        }
    } else {
        ProvWalk { ok: false, n_syntax: w.n_syntax + 1, ..w }
    }
}

/// The validator's state after every option, starting from `w`.
pub open spec fn prov_walk_from(opts: Seq<ProviderOption>, w: ProvWalk) -> ProvWalk
    decreases opts.len(),
{
    if opts.len() == 0 {
        w
    } else {
        prov_walk_from(opts.drop_first(), prov_step(w, opts[0]))
    }
}

impl ProviderInfo {
    /// Validates a provider description: the name's length and content, each
    /// option's recognition, uniqueness and argument, and resolves the
    /// provider identifier, deriving one from the name where none was given.
    /// Every problem found is reported, one diagnostic of the matching kind
    /// per violation; the description is accepted exactly when there is
    /// none.
    pub fn from_desc(desc: ProviderDesc) -> (r: Result<ProviderInfo, Vec<Diag>>)
        requires
            str_bytes(desc.name@).len() <= usize::MAX,
        ensures
            ({
                let w = prov_walk_from(desc.options@, prov_init(desc.name@));
                match r {
                    Ok(m) => {
                        &&& w.ok
                        &&& m.symbol == desc.symbol
                        &&& m.name == desc.name
                        &&& m.id.bytes_be@ == (if w.id_set {
                            w.id
                        } else {
                            provider_id_of(desc.name@)
                        })
                        &&& (m.group_id is Some <==> w.group is Some)
                        &&& (match (m.group_id, w.group) {
                            (Some(g), Some(bs)) => g.bytes_be@ == bs,
                            _ => true,
                        })
                    },
                    Err(ds) => {
                        &&& !w.ok
                        &&& ds@.len() > 0
                        &&& count_kind(ds@, DiagKind::Syntax) == w.n_syntax
                        &&& count_kind(ds@, DiagKind::Uniqueness) == w.n_unique
                        &&& count_kind(ds@, DiagKind::Content) == w.n_content
                        &&& count_kind(ds@, DiagKind::LimitFieldCount) == 0
                        &&& count_kind(ds@, DiagKind::LimitGroupFields) == 0
                        &&& count_kind(ds@, DiagKind::LimitDescBlocks) == 0
                        &&& count_kind(ds@, DiagKind::LimitMetaBytes) == 0
                        &&& count_kind(ds@, DiagKind::LimitTagRange) == 0
                    },
                }
            }),
    {
        let ghost w_total = prov_walk_from(desc.options@, prov_init(desc.name@));
        let mut errors = Errors::new();

        if desc.name.as_str().len() >= 32768 {
            let ghost items_prev = errors.items@;
            errors.add(
                DiagKind::Content,
                desc.name.as_str(),
                "provider name.len() must be less than 32KB",
            );
            proof {
                lemma_count_kind_push_all(items_prev, errors.items@);
            }
        }
        if has_nul(desc.name.as_str()) {
            let ghost items_prev = errors.items@;
            errors.add(DiagKind::Content, desc.name.as_str(), "provider name must not contain '\\0'");
            proof {
                lemma_count_kind_push_all(items_prev, errors.items@);
            }
        }

        let mut id = Guid::zero();
        let mut group: Option<Guid> = None;
        let mut id_set = false;
        let mut gname_set = false;

        proof {
            assert(errors.items@.len() == 0 <==> prov_init(desc.name@).ok);
            assert(desc.options@.skip(0) =~= desc.options@);
            assert(ProvWalk {
                ok: errors.items@.len() == 0,
                id_set: id_set,
                gname_set: gname_set,
                id: id.bytes_be@,
                group: match group {
                    Some(g) => Some(g.bytes_be@),
                    None => None,
                },
                n_syntax: count_kind(errors.items@, DiagKind::Syntax),
                n_unique: count_kind(errors.items@, DiagKind::Uniqueness),
                n_content: count_kind(errors.items@, DiagKind::Content),
            } =~= prov_init(desc.name@));
        }

        let mut i: usize = 0;
        while i < desc.options.len()
            invariant
                i <= desc.options@.len(),
                prov_walk_from(
                    desc.options@.skip(i as int),
                    ProvWalk {
                        ok: errors.items@.len() == 0,
                        id_set: id_set,
                        gname_set: gname_set,
                        id: id.bytes_be@,
                        group: match group {
                            Some(g) => Some(g.bytes_be@),
                            None => None,
                        },
                        n_syntax: count_kind(errors.items@, DiagKind::Syntax),
                        n_unique: count_kind(errors.items@, DiagKind::Uniqueness),
                        n_content: count_kind(errors.items@, DiagKind::Content),
                    },
                ) == w_total,
                count_kind(errors.items@, DiagKind::LimitFieldCount) == 0,
                count_kind(errors.items@, DiagKind::LimitGroupFields) == 0,
                count_kind(errors.items@, DiagKind::LimitDescBlocks) == 0,
                count_kind(errors.items@, DiagKind::LimitMetaBytes) == 0,
                count_kind(errors.items@, DiagKind::LimitTagRange) == 0,
            decreases desc.options@.len() - i,
        {
            let ghost w_cur = ProvWalk {
                ok: errors.items@.len() == 0,
                id_set: id_set,
                gname_set: gname_set,
                id: id.bytes_be@,
                group: match group {
                    Some(g) => Some(g.bytes_be@),
                    None => None,
                },
                n_syntax: count_kind(errors.items@, DiagKind::Syntax),
                n_unique: count_kind(errors.items@, DiagKind::Uniqueness),
                n_content: count_kind(errors.items@, DiagKind::Content),
            };
            proof {
                assert(desc.options@.skip(i as int).drop_first() =~= desc.options@.skip(
                    i as int + 1,
                ));
                assert(desc.options@.skip(i as int)[0] == desc.options@[i as int]);
            }
            let o = &desc.options[i];
            if str_is(o.name.as_str(), "debug") {
                // the no-op marker: ignored entirely
            } else if str_is(o.name.as_str(), "id") {
                if id_set {
                    let ghost items_prev = errors.items@;
                    errors.add(DiagKind::Uniqueness, o.name.as_str(), "id already set");
                    proof {
                        lemma_count_kind_push_all(items_prev, errors.items@);
                    }
                }
                id_set = true;
                match &o.value {
                    Some(v) => {
                        match guid_try_parse(v.as_str()) {
                            Some(g) => {
                                id = g;
                            },
                            None => {
                                let ghost items_prev = errors.items@;
                                errors.add(
                                    DiagKind::Content,
                                    o.name.as_str(),
                                    "expected \"GUID\", e.g. \"20cf46dd-3b90-476c-94e9-4e74bbc30e31\"",
                                );
                                proof {
                                    lemma_count_kind_push_all(items_prev, errors.items@);
                                }
                            },
                        }
                    },
                    None => {
                        let ghost items_prev = errors.items@;
                        errors.add(
                            DiagKind::Syntax,
                            o.name.as_str(),
                            "expected \"GUID\", e.g. \"20cf46dd-3b90-476c-94e9-4e74bbc30e31\"",
                        );
                        proof {
                            lemma_count_kind_push_all(items_prev, errors.items@);
                        }
                    },
                }
            } else if str_is(o.name.as_str(), "group_id") || str_is(o.name.as_str(), "groupid") {
                if group.is_some() {
                    let ghost items_prev = errors.items@;
                    errors.add(DiagKind::Uniqueness, o.name.as_str(), "group_id already set");
                    proof {
                        lemma_count_kind_push_all(items_prev, errors.items@);
                    }
                }
                match &o.value {
                    Some(v) => {
                        match guid_try_parse(v.as_str()) {
                            Some(g) => {
                                group = Some(g);
                            },
                            None => {
                                group = Some(Guid::zero());
                                let ghost items_prev = errors.items@;
                                errors.add(
                                    DiagKind::Content,
                                    o.name.as_str(),
                                    "expected \"GUID\", e.g. \"20cf46dd-3b90-476c-94e9-4e74bbc30e31\"",
                                );
                                proof {
                                    lemma_count_kind_push_all(items_prev, errors.items@);
                                }
                            },
                        }
                    },
                    None => {
                        group = Some(Guid::zero());
                        let ghost items_prev = errors.items@;
                        errors.add(
                            DiagKind::Syntax,
                            o.name.as_str(),
                            "expected \"GUID\", e.g. \"20cf46dd-3b90-476c-94e9-4e74bbc30e31\"",
                        );
                        proof {
                            lemma_count_kind_push_all(items_prev, errors.items@);
                        }
                    },
                }
            } else if str_is(o.name.as_str(), "group_name") || str_is(
                o.name.as_str(),
                "groupname",
            ) {
                if gname_set {
                    let ghost items_prev = errors.items@;
                    errors.add(DiagKind::Uniqueness, o.name.as_str(), "group_name already set");
                    proof {
                        lemma_count_kind_push_all(items_prev, errors.items@);
                    }
                }
                match &o.value {
                    Some(v) => {
                        if !is_lower_digit(v.as_str()) {
                            let ghost items_prev = errors.items@;
                            errors.add(
                                DiagKind::Content,
                                o.name.as_str(),
                                "group_name must contain only lowercase ASCII letters and ASCII digits",
                            );
                            proof {
                                lemma_count_kind_push_all(items_prev, errors.items@);
                            }
                        }
                        if v.as_str().unicode_len() > 0 {
                            gname_set = true;
                        }
                    },
                    None => {
                        let ghost items_prev = errors.items@;
                        errors.add(DiagKind::Syntax, o.name.as_str(), "expected \"groupname\"");
                        proof {
                            lemma_count_kind_push_all(items_prev, errors.items@);
                        }
                    },
                }
            } else {
                let ghost items_prev = errors.items@;
                errors.add(
                    DiagKind::Syntax,
                    o.name.as_str(),
                    "expected id(\"GUID\") or group_id(\"GUID\")",
                );
                proof {
                    lemma_count_kind_push_all(items_prev, errors.items@);
                }
            }
            proof {
                let w_next = ProvWalk {
                    ok: errors.items@.len() == 0,
                    id_set: id_set,
                    gname_set: gname_set,
                    id: id.bytes_be@,
                    group: match group {
                        Some(g) => Some(g.bytes_be@),
                        None => None,
                    },
                    n_syntax: count_kind(errors.items@, DiagKind::Syntax),
                    n_unique: count_kind(errors.items@, DiagKind::Uniqueness),
                    n_content: count_kind(errors.items@, DiagKind::Content),
                };
                assert(w_next =~= prov_step(w_cur, desc.options@[i as int]));
            }
            i = i + 1;
        }
        proof {
            assert(desc.options@.skip(desc.options@.len() as int) =~= Seq::<
                ProviderOption,
            >::empty());
        }

        if !id_set {
            id = guid_from_name(desc.name.as_str());
        }

        match errors.check() {
            Ok(()) => Ok(
                ProviderInfo { symbol: desc.symbol, name: desc.name, id: id, group_id: group },
            ),
            Err(ds) => Err(ds),
        }
    }
}

/// The group-trait block: its own size, the group trait type, and the
/// identifier bytes in stored order.
pub open spec fn spec_trait_block(g: Seq<u8>) -> Seq<u8> {
    seq![19u8, 0u8, 1u8] + guid_le(g)
}

/// The provider block's body: the name, its terminator, and the optional
/// group-trait block.
pub open spec fn spec_provider_body(name: Seq<u8>, group: Option<Seq<u8>>) -> Seq<u8> {
    name + seq![0u8] + (match group {
        Some(g) => spec_trait_block(g),
        None => Seq::<u8>::empty(),
    })
}

/// The whole provider block: a little-endian two-byte size covering itself,
/// then the body.
pub open spec fn spec_provider_block(name: Seq<u8>, group: Option<Seq<u8>>) -> Seq<u8> {
    let total = 2 + spec_provider_body(name, group).len();
    seq![(total % 256) as u8, ((total / 256) % 256) as u8] + spec_provider_body(name, group)
}

/// Encodes validated providers into their metadata blocks.
pub struct ProviderGenerator {}

impl ProviderGenerator {
    /// Produces the provider metadata block of a validated provider.
    pub fn generate(provider: &ProviderInfo) -> (r: Vec<u8>)
        requires
            str_bytes(provider.name@).len() < 32768,
        ensures
            r@ == spec_provider_block(
                str_bytes(provider.name@),
                match provider.group_id {
                    Some(g) => Some(g.bytes_be@),
                    None => None,
                },
            ),
    {
        let nb = provider.name.as_str().as_bytes();
        let total: usize = 2 + nb.len() + 1 + (match &provider.group_id {
            Some(_) => 19,
            None => 0,
        });
        let mut meta: Vec<u8> = Vec::new();
        meta.push((total % 256) as u8);
        meta.push(((total / 256) % 256) as u8);
        let mut i: usize = 0;
        while i < nb.len()
            invariant
                i <= nb@.len(),
                meta@.len() == 2 + i,
                meta@[0] == ((2 + nb@.len() + 1 + (if provider.group_id is Some {
                    19int
                } else {
                    0int
                })) % 256) as u8,
                meta@[1] == (((2 + nb@.len() + 1 + (if provider.group_id is Some {
                    19int
                } else {
                    0int
                })) / 256) % 256) as u8,
                forall|j: int| 0 <= j < i ==> meta@[2 + j] == nb@[j],
            decreases nb@.len() - i,
        {
            meta.push(nb[i]);
            i = i + 1;
        }
        meta.push(0);
        match &provider.group_id {
            Some(g) => {
                meta.push(19);
                meta.push(0);
                meta.push(1);
                let le = g.to_bytes_le();
                let mut k: usize = 0;
                while k < le.len()
                    invariant
                        k <= le@.len(),
                        le@ == guid_le(g.bytes_be@),
                        le@.len() == 16,
                        meta@.len() == 2 + nb@.len() + 4 + k,
                        meta@[0] == ((2 + nb@.len() + 20) % 256) as u8,
                        meta@[1] == (((2 + nb@.len() + 20) / 256) % 256) as u8,
                        forall|j: int| 0 <= j < nb@.len() ==> meta@[2 + j] == nb@[j],
                        meta@[2 + nb@.len() as int] == 0u8,
                        meta@[2 + nb@.len() as int + 1] == 19u8,
                        meta@[2 + nb@.len() as int + 2] == 0u8,
                        meta@[2 + nb@.len() as int + 3] == 1u8,
                        forall|j: int| 0 <= j < k ==> meta@[2 + nb@.len() as int + 4 + j] == le@[j],
                        provider.group_id is Some,
                    decreases le@.len() - k,
                {
                    meta.push(le[k]);
                    k = k + 1;
                }
                proof {
                    assert(meta@ =~= spec_provider_block(
                        str_bytes(provider.name@),
                        Some(g.bytes_be@),
                    ));
                }
            },
            None => {
                proof {
                    assert(meta@ =~= spec_provider_block(
                        str_bytes(provider.name@),
                        None,
                    ));
                }
            },
        }
        meta
    }
}

/// The first NUL at or after `i`, or the length if none follows.
pub open spec fn first_nul(b: Seq<u8>, i: int) -> int
    decreases b.len() - i when 0 <= i <= b.len()
{
    if i >= b.len() {
        i
    } else if b[i] == 0 {
        i
    } else {
        first_nul(b, i + 1)
    }
}

/// The name a provider block decodes to: the bytes between the size prefix
/// and the first NUL.
pub open spec fn decode_provider_name(b: Seq<u8>) -> Seq<u8> {
    b.subrange(2, first_nul(b, 2))
}

/// The size a provider block's prefix declares.
pub open spec fn decode_provider_size(b: Seq<u8>) -> int {
    b[0] + 256 * b[1]
}

/// The group identifier a provider block decodes to, if a well-formed
/// group-trait block follows the name.
pub open spec fn decode_provider_group(b: Seq<u8>) -> Option<Seq<u8>> {
    let z = first_nul(b, 2);
    if z + 20 == b.len() && b[z + 1] == 19 && b[z + 2] == 0 && b[z + 3] == 1 {
        Some(guid_le(b.subrange(z + 4, z + 20)))
    } else {
        None
    }
}

proof fn lemma_first_nul_at(b: Seq<u8>, i: int, z: int)
    requires
        0 <= i <= z < b.len(),
        forall|j: int| i <= j < z ==> b[j] != 0,
        b[z] == 0,
    ensures
        first_nul(b, i) == z,
    decreases z - i,
{
    if i < z {
        lemma_first_nul_at(b, i + 1, z);
    }
}

/// Decoding an emitted provider block recovers the name and the group
/// identifier bit for bit, and the size prefix states the block's length.
pub proof fn lemma_provider_block_round_trip(name: Seq<u8>, group: Option<Seq<u8>>)
    requires
        name.len() < 32768,
        !contains_zero(name),
        group matches Some(g) ==> g.len() == 16,
    ensures
        decode_provider_size(spec_provider_block(name, group)) == spec_provider_block(
            name,
            group,
        ).len(),
        decode_provider_name(spec_provider_block(name, group)) =~= name,
        decode_provider_group(spec_provider_block(name, group)) == group,
{
    let b = spec_provider_block(name, group);
    let body = spec_provider_body(name, group);
    assert(b.len() == 2 + body.len());
    assert forall|j: int| 2 <= j < 2 + name.len() implies b[j] != 0 by {
        assert(b[j] == name[j - 2]);
        assert(!(exists|i: int| 0 <= i < name.len() && name[i] == 0));
    }
    assert(b[2 + name.len() as int] == 0);
    lemma_first_nul_at(b, 2, 2 + name.len() as int);
    assert(decode_provider_name(b) =~= name);
    match group {
        Some(g) => {
            let z: int = 2 + name.len() as int;
            assert(b.len() == z + 20);
            assert(b[z + 1] == 19 && b[z + 2] == 0 && b[z + 3] == 1);
            assert(b.subrange(z + 4, z + 20) =~= guid_le(g));
            crate::guid::lemma_guid_le_involution(g);
            assert(decode_provider_group(b) == Some(g));
        },
        None => {
            let z: int = 2 + name.len() as int;
            assert(b.len() == z + 1);
        },
    }
    assert(b.len() < 65536);
    assert(decode_provider_size(b) == b.len()) by {
        assert(b[0] == (b.len() % 256) as u8);
        assert(b[1] == ((b.len() / 256) % 256) as u8);
    }
}


/// An accepted walk started accepted: acceptance only ever decays, so a
/// provider the validator accepts had a lawful name (under 32768 bytes, no
/// embedded NUL) to begin with.
pub proof fn lemma_prov_walk_ok_monotone(opts: Seq<ProviderOption>, w: ProvWalk)
    ensures
        prov_walk_from(opts, w).ok ==> w.ok,
    decreases opts.len(),
{
    if opts.len() > 0 {
        lemma_prov_walk_ok_monotone(opts.drop_first(), prov_step(w, opts[0]));
        assert(prov_step(w, opts[0]).ok ==> w.ok);
    }
}

} // verus!
