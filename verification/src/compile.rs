//! The whole pass in one call: validate an event description and, exactly
//! when validation reports nothing, compile the resulting model into its
//! layout. A failing description yields the aggregated diagnostics and no
//! layout.

use vstd::prelude::*;

use crate::catalog::Catalog;
use crate::errors::Diag;
use crate::errors::DiagKind;
use crate::errors::count_kind;
use crate::event::EventDesc;
use crate::event::EventInfo;
use crate::event::TagVal;
use crate::event::event_init;
use crate::event::lemma_walk_model_fits;
use crate::event::opts_fit;
use crate::event::walk_opts;
use crate::layout::CompiledEvent;
use crate::layout::Desc;
use crate::layout::EventGenerator;
use crate::layout::bindings_from;
use crate::layout::chunks_wf;
use crate::layout::descs_from;
use crate::layout::event_meta_items;
use crate::layout::items_of_chunks;
use crate::layout::lengths_from;
use crate::layout::sum_data_counts;
use crate::strings::str_bytes;

verus! {

/// Compiles one event description end to end: the validated model's
/// layout, or every diagnostic the validator collected. No layout is
/// emitted for a description that violates any rule; each violation is
/// reported with a diagnostic of its kind, each exceeded limit exactly
/// once.
pub fn compile_event(catalog: &Catalog, desc: EventDesc) -> (r: Result<CompiledEvent, Vec<Diag>>)
    requires
        catalog.wf(),
        str_bytes(desc.name@).len() <= usize::MAX - 7,
        opts_fit(desc.options@),
    ensures
        ({
            let w = walk_opts(catalog.defs@, desc.options@, false, event_init(desc.name@));
            match r {
                Ok(c) => {
                    &&& w.ok
                    &&& c.descriptors@ == seq![Desc::ProviderMeta, Desc::EventMeta] + descs_from(
                        w.fields,
                        0,
                        0,
                    )
                    &&& c.descriptors@.len() == 2 + sum_data_counts(w.fields, 0)
                    &&& c.lengths@ == lengths_from(w.fields, 0)
                    &&& c.bindings@ == bindings_from(w.fields, 0)
                    &&& chunks_wf(c.chunks@)
                    &&& items_of_chunks(c.chunks@) == crate::layout::tag_items(
                        match w.tag {
                            Some(t) => t,
                            None => TagVal::Lit(0),
                        },
                    ) + crate::layout::byte_items(str_bytes(desc.name@)) + seq![
                        crate::layout::MetaItem::Byte(0u8),
                    ] + crate::layout::items_from(w.fields, 0)
                },
                Err(ds) => {
                    &&& !w.ok
                    &&& ds@.len() > 0
                    &&& count_kind(ds@, DiagKind::LimitFieldCount) == (if w.fields.len() > 128 {
                        1int
                    } else {
                        0int
                    })
                    &&& count_kind(ds@, DiagKind::LimitMetaBytes) == (if w.est > 65535 {
                        1int
                    } else {
                        0int
                    })
                    &&& count_kind(ds@, DiagKind::LimitDescBlocks) == (if w.dd > 128 {
                        1int
                    } else {
                        0int
                    })
                    &&& count_kind(ds@, DiagKind::LimitGroupFields) == w.ngd
                    &&& count_kind(ds@, DiagKind::Syntax) == w.n_syntax
                    &&& count_kind(ds@, DiagKind::Uniqueness) == w.n_unique
                    &&& count_kind(ds@, DiagKind::Content) == w.n_content
                    &&& count_kind(ds@, DiagKind::LimitTagRange) == w.n_tagrange
                },
            }
        }),
{
    proof {
        lemma_walk_model_fits(catalog.defs@, desc.options@, desc.name@);
    }
    let ghost w = walk_opts(catalog.defs@, desc.options@, false, event_init(desc.name@));
    match EventInfo::parse(catalog, desc) {
        Ok(model) => {
            proof {
                assert(model.fields@ == w.fields);
                assert(match model.tag {
                    TagVal::Lit(v) => v <= crate::tag::TAG_MAX,
                    TagVal::Dyn(_) => true,
                });
                assert(crate::layout::event_model_wf(model));
            }
            let ghost m_spec = model;
            let c = EventGenerator::generate(model);
            proof {
                assert(event_meta_items(m_spec) =~= crate::layout::tag_items(
                    match w.tag {
                        Some(t) => t,
                        None => TagVal::Lit(0),
                    },
                ) + crate::layout::byte_items(str_bytes(desc.name@)) + seq![
                    crate::layout::MetaItem::Byte(0u8),
                ] + crate::layout::items_from(w.fields, 0));
            }
            Ok(c)
        },
        Err(ds) => Err(ds),
    }
}

} // verus!
