//! Properties of what is generated, over the plan of an item.
use vstd::prelude::*;
use crate::directives::{copied_texts, directive_params, directives_of, marked_skip, param_texts, texts};
use crate::model::{Item, variants_distinct};
use crate::plan::{
    Plan, binder_names, bracketed, derive_text, kept, lemma_retained_member, opt_view, plan_of, retained,
};
use crate::render::{artifacts_text, output_text};

verus! {

/// The type generated for each kept variant has the variant's name and shape, and
/// its fields in the same number and order, with the same names and types; the
/// conversions bind those fields in that order.
pub proof fn lemma_shape_fidelity(item: Item, p: Plan, i: int)
    requires
        plan_of(p, item),
        0 <= i < p.artifacts@.len(),
    ensures
        p.artifacts@[i].product.name@ == retained(item.data->Enum_0@)[i].name@,
        p.artifacts@[i].product.shape == retained(item.data->Enum_0@)[i].shape,
        p.artifacts@[i].product.fields@.len() == retained(item.data->Enum_0@)[i].fields@.len(),
        forall|k: int|
            0 <= k < p.artifacts@[i].product.fields@.len() ==> {
                let f = #[trigger] p.artifacts@[i].product.fields@[k];
                let g = retained(item.data->Enum_0@)[i].fields@[k];
                opt_view(f.name) == opt_view(g.name) && f.ty@ == g.ty@
            },
        texts(p.artifacts@[i].conversion.binders@) == binder_names(retained(item.data->Enum_0@)[i]),
{
    assert(crate::plan::artifact_of(
        p.artifacts@[i],
        directives_of(item.attrs@)->Ok_0,
        retained(item.data->Enum_0@)[i],
    ));
}

/// A variant marked skip has nothing generated for it: no type, no conversions and
/// no marker implementations carry its name.
pub proof fn lemma_skipped_absent(item: Item, p: Plan, j: int)
    requires
        plan_of(p, item),
        variants_distinct(item.data->Enum_0@),
        0 <= j < item.data->Enum_0@.len(),
        marked_skip(item.data->Enum_0@[j].attrs@),
    ensures
        forall|i: int|
            0 <= i < p.artifacts@.len() ==> (#[trigger] p.artifacts@[i]).product.name@ != item.data->Enum_0@[j].name@
                && p.artifacts@[i].conversion.variant@ != item.data->Enum_0@[j].name@,
{
    let vs = item.data->Enum_0@;
    assert forall|i: int| 0 <= i < p.artifacts@.len() implies (#[trigger] p.artifacts@[i]).product.name@
        != vs[j].name@ && p.artifacts@[i].conversion.variant@ != vs[j].name@ by {
        lemma_retained_member(vs, i);
        let w = retained(vs)[i];
        assert(vs.contains(w));
        let k = choose|k: int| 0 <= k < vs.len() && vs[k] == w;
        assert(kept(w));
        assert(k != j);
        assert(crate::plan::artifact_of(p.artifacts@[i], directives_of(item.attrs@)->Ok_0, w));
    }
}

/// With a namespace the output is one module, of the item's visibility, that brings
/// the enum into scope and holds every generated item; without one the generated
/// items stand unwrapped.
pub proof fn lemma_namespace_wrapping(item: Item, p: Plan)
    requires
        plan_of(p, item),
    ensures
        match directives_of(item.attrs@)->Ok_0.namespace {
            Some(n) => output_text(item, p) == item.vis@ + " mod "@ + n + " { use super::"@ + item.name@
                + "; "@ + artifacts_text(item, p.artifacts@) + "}"@,
            None => output_text(item, p) == artifacts_text(item, p.artifacts@),
        },
{
}

/// The item-level capability bundle and the variant's own bundles stand on the
/// generated type as separate attributes, the item's first, neither merged into the
/// other nor cleared of capabilities they share.
pub proof fn lemma_capability_union(item: Item, p: Plan, i: int)
    requires
        plan_of(p, item),
        0 <= i < p.artifacts@.len(),
        directives_of(item.attrs@)->Ok_0.capabilities is Some,
    ensures
        ({
            let v = retained(item.data->Enum_0@)[i];
            let n = copied_texts(v.attrs@).len() as int;
            let attrs = texts(p.artifacts@[i].product.attrs@);
            let own = param_texts(directive_params(v.attrs@), true);
            &&& attrs[n] == derive_text(directives_of(item.attrs@)->Ok_0.capabilities->Some_0)
            &&& forall|k: int| 0 <= k < own.len() ==> attrs[n + 1 + k] == bracketed(#[trigger] own[k])
        }),
{
    let v = retained(item.data->Enum_0@)[i];
    assert(crate::plan::artifact_of(p.artifacts@[i], directives_of(item.attrs@)->Ok_0, v));
}

} // verus!
