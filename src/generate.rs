//! The generator: from an item definition to the Rust source of the generated items.
use vstd::prelude::*;
use crate::model::{Item, variant_wf};
use crate::plan::{GenerationError, Plan, plan, plan_of, refusal};
use crate::render::{output_text, render};

verus! {

/// Every variant of an enum item is well formed.
pub open spec fn item_wf(item: Item) -> bool {
    item.data is Enum ==> forall|i: int|
        0 <= i < item.data->Enum_0@.len() ==> variant_wf(#[trigger] item.data->Enum_0@[i])
}

/// The Rust source generated for an item: for each variant not marked skip, a type
/// mirroring its payload with `From` and `TryFrom` conversions and the marker
/// implementations, wrapped in the module that the directives name, if any.
/// Refused, with nothing generated, when the item is not an enum or its directives
/// are malformed.
pub fn enum_variant_type_impl(item: &Item) -> (r: Result<String, GenerationError>)
    requires
        item_wf(*item),
    ensures
        match r {
            Ok(s) => refusal(*item) is None && exists|p: Plan| plan_of(p, *item) && s@ == output_text(*item, p),
            Err(e) => refusal(*item) == Some(e),
        },
{
    match plan(item) {
        Ok(p) => {
            let s = render(item, &p);
            Ok(s)
        },
        Err(e) => Err(e),
    }
}

} // verus!
