//! What is generated for each variant that is kept: a product type mirroring its
//! payload, the pair of conversions, and the marker implementations.
use vstd::prelude::*;
use crate::directives::{
    DirectiveError, Directives, DirectivesView, copied_attributes, copied_texts, directive_params,
    directives_of, is_skipped, marked_skip, param_texts, parse_directives, texts, variant_param_texts,
};
use crate::model::{Data, Field, Item, Shape, Variant, field_fits};
use crate::text::{binder, binder_text, join, join_text};

verus! {

/// Why nothing was generated for an item.
#[derive(PartialEq, Eq, Structural, Clone, Copy, Debug)]
pub enum GenerationError {
    /// The item is not an enum.
    NotAnEnum,
    /// Its `evt` attributes were refused.
    Directive(DirectiveError),
}

/// A field of a generated type.
pub struct ProductField {
    pub name: Option<String>,
    pub ty: String,
    /// The texts of the attributes copied from the variant's field.
    pub attrs: Vec<String>,
}

/// The type generated for a variant.
pub struct ProductType {
    pub name: String,
    pub shape: Shape,
    /// The texts of its attributes, in the order they are written.
    pub attrs: Vec<String>,
    pub fields: Vec<ProductField>,
}

/// The conversions between a generated type and the enum: the variant they target
/// and the names bound to its fields, in field order.
pub struct Conversion {
    pub variant: String,
    pub shape: Shape,
    pub binders: Vec<String>,
}

/// All that is generated for one variant.
pub struct Artifact {
    pub product: ProductType,
    pub conversion: Conversion,
    /// The marker traits implemented for the product type.
    pub markers: Vec<String>,
}

/// All that is generated for one item.
pub struct Plan {
    pub namespace: Option<String>,
    pub artifacts: Vec<Artifact>,
}

pub open spec fn opt_view(s: Option<String>) -> Option<Seq<char>> {
    match s {
        Some(s) => Some(s@),
        None => None,
    }
}

pub open spec fn kept(v: Variant) -> bool {
    !marked_skip(v.attrs@)
}

/// The variants that are not marked skip, in order.
pub open spec fn retained(vs: Seq<Variant>) -> Seq<Variant> {
    vs.filter(|v: Variant| kept(v))
}

pub proof fn lemma_retained_member(vs: Seq<Variant>, i: int)
    requires
        0 <= i < retained(vs).len(),
    ensures
        kept(retained(vs)[i]),
        vs.contains(retained(vs)[i]),
{
    vs.lemma_filter_pred(|v: Variant| kept(v), i);
    assert(retained(vs).contains(retained(vs)[i]));
    vs.lemma_filter_contains_rev(|v: Variant| kept(v), retained(vs)[i]);
}

pub proof fn lemma_retained_push(vs: Seq<Variant>, v: Variant)
    ensures
        retained(vs.push(v)) == if kept(v) {
            retained(vs).push(v)
        } else {
            retained(vs)
        },
{
    vs.lemma_filter_push(v, |v: Variant| kept(v));
}

/// `#[derive(C1, C2, ...)]`
pub open spec fn derive_text(caps: Seq<Seq<char>>) -> Seq<char> {
    "#[derive("@ + join(caps) + ")]"@
}

pub open spec fn bracketed(t: Seq<char>) -> Seq<char> {
    "#["@ + t + "]"@
}

/// The item-level capability bundle as one attribute, when there is one.
pub open spec fn type_bundle(d: DirectivesView) -> Seq<Seq<char>> {
    match d.capabilities {
        Some(caps) => seq![derive_text(caps)],
        None => Seq::empty(),
    }
}

/// The attributes of the type generated for `v`: those copied from the variant, the
/// item-level capability bundle, the variant's own bundles, then its other `evt`
/// parameters, each as an attribute of its own.
pub open spec fn product_attrs(d: DirectivesView, v: Variant) -> Seq<Seq<char>> {
    copied_texts(v.attrs@) + type_bundle(d) + param_texts(directive_params(v.attrs@), true).map_values(
        |t: Seq<char>| bracketed(t),
    ) + param_texts(directive_params(v.attrs@), false).map_values(|t: Seq<char>| bracketed(t))
}

pub open spec fn field_mirrors(out: ProductField, f: Field) -> bool {
    &&& opt_view(out.name) == opt_view(f.name)
    &&& out.ty@ == f.ty@
    &&& texts(out.attrs@) == copied_texts(f.attrs@)
}

/// The type generated for `v` mirrors it: same name and shape, and field by field the
/// same names and types, in the same order.
pub open spec fn product_mirrors(p: ProductType, d: DirectivesView, v: Variant) -> bool {
    &&& p.name@ == v.name@
    &&& p.shape == v.shape
    &&& texts(p.attrs@) == product_attrs(d, v)
    &&& p.fields@.len() == v.fields@.len()
    &&& forall|i: int| 0 <= i < v.fields@.len() ==> field_mirrors(#[trigger] p.fields@[i], v.fields@[i])
}

/// The names the conversions bind to the fields of `v`: the field names of a named
/// variant, `_0`, `_1`, ... otherwise.
pub open spec fn binder_names(v: Variant) -> Seq<Seq<char>> {
    if v.shape == Shape::Named {
        v.fields@.map_values(|f: Field| f.name->Some_0@)
    } else {
        Seq::new(v.fields@.len(), |i: int| binder(i as nat))
    }
}

pub open spec fn conversion_of(c: Conversion, v: Variant) -> bool {
    &&& c.variant@ == v.name@
    &&& c.shape == v.shape
    &&& texts(c.binders@) == binder_names(v)
}

pub open spec fn markers_of(d: DirectivesView) -> Seq<Seq<char>> {
    match d.markers {
        Some(m) => m,
        None => Seq::empty(),
    }
}

/// What is generated for `v` under the item-level directives `d`.
pub open spec fn artifact_of(a: Artifact, d: DirectivesView, v: Variant) -> bool {
    &&& product_mirrors(a.product, d, v)
    &&& conversion_of(a.conversion, v)
    &&& texts(a.markers@) == markers_of(d)
}

/// Why nothing is generated for the item, if anything stops it.
pub open spec fn refusal(item: Item) -> Option<GenerationError> {
    if !(item.data is Enum) {
        Some(GenerationError::NotAnEnum)
    } else {
        match directives_of(item.attrs@) {
            Err(e) => Some(GenerationError::Directive(e)),
            Ok(_) => None,
        }
    }
}

/// The plan for an item that is not refused: its namespace, and one artifact for each
/// kept variant, in order.
pub open spec fn plan_of(p: Plan, item: Item) -> bool {
    &&& item.data is Enum
    &&& directives_of(item.attrs@) is Ok
    &&& opt_view(p.namespace) == directives_of(item.attrs@)->Ok_0.namespace
    &&& p.artifacts@.len() == retained(item.data->Enum_0@).len()
    &&& forall|i: int|
        0 <= i < p.artifacts@.len() ==> artifact_of(
            #[trigger] p.artifacts@[i],
            directives_of(item.attrs@)->Ok_0,
            retained(item.data->Enum_0@)[i],
        )
}

fn clone_opt(s: &Option<String>) -> (r: Option<String>)
    ensures
        opt_view(r) == opt_view(*s),
{
    match s {
        Some(s) => Some(s.clone()),
        None => None,
    }
}

fn clone_texts(v: &Vec<String>) -> (r: Vec<String>)
    ensures
        texts(r@) == texts(v@),
{
    let mut out: Vec<String> = Vec::new();
    let mut i: usize = 0;
    while i < v.len()
        invariant
            i <= v@.len(),
            out@.len() == i,
            forall|k: int| 0 <= k < i ==> (#[trigger] out@[k])@ == v@[k]@,
        decreases v@.len() - i,
    {
        out.push(v[i].clone());
        i = i + 1;
    }
    assert(texts(out@) =~= texts(v@));
    out
}

/// The attribute that derives the capabilities.
pub fn derive_attribute(caps: &Vec<String>) -> (r: String)
    ensures
        r@ == derive_text(texts(caps@)),
{
    let mut s = String::from_str("#[derive(");
    let j = join_text(caps);
    s.append(j.as_str());
    s.append(")]");
    s
}

fn bracket(t: &String) -> (r: String)
    ensures
        r@ == bracketed(t@),
{
    let mut s = String::from_str("#[");
    s.append(t.as_str());
    s.append("]");
    s
}

/// Appends each text as an attribute.
fn push_bracketed(out: &mut Vec<String>, ts: &Vec<String>)
    ensures
        texts(final(out)@) == texts(old(out)@) + texts(ts@).map_values(|t: Seq<char>| bracketed(t)),
{
    let ghost start = texts(out@);
    let mut i: usize = 0;
    while i < ts.len()
        invariant
            i <= ts@.len(),
            texts(out@) =~= start + texts(ts@.take(i as int)).map_values(|t: Seq<char>| bracketed(t)),
        decreases ts@.len() - i,
    {
        let b = bracket(&ts[i]);
        assert(texts(out@.push(b)) =~= texts(out@).push(b@));
        out.push(b);
        i = i + 1;
        assert(texts(ts@.take(i as int)).map_values(|t: Seq<char>| bracketed(t)) =~= texts(
            ts@.take(i - 1 as int),
        ).map_values(|t: Seq<char>| bracketed(t)).push(bracketed(ts@[i - 1 as int]@)));
    }
    assert(ts@.take(i as int) =~= ts@);
}

/// The type generated for a variant.
pub fn product_type(d: &Directives, v: &Variant) -> (r: ProductType)
    ensures
        product_mirrors(r, d@, *v),
{
    let mut attrs = copied_attributes(&v.attrs);
    if let Some(caps) = &d.capabilities {
        let t = derive_attribute(caps);
        assert(texts(attrs@.push(t)) =~= texts(attrs@).push(t@));
        attrs.push(t);
    }
    assert(texts(attrs@) =~= copied_texts(v.attrs@) + type_bundle(d@));
    let bundles = variant_param_texts(&v.attrs, true);
    push_bracketed(&mut attrs, &bundles);
    let others = variant_param_texts(&v.attrs, false);
    push_bracketed(&mut attrs, &others);
    let mut fields: Vec<ProductField> = Vec::new();
    let mut i: usize = 0;
    while i < v.fields.len()
        invariant
            i <= v.fields@.len(),
            fields@.len() == i,
            forall|k: int| 0 <= k < i ==> field_mirrors(#[trigger] fields@[k], v.fields@[k]),
        decreases v.fields@.len() - i,
    {
        let f = &v.fields[i];
        fields.push(
            ProductField { name: clone_opt(&f.name), ty: f.ty.clone(), attrs: copied_attributes(&f.attrs) },
        );
        i = i + 1;
    }
    ProductType { name: v.name.clone(), shape: v.shape, attrs, fields }
}

/// The conversions for a variant.
pub fn conversion(v: &Variant) -> (r: Conversion)
    requires
        forall|k: int| 0 <= k < v.fields@.len() ==> field_fits(#[trigger] v.fields@[k], v.shape),
    ensures
        conversion_of(r, *v),
{
    let mut binders: Vec<String> = Vec::new();
    let mut i: usize = 0;
    while i < v.fields.len()
        invariant
            i <= v.fields@.len(),
            forall|k: int| 0 <= k < v.fields@.len() ==> field_fits(#[trigger] v.fields@[k], v.shape),
            binders@.len() == i,
            forall|k: int| 0 <= k < i ==> (#[trigger] binders@[k])@ == binder_names(*v)[k],
        decreases v.fields@.len() - i,
    {
        let b = match &v.fields[i].name {
            Some(n) => n.clone(),
            None => binder_text(i),
        };
        binders.push(b);
        i = i + 1;
    }
    assert(texts(binders@) =~= binder_names(*v));
    Conversion { variant: v.name.clone(), shape: v.shape, binders }
}

/// The variants of the item, when it is an enum.
pub fn data_enum(item: &Item) -> (r: Option<&Vec<Variant>>)
    ensures
        match item.data {
            Data::Enum(vs) => r == Some(&vs),
            _ => r is None,
        },
{
    match &item.data {
        Data::Enum(vs) => Some(vs),
        _ => None,
    }
}

/// Plans the generation for an item: refused when it is not an enum or its
/// directives are malformed; otherwise one artifact for each variant not marked skip.
pub fn plan(item: &Item) -> (r: Result<Plan, GenerationError>)
    requires
        crate::generate::item_wf(*item),
    ensures
        match r {
            Ok(p) => refusal(*item) is None && plan_of(p, *item),
            Err(e) => refusal(*item) == Some(e),
        },
{
    let vs = match data_enum(item) {
        Some(vs) => vs,
        None => return Err(GenerationError::NotAnEnum),
    };
    let d = match parse_directives(&item.attrs) {
        Ok(d) => d,
        Err(e) => return Err(GenerationError::Directive(e)),
    };
    let markers = match &d.markers {
        Some(m) => clone_texts(m),
        None => Vec::new(),
    };
    assert(texts(markers@) =~= markers_of(d@));
    let mut artifacts: Vec<Artifact> = Vec::new();
    let mut i: usize = 0;
    while i < vs.len()
        invariant
            i <= vs@.len(),
            item.data == Data::Enum(*vs),
            forall|k: int| 0 <= k < vs@.len() ==> crate::model::variant_wf(#[trigger] vs@[k]),
            directives_of(item.attrs@) == Ok::<DirectivesView, DirectiveError>(d@),
            texts(markers@) == markers_of(d@),
            artifacts@.len() == retained(vs@.take(i as int)).len(),
            forall|k: int|
                0 <= k < artifacts@.len() ==> artifact_of(
                    #[trigger] artifacts@[k],
                    d@,
                    retained(vs@.take(i as int))[k],
                ),
        decreases vs@.len() - i,
    {
        let v = &vs[i];
        assert(vs@.take(i + 1 as int) =~= vs@.take(i as int).push(vs@[i as int]));
        proof { lemma_retained_push(vs@.take(i as int), vs@[i as int]); }
        if !is_skipped(&v.attrs) {
            let a = Artifact {
                product: product_type(&d, v),
                conversion: conversion(v),
                markers: clone_texts(&markers),
            };
            artifacts.push(a);
        }
        i = i + 1;
    }
    assert(vs@.take(i as int) =~= vs@);
    Ok(Plan { namespace: clone_opt(&d.namespace), artifacts })
}

} // verus!
