//! Writing a plan out as Rust source text.
use vstd::prelude::*;
use crate::directives::texts;
use crate::model::{Item, Shape};
use crate::plan::{Artifact, Conversion, Plan, ProductField, ProductType};

verus! {

/// Each text on a line of its own.
pub open spec fn lines(ts: Seq<Seq<char>>) -> Seq<char>
    decreases ts.len(),
{
    if ts.len() == 0 {
        Seq::empty()
    } else {
        lines(ts.drop_last()) + ts.last() + "\n"@
    }
}

/// Each text followed by `" , "`.
pub open spec fn listed(ts: Seq<Seq<char>>) -> Seq<char>
    decreases ts.len(),
{
    if ts.len() == 0 {
        Seq::empty()
    } else {
        listed(ts.drop_last()) + ts.last() + " , "@
    }
}

pub open spec fn field_text(vis: Seq<char>, f: ProductField) -> Seq<char> {
    lines(texts(f.attrs@)) + vis + " "@ + match f.name {
        Some(n) => n@ + " : "@,
        None => Seq::empty(),
    } + f.ty@ + " , "@
}

pub open spec fn fields_text(vis: Seq<char>, fs: Seq<ProductField>) -> Seq<char>
    decreases fs.len(),
{
    if fs.len() == 0 {
        Seq::empty()
    } else {
        fields_text(vis, fs.drop_last()) + field_text(vis, fs.last())
    }
}

/// The declaration of a generated type: its attributes, the item's visibility and
/// generic parameters, and fields as visible as the type.
pub open spec fn struct_text(item: Item, p: ProductType) -> Seq<char> {
    let head = lines(texts(p.attrs@)) + item.vis@ + " struct "@ + p.name@ + " "@
        + item.generics.impl_params@ + " "@;
    let body = fields_text(item.vis@, p.fields@);
    match p.shape {
        Shape::Unit => head + item.generics.where_clause@ + " ;"@,
        Shape::Unnamed => head + "( "@ + body + ") "@ + item.generics.where_clause@ + " ;"@,
        Shape::Named => head + item.generics.where_clause@ + " { "@ + body + "}"@,
    }
}

/// The pattern, and the expression, that name the fields by their binders.
pub open spec fn form_text(c: Conversion) -> Seq<char> {
    match c.shape {
        Shape::Unit => Seq::empty(),
        Shape::Unnamed => "( "@ + listed(texts(c.binders@)) + ")"@,
        Shape::Named => "{ "@ + listed(texts(c.binders@)) + "}"@,
    }
}

/// `impl<...> Trait< Arg<...> > for SelfTy<...> where ...`
pub open spec fn impl_head(item: Item, tr: Seq<char>, arg: Seq<char>, self_ty: Seq<char>) -> Seq<char> {
    let tg = item.generics.type_params@;
    "impl "@ + item.generics.impl_params@ + tr + arg + " "@ + tg + " > for "@ + self_ty + " "@ + tg
        + " "@ + item.generics.where_clause@
}

pub open spec fn from_sig(item: Item, v: Seq<char>) -> Seq<char> {
    " { fn from(variant_struct: "@ + v + " "@ + item.generics.type_params@ + ") -> Self { "@
}

pub open spec fn destructure_text(c: Conversion) -> Seq<char> {
    match c.shape {
        Shape::Unit => Seq::empty(),
        _ => "let "@ + c.variant@ + " "@ + form_text(c) + " = variant_struct; "@,
    }
}

pub open spec fn rebuild_text(item: Item, c: Conversion) -> Seq<char> {
    item.name@ + "::"@ + c.variant@ + " "@ + form_text(c) + " } }"@
}

/// `From<generated type> for enum`: destructures and rebuilds the variant.
pub open spec fn from_text(item: Item, c: Conversion) -> Seq<char> {
    impl_head(item, " core::convert::From< "@, c.variant@, item.name@) + from_sig(item, c.variant@)
        + destructure_text(c) + rebuild_text(item, c)
}

pub open spec fn try_from_sig(item: Item) -> Seq<char> {
    let e = item.name@;
    let tg = item.generics.type_params@;
    " { type Error = "@ + e + " "@ + tg + "; fn try_from(enum_variant: "@ + e + " "@ + tg
        + ") -> Result<Self, Self::Error> { "@
}

pub open spec fn matching_text(item: Item, c: Conversion) -> Seq<char> {
    "if let "@ + item.name@ + "::"@ + c.variant@ + " "@ + form_text(c)
        + " = enum_variant { core::result::Result::Ok("@ + c.variant@ + " "@ + form_text(c)
        + ") } else { core::result::Result::Err(enum_variant) } } }"@
}

/// `TryFrom<enum> for generated type`: the payload on a match, the enum value
/// itself otherwise.
pub open spec fn try_from_text(item: Item, c: Conversion) -> Seq<char> {
    impl_head(item, " core::convert::TryFrom< "@, item.name@, c.variant@) + try_from_sig(item)
        + matching_text(item, c)
}

/// An empty implementation of a marker trait for a generated type.
pub open spec fn marker_text(item: Item, m: Seq<char>, ty: Seq<char>) -> Seq<char> {
    "impl "@ + item.generics.impl_params@ + " "@ + m + " for "@ + ty + " "@
        + item.generics.type_params@ + " "@ + item.generics.where_clause@ + " { } "@
}

pub open spec fn markers_text(item: Item, ms: Seq<Seq<char>>, ty: Seq<char>) -> Seq<char>
    decreases ms.len(),
{
    if ms.len() == 0 {
        Seq::empty()
    } else {
        markers_text(item, ms.drop_last(), ty) + marker_text(item, ms.last(), ty)
    }
}

pub open spec fn artifact_text(item: Item, a: Artifact) -> Seq<char> {
    struct_text(item, a.product) + " "@ + from_text(item, a.conversion) + " "@ + try_from_text(
        item,
        a.conversion,
    ) + " "@ + markers_text(item, texts(a.markers@), a.product.name@)
}

pub open spec fn artifacts_text(item: Item, arts: Seq<Artifact>) -> Seq<char>
    decreases arts.len(),
{
    if arts.len() == 0 {
        Seq::empty()
    } else {
        artifacts_text(item, arts.drop_last()) + artifact_text(item, arts.last()) + " "@
    }
}

/// The whole output: the artifacts, inside `mod name { use super::Enum; ... }` when a
/// namespace was given.
pub open spec fn output_text(item: Item, p: Plan) -> Seq<char> {
    match p.namespace {
        Some(n) => item.vis@ + " mod "@ + n@ + " { use super::"@ + item.name@ + "; "@
            + artifacts_text(item, p.artifacts@) + "}"@,
        None => artifacts_text(item, p.artifacts@),
    }
}

fn put_lines(out: &mut String, ts: &Vec<String>)
    ensures
        final(out)@ == old(out)@ + lines(texts(ts@)),
{
    let ghost start = out@;
    let mut i: usize = 0;
    while i < ts.len()
        invariant
            i <= ts@.len(),
            out@ == start + lines(texts(ts@).take(i as int)),
        decreases ts@.len() - i,
    {
        assert(texts(ts@).take(i + 1 as int).drop_last() =~= texts(ts@).take(i as int));
        out.append(ts[i].as_str());
        out.append("\n");
        i = i + 1;
        assert(out@ =~= start + lines(texts(ts@).take(i as int)));
    }
    assert(texts(ts@).take(i as int) =~= texts(ts@));
}

fn put_listed(out: &mut String, ts: &Vec<String>)
    ensures
        final(out)@ == old(out)@ + listed(texts(ts@)),
{
    let ghost start = out@;
    let mut i: usize = 0;
    while i < ts.len()
        invariant
            i <= ts@.len(),
            out@ == start + listed(texts(ts@).take(i as int)),
        decreases ts@.len() - i,
    {
        assert(texts(ts@).take(i + 1 as int).drop_last() =~= texts(ts@).take(i as int));
        out.append(ts[i].as_str());
        out.append(" , ");
        i = i + 1;
        assert(out@ =~= start + listed(texts(ts@).take(i as int)));
    }
    assert(texts(ts@).take(i as int) =~= texts(ts@));
}

fn put_field(out: &mut String, vis: &String, f: &ProductField)
    ensures
        final(out)@ == old(out)@ + field_text(vis@, *f),
{
    let ghost start = out@;
    put_lines(out, &f.attrs);
    out.append(vis.as_str());
    out.append(" ");
    if let Some(n) = &f.name {
        out.append(n.as_str());
        out.append(" : ");
    }
    out.append(f.ty.as_str());
    out.append(" , ");
    assert(out@ =~= start + field_text(vis@, *f));
}

fn put_fields(out: &mut String, vis: &String, fs: &Vec<ProductField>)
    ensures
        final(out)@ == old(out)@ + fields_text(vis@, fs@),
{
    let ghost start = out@;
    let mut i: usize = 0;
    while i < fs.len()
        invariant
            i <= fs@.len(),
            out@ == start + fields_text(vis@, fs@.take(i as int)),
        decreases fs@.len() - i,
    {
        assert(fs@.take(i + 1 as int).drop_last() =~= fs@.take(i as int));
        assert(fs@.take(i + 1 as int).last() == fs@[i as int]);
        put_field(out, vis, &fs[i]);
        i = i + 1;
        assert(out@ =~= start + fields_text(vis@, fs@.take(i as int)));
    }
    assert(fs@.take(i as int) =~= fs@);
}

fn put_struct(out: &mut String, item: &Item, p: &ProductType)
    ensures
        final(out)@ == old(out)@ + struct_text(*item, *p),
{
    let ghost start = out@;
    put_lines(out, &p.attrs);
    out.append(item.vis.as_str());
    out.append(" struct ");
    out.append(p.name.as_str());
    out.append(" ");
    out.append(item.generics.impl_params.as_str());
    out.append(" ");
    let ghost head = lines(texts(p.attrs@)) + item.vis@ + " struct "@ + p.name@ + " "@
        + item.generics.impl_params@ + " "@;
    assert(out@ =~= start + head);
    match p.shape {
        Shape::Unit => {
            out.append(item.generics.where_clause.as_str());
            out.append(" ;");
        },
        Shape::Unnamed => {
            out.append("( ");
            put_fields(out, &item.vis, &p.fields);
            out.append(") ");
            out.append(item.generics.where_clause.as_str());
            out.append(" ;");
        },
        Shape::Named => {
            out.append(item.generics.where_clause.as_str());
            out.append(" { ");
            put_fields(out, &item.vis, &p.fields);
            out.append("}");
        },
    }
    assert(out@ =~= start + struct_text(*item, *p));
}

fn put_form(out: &mut String, c: &Conversion)
    ensures
        final(out)@ == old(out)@ + form_text(*c),
{
    let ghost start = out@;
    match c.shape {
        Shape::Unit => {},
        Shape::Unnamed => {
            out.append("( ");
            put_listed(out, &c.binders);
            out.append(")");
        },
        Shape::Named => {
            out.append("{ ");
            put_listed(out, &c.binders);
            out.append("}");
        },
    }
    assert(out@ =~= start + form_text(*c));
}

fn put_impl_head(out: &mut String, item: &Item, tr: &str, arg: &String, self_ty: &String)
    ensures
        final(out)@ == old(out)@ + impl_head(*item, tr@, arg@, self_ty@),
{
    let ghost start = out@;
    let tg = item.generics.type_params.as_str();
    out.append("impl ");
    out.append(item.generics.impl_params.as_str());
    out.append(tr);
    out.append(arg.as_str());
    out.append(" ");
    out.append(tg);
    assert(out@ =~= start + ("impl "@ + item.generics.impl_params@ + tr@ + arg@ + " "@ + tg@));
    out.append(" > for ");
    out.append(self_ty.as_str());
    out.append(" ");
    out.append(tg);
    out.append(" ");
    out.append(item.generics.where_clause.as_str());
    assert(out@ =~= start + impl_head(*item, tr@, arg@, self_ty@));
}

fn put_from(out: &mut String, item: &Item, c: &Conversion)
    ensures
        final(out)@ == old(out)@ + from_text(*item, *c),
{
    let ghost start = out@;
    put_impl_head(out, item, " core::convert::From< ", &c.variant, &item.name);
    let ghost s1 = out@;
    out.append(" { fn from(variant_struct: ");
    out.append(c.variant.as_str());
    out.append(" ");
    out.append(item.generics.type_params.as_str());
    out.append(") -> Self { ");
    assert(out@ =~= s1 + from_sig(*item, c.variant@));
    let ghost s2 = out@;
    match c.shape {
        Shape::Unit => {},
        _ => {
            out.append("let ");
            out.append(c.variant.as_str());
            out.append(" ");
            put_form(out, c);
            out.append(" = variant_struct; ");
        },
    }
    assert(out@ =~= s2 + destructure_text(*c));
    let ghost s3 = out@;
    out.append(item.name.as_str());
    out.append("::");
    out.append(c.variant.as_str());
    out.append(" ");
    put_form(out, c);
    out.append(" } }");
    assert(out@ =~= s3 + rebuild_text(*item, *c));
    assert(out@ =~= start + from_text(*item, *c));
}

fn put_try_from(out: &mut String, item: &Item, c: &Conversion)
    ensures
        final(out)@ == old(out)@ + try_from_text(*item, *c),
{
    let ghost start = out@;
    let tg = item.generics.type_params.as_str();
    let e = item.name.as_str();
    put_impl_head(out, item, " core::convert::TryFrom< ", &item.name, &c.variant);
    let ghost s1 = out@;
    out.append(" { type Error = ");
    out.append(e);
    out.append(" ");
    out.append(tg);
    out.append("; fn try_from(enum_variant: ");
    out.append(e);
    out.append(" ");
    out.append(tg);
    out.append(") -> Result<Self, Self::Error> { ");
    assert(out@ =~= s1 + try_from_sig(*item));
    let ghost s2 = out@;
    out.append("if let ");
    out.append(e);
    out.append("::");
    out.append(c.variant.as_str());
    out.append(" ");
    put_form(out, c);
    let ghost s3 = out@;
    assert(s3 =~= s2 + ("if let "@ + item.name@ + "::"@ + c.variant@ + " "@ + form_text(*c)));
    out.append(" = enum_variant { core::result::Result::Ok(");
    out.append(c.variant.as_str());
    out.append(" ");
    put_form(out, c);
    out.append(") } else { core::result::Result::Err(enum_variant) } } }");
    assert(out@ =~= s2 + matching_text(*item, *c));
    assert(out@ =~= start + try_from_text(*item, *c));
}

fn put_markers(out: &mut String, item: &Item, ms: &Vec<String>, ty: &String)
    ensures
        final(out)@ == old(out)@ + markers_text(*item, texts(ms@), ty@),
{
    let ghost start = out@;
    let mut i: usize = 0;
    while i < ms.len()
        invariant
            i <= ms@.len(),
            out@ == start + markers_text(*item, texts(ms@).take(i as int), ty@),
        decreases ms@.len() - i,
    {
        assert(texts(ms@).take(i + 1 as int).drop_last() =~= texts(ms@).take(i as int));
        let ghost before = out@;
        out.append("impl ");
        out.append(item.generics.impl_params.as_str());
        out.append(" ");
        out.append(ms[i].as_str());
        out.append(" for ");
        out.append(ty.as_str());
        out.append(" ");
        out.append(item.generics.type_params.as_str());
        out.append(" ");
        out.append(item.generics.where_clause.as_str());
        out.append(" { } ");
        assert(out@ =~= before + marker_text(*item, ms@[i as int]@, ty@));
        i = i + 1;
        assert(out@ =~= start + markers_text(*item, texts(ms@).take(i as int), ty@));
    }
    assert(texts(ms@).take(i as int) =~= texts(ms@));
}

fn put_artifact(out: &mut String, item: &Item, a: &Artifact)
    ensures
        final(out)@ == old(out)@ + artifact_text(*item, *a),
{
    let ghost start = out@;
    put_struct(out, item, &a.product);
    out.append(" ");
    put_from(out, item, &a.conversion);
    out.append(" ");
    put_try_from(out, item, &a.conversion);
    out.append(" ");
    put_markers(out, item, &a.markers, &a.product.name);
    assert(out@ =~= start + artifact_text(*item, *a));
}

/// Writes the plan out as Rust source text: for each artifact the type declaration,
/// its `From` and `TryFrom` implementations and its marker implementations, all
/// wrapped in a module when the plan names one.
pub fn render(item: &Item, p: &Plan) -> (r: String)
    ensures
        r@ == output_text(*item, *p),
{
    let mut out = String::new();
    if let Some(n) = &p.namespace {
        out.append(item.vis.as_str());
        out.append(" mod ");
        out.append(n.as_str());
        out.append(" { use super::");
        out.append(item.name.as_str());
        out.append("; ");
    }
    let ghost start = out@;
    let mut i: usize = 0;
    while i < p.artifacts.len()
        invariant
            i <= p.artifacts@.len(),
            out@ == start + artifacts_text(*item, p.artifacts@.take(i as int)),
        decreases p.artifacts@.len() - i,
    {
        assert(p.artifacts@.take(i + 1 as int).drop_last() =~= p.artifacts@.take(i as int));
        assert(p.artifacts@.take(i + 1 as int).last() == p.artifacts@[i as int]);
        put_artifact(&mut out, item, &p.artifacts[i]);
        out.append(" ");
        i = i + 1;
        assert(out@ =~= start + artifacts_text(*item, p.artifacts@.take(i as int)));
    }
    assert(p.artifacts@.take(i as int) =~= p.artifacts@);
    if p.namespace.is_some() {
        out.append("}");
    }
    assert(out@ =~= output_text(*item, *p));
    out
}

} // verus!
