//! The input of the generator: an item definition as the front end hands it over,
//! with attributes, variants and fields held as plain values.
use vstd::prelude::*;

verus! {

/// An element of a nested list, such as `Clone` in `derive(Clone)`.
pub enum ListArg {
    /// A bare path, as written (`Clone`, `core::fmt::Debug`).
    Path(String),
    /// Any other element: a literal, a nested list, a key-value pair.
    Other,
}

/// The literal on the right of `key = literal`.
pub enum LitValue {
    /// A string literal, with the value it denotes.
    Str(String),
    /// Any other literal.
    Other,
}

/// The form of one parameter inside an attribute's parentheses.
pub enum ParamKind {
    /// `skip`
    Path(String),
    /// `derive(Clone, Debug)`
    List(String, Vec<ListArg>),
    /// `module = "name"`
    NameValue(String, LitValue),
    /// A bare literal.
    Literal,
}

/// One parameter inside an attribute's parentheses, with its source text.
pub struct Param {
    pub text: String,
    pub kind: ParamKind,
}

/// An attribute: its path, its full text (`#[doc = "..."]`), and, when it has the
/// list form `#[path(p1, p2)]`, its parameters.
pub struct Attribute {
    pub path: String,
    pub text: String,
    pub params: Option<Vec<Param>>,
}

/// A field of a variant. `name` is present exactly for named fields.
pub struct Field {
    pub name: Option<String>,
    pub ty: String,
    pub attrs: Vec<Attribute>,
}

/// The shape of a variant's payload.
#[derive(PartialEq, Eq, Structural, Clone, Copy)]
pub enum Shape {
    Unit,
    Unnamed,
    Named,
}

/// One variant of the sum type.
pub struct Variant {
    pub name: String,
    pub shape: Shape,
    pub fields: Vec<Field>,
    pub attrs: Vec<Attribute>,
}

/// The generic parameters of the item, split as they are written in an impl header
/// (`<T: Clone>`), where the type is named (`<T>`), and its where clause; each is
/// empty when the item has no generics.
pub struct Generics {
    pub impl_params: String,
    pub type_params: String,
    pub where_clause: String,
}

/// The body of the item.
pub enum Data {
    Enum(Vec<Variant>),
    Struct,
    Union,
}

/// An item definition handed to the generator.
pub struct Item {
    pub name: String,
    pub vis: String,
    pub generics: Generics,
    pub attrs: Vec<Attribute>,
    pub data: Data,
}

/// A field is well formed for a shape when it carries a name exactly for named fields.
pub open spec fn field_fits(f: Field, shape: Shape) -> bool {
    f.name is Some <==> shape == Shape::Named
}

/// A variant is well formed: a unit variant has no fields, and each field fits the
/// shape.
pub open spec fn variant_wf(v: Variant) -> bool {
    &&& (v.shape == Shape::Unit ==> v.fields@.len() == 0)
    &&& forall|i: int| 0 <= i < v.fields@.len() ==> field_fits(#[trigger] v.fields@[i], v.shape)
}

/// The named fields of a variant carry distinct names, as the language demands.
pub open spec fn field_names_distinct(v: Variant) -> bool {
    forall|i: int, j: int|
        0 <= i < v.fields@.len() && 0 <= j < v.fields@.len() && i != j && v.shape == Shape::Named
            ==> (#[trigger] v.fields@[i]).name->Some_0@ != (#[trigger] v.fields@[j]).name->Some_0@
}

/// Variants carry distinct names.
pub open spec fn variants_distinct(vs: Seq<Variant>) -> bool {
    forall|i: int, j: int|
        0 <= i < vs.len() && 0 <= j < vs.len() && i != j ==> (#[trigger] vs[i]).name@ != (#[trigger] vs[j]).name@
}

} // verus!
