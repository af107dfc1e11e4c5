use std::str::FromStr;

use enum_variant_type::directives::DirectiveError;
use enum_variant_type::generate::enum_variant_type_impl;
use enum_variant_type::model::{
    Attribute, Data, Field, Generics, Item, ListArg, LitValue, Param, ParamKind, Shape, Variant,
};
use enum_variant_type::plan::GenerationError;

fn s(x: &str) -> String {
    x.to_string()
}

fn normalized(text: &str) -> String {
    proc_macro2::TokenStream::from_str(text).unwrap().to_string()
}

fn doc(text: &str) -> Attribute {
    Attribute { path: s("doc"), text: format!("///{}", text), params: None }
}

fn evt(params: Vec<Param>) -> Attribute {
    let inner: Vec<String> = params.iter().map(|p| p.text.clone()).collect();
    Attribute { path: s("evt"), text: format!("#[evt({})]", inner.join(", ")), params: Some(params) }
}

fn list(key: &str, paths: &[&str]) -> Param {
    Param {
        text: format!("{}({})", key, paths.join(", ")),
        kind: ParamKind::List(s(key), paths.iter().map(|p| ListArg::Path(s(p))).collect()),
    }
}

fn word(w: &str) -> Param {
    Param { text: s(w), kind: ParamKind::Path(s(w)) }
}

fn module(name: &str) -> Param {
    Param {
        text: format!("module = {:?}", name),
        kind: ParamKind::NameValue(s("module"), LitValue::Str(s(name))),
    }
}

fn unit(name: &str, attrs: Vec<Attribute>) -> Variant {
    Variant { name: s(name), shape: Shape::Unit, fields: vec![], attrs }
}

fn field(name: Option<&str>, ty: &str) -> Field {
    Field { name: name.map(s), ty: s(ty), attrs: vec![] }
}

fn tuple(name: &str, tys: &[&str], attrs: Vec<Attribute>) -> Variant {
    Variant { name: s(name), shape: Shape::Unnamed, fields: tys.iter().map(|t| field(None, t)).collect(), attrs }
}

fn named(name: &str, fields: &[(&str, &str)], attrs: Vec<Attribute>) -> Variant {
    Variant {
        name: s(name),
        shape: Shape::Named,
        fields: fields.iter().map(|(n, t)| field(Some(n), t)).collect(),
        attrs,
    }
}

fn no_generics() -> Generics {
    Generics { impl_params: s(""), type_params: s(""), where_clause: s("") }
}

fn my_enum(attrs: Vec<Attribute>, variants: Vec<Variant>) -> Item {
    Item { name: s("MyEnum"), vis: s("pub"), generics: no_generics(), attrs, data: Data::Enum(variants) }
}

fn generated(item: &Item) -> String {
    normalized(&enum_variant_type_impl(item).unwrap())
}

fn unit_impls(name: &str) -> String {
    format!(
        "impl core::convert::From<{n}> for MyEnum {{
            fn from(variant_struct: {n}) -> Self {{
                MyEnum::{n}
            }}
        }}

        impl core::convert::TryFrom<MyEnum> for {n} {{
            type Error = MyEnum;
            fn try_from(enum_variant: MyEnum) -> Result<Self, Self::Error> {{
                if let MyEnum::{n} = enum_variant {{
                    core::result::Result::Ok({n})
                }} else {{
                    core::result::Result::Err(enum_variant)
                }}
            }}
        }}",
        n = name
    )
}

#[test]
fn generates_correct_tokens_for_basic_enum() {
    let item = my_enum(
        vec![],
        vec![
            unit("Unit", vec![doc(" Unit variant."), evt(vec![list("derive", &["Clone", "Copy", "Debug", "PartialEq"])])]),
            tuple("Tuple", &["u32", "u64"], vec![doc(" Tuple variant."), evt(vec![list("derive", &["Debug"])])]),
            named("Struct", &[("field_0", "u32"), ("field_1", "u64")], vec![doc(" Struct variant.")]),
        ],
    );
    let expected = format!(
        "/// Unit variant.
        #[derive(Clone, Copy, Debug, PartialEq)]
        pub struct Unit;

        {}

        /// Tuple variant.
        #[derive(Debug)]
        pub struct Tuple(pub u32, pub u64,);

        impl core::convert::From<Tuple> for MyEnum {{
            fn from(variant_struct: Tuple) -> Self {{
                let Tuple(_0, _1,) = variant_struct;
                MyEnum::Tuple(_0, _1,)
            }}
        }}

        impl core::convert::TryFrom<MyEnum> for Tuple {{
            type Error = MyEnum;
            fn try_from(enum_variant: MyEnum) -> Result<Self, Self::Error> {{
                if let MyEnum::Tuple(_0, _1,) = enum_variant {{
                    core::result::Result::Ok(Tuple(_0, _1,))
                }} else {{
                    core::result::Result::Err(enum_variant)
                }}
            }}
        }}

        /// Struct variant.
        pub struct Struct {{
            pub field_0: u32,
            pub field_1: u64,
        }}

        impl core::convert::From<Struct> for MyEnum {{
            fn from(variant_struct: Struct) -> Self {{
                let Struct {{ field_0, field_1, }} = variant_struct;
                MyEnum::Struct {{ field_0, field_1, }}
            }}
        }}

        impl core::convert::TryFrom<MyEnum> for Struct {{
            type Error = MyEnum;
            fn try_from(enum_variant: MyEnum) -> Result<Self, Self::Error> {{
                if let MyEnum::Struct {{ field_0, field_1, }} = enum_variant {{
                    core::result::Result::Ok(Struct {{ field_0, field_1, }})
                }} else {{
                    core::result::Result::Err(enum_variant)
                }}
            }}
        }}",
        unit_impls("Unit")
    );
    assert_eq!(normalized(&expected), generated(&item));
}

#[test]
fn skips_variants_marked_with_evt_skip() {
    let item = my_enum(
        vec![],
        vec![
            unit("Unit", vec![doc(" Unit variant."), evt(vec![list("derive", &["Clone", "Copy", "Debug", "PartialEq"])])]),
            unit("UnitSkipped", vec![doc(" Skipped variant."), evt(vec![word("skip")])]),
        ],
    );
    let expected = format!(
        "/// Unit variant.
        #[derive(Clone, Copy, Debug, PartialEq)]
        pub struct Unit;

        {}",
        unit_impls("Unit")
    );
    assert_eq!(normalized(&expected), generated(&item));
}

#[test]
fn put_variants_in_module() {
    let item = my_enum(vec![evt(vec![module("example")])], vec![unit("A", vec![]), unit("B", vec![])]);
    let expected = format!(
        "pub mod example {{
            use super::MyEnum;

            pub struct A;

            {}

            pub struct B;

            {}
        }}",
        unit_impls("A"),
        unit_impls("B")
    );
    assert_eq!(normalized(&expected), generated(&item));
}

#[test]
fn derive_traits_for_all_variants() {
    let item = my_enum(
        vec![evt(vec![list("derive", &["Debug"])])],
        vec![unit("A", vec![]), unit("B", vec![evt(vec![list("derive", &["Clone"])])])],
    );
    let expected = format!(
        "#[derive(Debug)]
        pub struct A;

        {}

        #[derive(Debug)]
        #[derive(Clone)]
        pub struct B;

        {}",
        unit_impls("A"),
        unit_impls("B")
    );
    assert_eq!(normalized(&expected), generated(&item));
}

#[test]
fn derive_marker_trait() {
    let item = my_enum(
        vec![evt(vec![list("implement_marker_traits", &["MarkerTrait1"])])],
        vec![unit("A", vec![]), unit("B", vec![])],
    );
    let expected = format!(
        "pub struct A;

        {}

        impl MarkerTrait1 for A {{}}

        pub struct B;

        {}

        impl MarkerTrait1 for B {{}}",
        unit_impls("A"),
        unit_impls("B")
    );
    assert_eq!(normalized(&expected), generated(&item));
}

fn shape_enum(attrs: Vec<Attribute>, circle_attrs: Vec<Attribute>, square_attrs: Vec<Attribute>) -> Item {
    Item {
        name: s("Shape"),
        vis: s("pub"),
        generics: no_generics(),
        attrs,
        data: Data::Enum(vec![
            tuple("Circle", &["f64"], circle_attrs),
            tuple("Square", &["f64"], square_attrs),
        ]),
    }
}

fn shape_impls(name: &str) -> String {
    format!(
        "pub struct {n}(pub f64,);
        impl core::convert::From<{n}> for Shape {{
            fn from(variant_struct: {n}) -> Self {{
                let {n}(_0,) = variant_struct;
                Shape::{n}(_0,)
            }}
        }}
        impl core::convert::TryFrom<Shape> for {n} {{
            type Error = Shape;
            fn try_from(enum_variant: Shape) -> Result<Self, Self::Error> {{
                if let Shape::{n}(_0,) = enum_variant {{
                    core::result::Result::Ok({n}(_0,))
                }} else {{
                    core::result::Result::Err(enum_variant)
                }}
            }}
        }}",
        n = name
    )
}

#[test]
fn positional_variants_get_types_and_conversions() {
    let item = shape_enum(vec![], vec![], vec![]);
    let expected = format!("{} {}", shape_impls("Circle"), shape_impls("Square"));
    assert_eq!(normalized(&expected), generated(&item));
}

#[test]
fn skipped_variant_has_no_artifacts() {
    let item = shape_enum(vec![], vec![], vec![evt(vec![word("skip")])]);
    assert_eq!(normalized(&shape_impls("Circle")), generated(&item));
    assert!(!generated(&item).contains("Square"));
}

#[test]
fn namespace_wraps_everything() {
    let item = shape_enum(vec![evt(vec![module("shapes")])], vec![], vec![]);
    let expected =
        format!("pub mod shapes {{ use super::Shape; {} {} }}", shape_impls("Circle"), shape_impls("Square"));
    assert_eq!(normalized(&expected), generated(&item));
}

#[test]
fn capability_bundles_stay_separate() {
    let item = shape_enum(
        vec![evt(vec![list("derive", &["PartialEq"])])],
        vec![evt(vec![list("derive", &["Clone", "PartialEq"])])],
        vec![],
    );
    let expected = format!(
        "#[derive(PartialEq)] #[derive(Clone, PartialEq)] {} #[derive(PartialEq)] {}",
        shape_impls("Circle"),
        shape_impls("Square")
    );
    assert_eq!(normalized(&expected), generated(&item));
}

#[test]
fn named_fields_are_rebuilt_by_name() {
    let item = Item {
        name: s("Shape"),
        vis: s("pub"),
        generics: no_generics(),
        attrs: vec![],
        data: Data::Enum(vec![named("Rect", &[("width", "f64"), ("height", "f64")], vec![])]),
    };
    let expected = "pub struct Rect { pub width: f64, pub height: f64, }
        impl core::convert::From<Rect> for Shape {
            fn from(variant_struct: Rect) -> Self {
                let Rect { width, height, } = variant_struct;
                Shape::Rect { width, height, }
            }
        }
        impl core::convert::TryFrom<Shape> for Rect {
            type Error = Shape;
            fn try_from(enum_variant: Shape) -> Result<Self, Self::Error> {
                if let Shape::Rect { width, height, } = enum_variant {
                    core::result::Result::Ok(Rect { width, height, })
                } else {
                    core::result::Result::Err(enum_variant)
                }
            }
        }";
    assert_eq!(normalized(expected), generated(&item));
}

#[test]
fn generics_are_carried_to_every_declaration() {
    let item = Item {
        name: s("Wrap"),
        vis: s(""),
        generics: Generics { impl_params: s("<T: Clone>"), type_params: s("<T>"), where_clause: s("where T: Copy") },
        attrs: vec![evt(vec![list("implement_marker_traits", &["Mark"])])],
        data: Data::Enum(vec![tuple("One", &["T"], vec![])]),
    };
    let expected = "struct One<T: Clone>(T,) where T: Copy;
        impl<T: Clone> core::convert::From<One<T> > for Wrap<T> where T: Copy {
            fn from(variant_struct: One<T>) -> Self {
                let One(_0,) = variant_struct;
                Wrap::One(_0,)
            }
        }
        impl<T: Clone> core::convert::TryFrom<Wrap<T> > for One<T> where T: Copy {
            type Error = Wrap<T>;
            fn try_from(enum_variant: Wrap<T>) -> Result<Self, Self::Error> {
                if let Wrap::One(_0,) = enum_variant {
                    core::result::Result::Ok(One(_0,))
                } else {
                    core::result::Result::Err(enum_variant)
                }
            }
        }
        impl<T: Clone> Mark for One<T> where T: Copy {}";
    assert_eq!(normalized(expected), generated(&item));
}

#[test]
fn binders_count_past_nine() {
    let tys = ["u8"; 12];
    let item = my_enum(vec![], vec![tuple("Wide", &tys, vec![])]);
    let out = generated(&item);
    assert!(out.contains("_9 , _10 , _11 ,"));
}

#[test]
fn field_and_variant_attributes_are_filtered() {
    let mut f = field(Some("a"), "u8");
    f.attrs = vec![
        doc(" kept"),
        Attribute { path: s("serde"), text: s("#[serde(rename = \"b\")]"), params: None },
    ];
    let repr = Param { text: s("repr(C)"), kind: ParamKind::List(s("repr"), vec![ListArg::Path(s("C"))]) };
    let v = Variant {
        name: s("V"),
        shape: Shape::Named,
        fields: vec![f],
        attrs: vec![
            Attribute { path: s("allow"), text: s("#[allow(dead_code)]"), params: None },
            Attribute { path: s("serde"), text: s("#[serde(skip)]"), params: None },
            evt(vec![repr, list("derive", &["Debug"])]),
        ],
    };
    let item = my_enum(vec![], vec![v]);
    let out = generated(&item);
    let expected_head = normalized("#[allow(dead_code)] #[derive(Debug)] #[repr(C)] pub struct V { /// kept\n pub a: u8, }");
    assert!(out.starts_with(&expected_head));
    assert!(!out.contains("serde"));
}

fn refused(item: &Item) -> GenerationError {
    enum_variant_type_impl(item).unwrap_err()
}

#[test]
fn refuses_non_enum() {
    let item = Item { name: s("S"), vis: s("pub"), generics: no_generics(), attrs: vec![], data: Data::Struct };
    assert_eq!(refused(&item), GenerationError::NotAnEnum);
}

#[test]
fn refuses_directive_without_list() {
    let bare = Attribute { path: s("evt"), text: s("#[evt]"), params: None };
    let item = my_enum(vec![bare], vec![unit("A", vec![])]);
    assert_eq!(refused(&item), GenerationError::Directive(DirectiveError::NotAList));
}

#[test]
fn refuses_unknown_parameters() {
    let item = my_enum(vec![evt(vec![word("skip")])], vec![unit("A", vec![])]);
    assert_eq!(refused(&item), GenerationError::Directive(DirectiveError::UnknownParameter));
    let item = my_enum(vec![evt(vec![list("frobnicate", &["X"])])], vec![unit("A", vec![])]);
    assert_eq!(refused(&item), GenerationError::Directive(DirectiveError::UnknownParameter));
}

#[test]
fn refuses_bad_namespace() {
    let number = Param { text: s("module = 1"), kind: ParamKind::NameValue(s("module"), LitValue::Other) };
    let item = my_enum(vec![evt(vec![number])], vec![unit("A", vec![])]);
    assert_eq!(refused(&item), GenerationError::Directive(DirectiveError::BadNamespace));
    let item = my_enum(vec![evt(vec![module("two words")])], vec![unit("A", vec![])]);
    assert_eq!(refused(&item), GenerationError::Directive(DirectiveError::BadNamespace));
    let item = my_enum(vec![evt(vec![module("")])], vec![unit("A", vec![])]);
    assert_eq!(refused(&item), GenerationError::Directive(DirectiveError::BadNamespace));
}

#[test]
fn refuses_bad_list_entries() {
    let lit = |key: &str| Param {
        text: format!("{}(\"x\")", key),
        kind: ParamKind::List(s(key), vec![ListArg::Other]),
    };
    let item = my_enum(vec![evt(vec![lit("derive")])], vec![unit("A", vec![])]);
    assert_eq!(refused(&item), GenerationError::Directive(DirectiveError::BadCapability));
    let item = my_enum(vec![evt(vec![lit("implement_marker_traits")])], vec![unit("A", vec![])]);
    assert_eq!(refused(&item), GenerationError::Directive(DirectiveError::BadMarker));
}

#[test]
fn refuses_repeated_directive() {
    let item = my_enum(vec![evt(vec![module("a")]), evt(vec![module("b")])], vec![unit("A", vec![])]);
    assert_eq!(refused(&item), GenerationError::Directive(DirectiveError::Repeated));
}

#[test]
fn other_attributes_on_the_item_are_ignored() {
    let other = Attribute { path: s("repr"), text: s("#[repr(u8)]"), params: None };
    let item = my_enum(vec![other], vec![unit("A", vec![])]);
    assert_eq!(normalized(&format!("pub struct A; {}", unit_impls("A"))), generated(&item));
}

#[test]
fn enum_without_variants_generates_nothing() {
    let item = my_enum(vec![], vec![]);
    assert_eq!(generated(&item), "");
}
