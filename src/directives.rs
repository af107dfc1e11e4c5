//! Reading the generator's directives out of `#[evt(...)]` attributes, at the level of
//! the item and at the level of each variant.
use vstd::prelude::*;
use crate::model::{Attribute, ListArg, LitValue, Param, ParamKind};

verus! {

/// Why the item-level directives were refused.
#[derive(PartialEq, Eq, Structural, Clone, Copy, Debug)]
pub enum DirectiveError {
    /// An `evt` attribute that is not of the form `#[evt(...)]`.
    NotAList,
    /// A parameter with a key that is not a directive, or of a form no directive has.
    UnknownParameter,
    /// `module = ...` whose value is not a string naming an identifier.
    BadNamespace,
    /// `derive(...)` with an entry that is not a bare path.
    BadCapability,
    /// `implement_marker_traits(...)` with an entry that is not a bare path.
    BadMarker,
    /// A directive given more than once.
    Repeated,
}

/// The item-level directives.
pub struct Directives {
    /// The module to wrap the generated items in.
    pub namespace: Option<String>,
    /// The capabilities derived on every generated type.
    pub capabilities: Option<Vec<String>>,
    /// The marker traits implemented for every generated type.
    pub markers: Option<Vec<String>>,
}

/// What [`Directives`] holds, as plain sequences.
pub struct DirectivesView {
    pub namespace: Option<Seq<char>>,
    pub capabilities: Option<Seq<Seq<char>>>,
    pub markers: Option<Seq<Seq<char>>>,
}

pub open spec fn texts(v: Seq<String>) -> Seq<Seq<char>> {
    v.map_values(|s: String| s@)
}

pub open spec fn opt_texts(v: Option<Vec<String>>) -> Option<Seq<Seq<char>>> {
    match v {
        Some(v) => Some(texts(v@)),
        None => None,
    }
}

impl View for Directives {
    type V = DirectivesView;

    open spec fn view(&self) -> DirectivesView {
        DirectivesView {
            namespace: match self.namespace {
                Some(s) => Some(s@),
                None => None,
            },
            capabilities: opt_texts(self.capabilities),
            markers: opt_texts(self.markers),
        }
    }
}

/// The strings that `syn` reads as one identifier.
pub uninterp spec fn is_identifier(s: Seq<char>) -> bool;

/// Relies on `syn::parse_str::<syn::Ident>`: whether the text parses as a single
/// identifier; the answer depends on the text alone.
#[verifier::external_body]
fn parses_as_identifier(s: &String) -> (r: bool)
    ensures
        r == is_identifier(s@),
{
    syn::parse_str::<syn::Ident>(s).is_ok()
}

/// Whether `s` holds exactly the text `w`.
pub fn is_word(s: &String, w: &str) -> (r: bool)
    ensures
        r == (s@ == w@),
{
    let t = String::from_str(w);
    *s == t
}

/// The reserved attribute path of the generator's directives.
pub open spec fn is_directive_attr(a: Attribute) -> bool {
    a.path@ == "evt"@
}

pub open spec fn arg_text(a: ListArg) -> Seq<char> {
    match a {
        ListArg::Path(p) => p@,
        ListArg::Other => Seq::empty(),
    }
}

pub open spec fn all_paths(args: Seq<ListArg>) -> bool {
    forall|i: int| 0 <= i < args.len() ==> #[trigger] args[i] is Path
}

pub open spec fn arg_paths(args: Seq<ListArg>) -> Seq<Seq<char>> {
    args.map_values(|a: ListArg| arg_text(a))
}

/// The effect of one parameter of an item-level `evt` attribute.
pub open spec fn apply_param(d: DirectivesView, p: Param) -> Result<DirectivesView, DirectiveError> {
    match p.kind {
        ParamKind::NameValue(key, value) => {
            if key@ != "module"@ {
                Err(DirectiveError::UnknownParameter)
            } else {
                match value {
                    LitValue::Str(s) => {
                        if !is_identifier(s@) {
                            Err(DirectiveError::BadNamespace)
                        } else if d.namespace is Some {
                            Err(DirectiveError::Repeated)
                        } else {
                            Ok(DirectivesView { namespace: Some(s@), ..d })
                        }
                    },
                    LitValue::Other => Err(DirectiveError::BadNamespace),
                }
            }
        },
        ParamKind::List(key, args) => {
            if key@ == "derive"@ {
                if !all_paths(args@) {
                    Err(DirectiveError::BadCapability)
                } else if d.capabilities is Some {
                    Err(DirectiveError::Repeated)
                } else {
                    Ok(DirectivesView { capabilities: Some(arg_paths(args@)), ..d })
                }
            } else if key@ == "implement_marker_traits"@ {
                if !all_paths(args@) {
                    Err(DirectiveError::BadMarker)
                } else if d.markers is Some {
                    Err(DirectiveError::Repeated)
                } else {
                    Ok(DirectivesView { markers: Some(arg_paths(args@)), ..d })
                }
            } else {
                Err(DirectiveError::UnknownParameter)
            }
        },
        _ => Err(DirectiveError::UnknownParameter),
    }
}

/// The parameters applied in order; the first refusal stops the reading.
pub open spec fn apply_params(d: DirectivesView, ps: Seq<Param>) -> Result<DirectivesView, DirectiveError>
    decreases ps.len(),
{
    if ps.len() == 0 {
        Ok(d)
    } else {
        match apply_params(d, ps.drop_last()) {
            Ok(d2) => apply_param(d2, ps.last()),
            Err(e) => Err(e),
        }
    }
}

/// The effect of one item-level attribute: others than `evt` change nothing.
pub open spec fn apply_attr(d: DirectivesView, a: Attribute) -> Result<DirectivesView, DirectiveError> {
    if !is_directive_attr(a) {
        Ok(d)
    } else {
        match a.params {
            Some(ps) => apply_params(d, ps@),
            None => Err(DirectiveError::NotAList),
        }
    }
}

pub open spec fn no_directives() -> DirectivesView {
    DirectivesView { namespace: None, capabilities: None, markers: None }
}

/// The item-level directives that the attributes give, read in order from none.
pub open spec fn directives_of(attrs: Seq<Attribute>) -> Result<DirectivesView, DirectiveError>
    decreases attrs.len(),
{
    if attrs.len() == 0 {
        Ok(no_directives())
    } else {
        match directives_of(attrs.drop_last()) {
            Ok(d) => apply_attr(d, attrs.last()),
            Err(e) => Err(e),
        }
    }
}


/// The entries of a nested list, when each is a bare path.
fn list_paths(args: &Vec<ListArg>) -> (r: Option<Vec<String>>)
    ensures
        r is Some <==> all_paths(args@),
        r is Some ==> texts(r->Some_0@) == arg_paths(args@),
{
    let mut out: Vec<String> = Vec::new();
    let mut i: usize = 0;
    while i < args.len()
        invariant
            i <= args@.len(),
            forall|k: int| 0 <= k < i ==> #[trigger] args@[k] is Path,
            out@.len() == i,
            forall|k: int| 0 <= k < i ==> (#[trigger] out@[k])@ == arg_text(args@[k]),
        decreases args@.len() - i,
    {
        match &args[i] {
            ListArg::Path(p) => {
                let c = p.clone();
                assert(arg_text(args@[i as int]) == c@);
                out.push(c);
            },
            ListArg::Other => {
                return None;
            },
        }
        i = i + 1;
    }
    assert(texts(out@) =~= arg_paths(args@));
    Some(out)
}

/// Applies one parameter of an item-level `evt` attribute.
fn apply_one(d: &mut Directives, p: &Param) -> (r: Result<(), DirectiveError>)
    ensures
        match r {
            Ok(_) => apply_param(old(d)@, *p) == Ok::<DirectivesView, DirectiveError>(final(d)@),
            Err(e) => apply_param(old(d)@, *p) == Err::<DirectivesView, DirectiveError>(e),
        },
{
    match &p.kind {
        ParamKind::NameValue(key, value) => {
            if !is_word(key, "module") {
                return Err(DirectiveError::UnknownParameter);
            }
            match value {
                LitValue::Str(s) => {
                    if !parses_as_identifier(s) {
                        Err(DirectiveError::BadNamespace)
                    } else if d.namespace.is_some() {
                        Err(DirectiveError::Repeated)
                    } else {
                        d.namespace = Some(s.clone());
                        Ok(())
                    }
                },
                LitValue::Other => Err(DirectiveError::BadNamespace),
            }
        },
        ParamKind::List(key, args) => {
            if is_word(key, "derive") {
                match list_paths(args) {
                    None => Err(DirectiveError::BadCapability),
                    Some(paths) => {
                        if d.capabilities.is_some() {
                            Err(DirectiveError::Repeated)
                        } else {
                            d.capabilities = Some(paths);
                            Ok(())
                        }
                    },
                }
            } else if is_word(key, "implement_marker_traits") {
                match list_paths(args) {
                    None => Err(DirectiveError::BadMarker),
                    Some(paths) => {
                        if d.markers.is_some() {
                            Err(DirectiveError::Repeated)
                        } else {
                            d.markers = Some(paths);
                            Ok(())
                        }
                    },
                }
            } else {
                Err(DirectiveError::UnknownParameter)
            }
        },
        _ => Err(DirectiveError::UnknownParameter),
    }
}

proof fn lemma_params_refusal_stays(d: DirectivesView, ps: Seq<Param>, k: int)
    requires
        0 <= k <= ps.len(),
        apply_params(d, ps.take(k)) is Err,
    ensures
        apply_params(d, ps) == apply_params(d, ps.take(k)),
    decreases ps.len() - k,
{
    if k < ps.len() {
        assert(ps.take(k + 1).drop_last() =~= ps.take(k));
        lemma_params_refusal_stays(d, ps, k + 1);
    } else {
        assert(ps.take(k) =~= ps);
    }
}

proof fn lemma_attrs_refusal_stays(attrs: Seq<Attribute>, k: int)
    requires
        0 <= k <= attrs.len(),
        directives_of(attrs.take(k)) is Err,
    ensures
        directives_of(attrs) == directives_of(attrs.take(k)),
    decreases attrs.len() - k,
{
    if k < attrs.len() {
        assert(attrs.take(k + 1).drop_last() =~= attrs.take(k));
        lemma_attrs_refusal_stays(attrs, k + 1);
    } else {
        assert(attrs.take(k) =~= attrs);
    }
}

/// Reads the item-level directives: the module to wrap the output in, the
/// capabilities derived on every generated type, and the marker traits implemented
/// for each. Attributes other than `evt` are passed over; any other shape inside an
/// `evt` attribute refuses the whole item.
pub fn parse_directives(attrs: &Vec<Attribute>) -> (r: Result<Directives, DirectiveError>)
    ensures
        match r {
            Ok(d) => directives_of(attrs@) == Ok::<DirectivesView, DirectiveError>(d@),
            Err(e) => directives_of(attrs@) == Err::<DirectivesView, DirectiveError>(e),
        },
{
    let mut d = Directives { namespace: None, capabilities: None, markers: None };
    let mut i: usize = 0;
    while i < attrs.len()
        invariant
            i <= attrs@.len(),
            directives_of(attrs@.take(i as int)) == Ok::<DirectivesView, DirectiveError>(d@),
        decreases attrs@.len() - i,
    {
        let a = &attrs[i];
        assert(attrs@.take(i + 1 as int).drop_last() =~= attrs@.take(i as int));
        if is_word(&a.path, "evt") {
            match &a.params {
                None => {
                    proof { lemma_attrs_refusal_stays(attrs@, i as int + 1); }
                    return Err(DirectiveError::NotAList);
                },
                Some(ps) => {
                    let mut j: usize = 0;
                    while j < ps.len()
                        invariant
                            j <= ps@.len(),
                            i < attrs@.len(),
                            is_directive_attr(attrs@[i as int]),
                            attrs@[i as int].params == Some(*ps),
                            attrs@.take(i + 1 as int).drop_last() == attrs@.take(i as int),
                            attrs@.take(i + 1 as int).last() == attrs@[i as int],
                            directives_of(attrs@.take(i as int)) is Ok,
                            apply_params(directives_of(attrs@.take(i as int))->Ok_0, ps@.take(j as int))
                                == Ok::<DirectivesView, DirectiveError>(d@),
                        decreases ps@.len() - j,
                    {
                        assert(ps@.take(j + 1 as int).drop_last() =~= ps@.take(j as int));
                        match apply_one(&mut d, &ps[j]) {
                            Ok(_) => {},
                            Err(e) => {
                                assert(ps@.take(j + 1 as int).last() == ps@[j as int]);
                                assert(apply_params(directives_of(attrs@.take(i as int))->Ok_0, ps@.take(j + 1 as int)) == Err::<DirectivesView, DirectiveError>(e));
                                proof { lemma_params_refusal_stays(directives_of(attrs@.take(i as int))->Ok_0, ps@, j as int + 1); }
                                assert(ps@.take(ps@.len() as int) =~= ps@);
                                assert(directives_of(attrs@.take(i + 1 as int)) == Err::<DirectivesView, DirectiveError>(e));
                                proof { lemma_attrs_refusal_stays(attrs@, i as int + 1); }
                                return Err(e);
                            },
                        }
                        j = j + 1;
                    }
                    assert(ps@.take(j as int) =~= ps@);
                },
            }
        }
        i = i + 1;
    }
    assert(attrs@.take(i as int) =~= attrs@);
    Ok(d)
}

/// The attributes copied from a variant or a field onto what is generated from it:
/// documentation, conditional compilation and lint levels.
pub open spec fn copies_through(a: Attribute) -> bool {
    a.path@ == "doc"@ || a.path@ == "cfg"@ || a.path@ == "allow"@ || a.path@ == "deny"@
}

/// The texts of the attributes that are copied through, in order.
pub open spec fn copied_texts(attrs: Seq<Attribute>) -> Seq<Seq<char>>
    decreases attrs.len(),
{
    if attrs.len() == 0 {
        Seq::empty()
    } else if copies_through(attrs.last()) {
        copied_texts(attrs.drop_last()).push(attrs.last().text@)
    } else {
        copied_texts(attrs.drop_last())
    }
}

/// Whether a variant-level parameter names `skip`, in any form.
pub open spec fn is_skip_param(p: Param) -> bool {
    match p.kind {
        ParamKind::Path(s) => s@ == "skip"@,
        ParamKind::List(s, _) => s@ == "skip"@,
        ParamKind::NameValue(s, _) => s@ == "skip"@,
        ParamKind::Literal => false,
    }
}

/// A variant is skipped when one of its `evt(...)` attributes holds `skip`.
pub open spec fn marked_skip(attrs: Seq<Attribute>) -> bool {
    exists|i: int, j: int|
        0 <= i < attrs.len() && is_directive_attr(attrs[i]) && attrs[i].params is Some && 0 <= j
            < attrs[i].params->Some_0@.len() && #[trigger] is_skip_param(
            attrs[i].params->Some_0@[j],
        )
}

/// The parameters of one attribute, when it is an `evt(...)` list; none otherwise.
pub open spec fn attr_directive_params(a: Attribute) -> Seq<Param> {
    if is_directive_attr(a) && a.params is Some {
        a.params->Some_0@
    } else {
        Seq::empty()
    }
}

/// The parameters of all `evt(...)` attributes, in order.
pub open spec fn directive_params(attrs: Seq<Attribute>) -> Seq<Param>
    decreases attrs.len(),
{
    if attrs.len() == 0 {
        Seq::empty()
    } else {
        directive_params(attrs.drop_last()) + attr_directive_params(attrs.last())
    }
}

/// A variant-level `derive(...)`: the variant's own capability bundle.
pub open spec fn is_derive_param(p: Param) -> bool {
    match p.kind {
        ParamKind::List(s, _) => s@ == "derive"@,
        _ => false,
    }
}

/// The texts of the parameters that are (`bundles`) or are not capability bundles,
/// in order.
pub open spec fn param_texts(ps: Seq<Param>, bundles: bool) -> Seq<Seq<char>>
    decreases ps.len(),
{
    if ps.len() == 0 {
        Seq::empty()
    } else if is_derive_param(ps.last()) == bundles {
        param_texts(ps.drop_last(), bundles).push(ps.last().text@)
    } else {
        param_texts(ps.drop_last(), bundles)
    }
}

/// The texts of the attributes that are copied through.
pub fn copied_attributes(attrs: &Vec<Attribute>) -> (r: Vec<String>)
    ensures
        texts(r@) == copied_texts(attrs@),
{
    let mut out: Vec<String> = Vec::new();
    let mut i: usize = 0;
    while i < attrs.len()
        invariant
            i <= attrs@.len(),
            texts(out@) == copied_texts(attrs@.take(i as int)),
        decreases attrs@.len() - i,
    {
        let a = &attrs[i];
        assert(attrs@.take(i + 1 as int).drop_last() =~= attrs@.take(i as int));
        assert(attrs@.take(i + 1 as int).last() == attrs@[i as int]);
        if is_word(&a.path, "doc") || is_word(&a.path, "cfg") || is_word(&a.path, "allow")
            || is_word(&a.path, "deny") {
            let t = a.text.clone();
            assert(texts(out@.push(t)) =~= texts(out@).push(t@));
            out.push(t);
        }
        i = i + 1;
    }
    assert(attrs@.take(i as int) =~= attrs@);
    out
}

/// Whether the variant is marked `#[evt(skip)]`.
pub fn is_skipped(attrs: &Vec<Attribute>) -> (r: bool)
    ensures
        r == marked_skip(attrs@),
{
    let mut i: usize = 0;
    while i < attrs.len()
        invariant
            i <= attrs@.len(),
            forall|k: int, l: int|
                0 <= k < i && is_directive_attr(attrs@[k]) && attrs@[k].params is Some && 0 <= l
                    < attrs@[k].params->Some_0@.len() ==> !#[trigger] is_skip_param(
                    attrs@[k].params->Some_0@[l],
                ),
        decreases attrs@.len() - i,
    {
        let a = &attrs[i];
        if is_word(&a.path, "evt") {
            if let Some(ps) = &a.params {
                let mut j: usize = 0;
                while j < ps.len()
                    invariant
                        i < attrs@.len(),
                        is_directive_attr(attrs@[i as int]),
                        attrs@[i as int].params == Some(*ps),
                        j <= ps@.len(),
                        forall|l: int| 0 <= l < j ==> !#[trigger] is_skip_param(ps@[l]),
                    decreases ps@.len() - j,
                {
                    let hit = match &ps[j].kind {
                        ParamKind::Path(s) => is_word(s, "skip"),
                        ParamKind::List(s, _) => is_word(s, "skip"),
                        ParamKind::NameValue(s, _) => is_word(s, "skip"),
                        ParamKind::Literal => false,
                    };
                    if hit {
                        assert(is_skip_param(attrs@[i as int].params->Some_0@[j as int]));
                        return true;
                    }
                    j = j + 1;
                }
            }
        }
        i = i + 1;
    }
    false
}

/// The texts of the variant's `evt(...)` parameters that are (`bundles`) or are not
/// capability bundles, in order.
pub fn variant_param_texts(attrs: &Vec<Attribute>, bundles: bool) -> (r: Vec<String>)
    ensures
        texts(r@) == param_texts(directive_params(attrs@), bundles),
{
    let mut out: Vec<String> = Vec::new();
    let mut i: usize = 0;
    while i < attrs.len()
        invariant
            i <= attrs@.len(),
            texts(out@) == param_texts(directive_params(attrs@.take(i as int)), bundles),
        decreases attrs@.len() - i,
    {
        let a = &attrs[i];
        let ghost before = directive_params(attrs@.take(i as int));
        assert(attrs@.take(i + 1 as int).drop_last() =~= attrs@.take(i as int));
        assert(attrs@.take(i + 1 as int).last() == attrs@[i as int]);
        if is_word(&a.path, "evt") {
            if let Some(ps) = &a.params {
                let mut j: usize = 0;
                while j < ps.len()
                    invariant
                        j <= ps@.len(),
                        texts(out@) == param_texts(before + ps@.take(j as int), bundles),
                    decreases ps@.len() - j,
                {
                    let p = &ps[j];
                    let ghost next = before + ps@.take(j + 1 as int);
                    assert(next.drop_last() =~= before + ps@.take(j as int));
                    assert(next.last() == ps@[j as int]);
                    let is_bundle = match &p.kind {
                        ParamKind::List(s, _) => is_word(s, "derive"),
                        _ => false,
                    };
                    if is_bundle == bundles {
                        let t = p.text.clone();
                        assert(texts(out@.push(t)) =~= texts(out@).push(t@));
                        out.push(t);
                    }
                    j = j + 1;
                }
                assert(ps@.take(j as int) =~= ps@);
            } else {
                assert(before + Seq::<Param>::empty() =~= before);
            }
        } else {
            assert(before + Seq::<Param>::empty() =~= before);
        }
        i = i + 1;
    }
    assert(attrs@.take(i as int) =~= attrs@);
    out
}

} // verus!
