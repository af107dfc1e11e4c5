//! What the generated conversions do to values: the `TryFrom` destructures a value of
//! the enum into the generated type, the `From` builds it back.
use vstd::prelude::*;
use crate::directives::texts;
use crate::generate::item_wf;
use crate::model::{Item, Shape, field_names_distinct};
use crate::plan::{Conversion, Plan, binder_names, plan_of, retained};
use crate::text::lemma_binder_injective;

verus! {

/// A value of the enum as the conversions see it: its variant, and the values of its
/// fields in declaration order.
pub struct EnumValue<V> {
    pub variant: Seq<char>,
    pub fields: Seq<V>,
}

/// What a pattern binds: each binder to the value at its position.
pub open spec fn bind<V>(binders: Seq<Seq<char>>, vals: Seq<V>) -> Map<Seq<char>, V>
    decreases binders.len(),
{
    if binders.len() == 0 || vals.len() == 0 {
        Map::empty()
    } else {
        bind(binders.drop_last(), vals.drop_last()).insert(binders.last(), vals.last())
    }
}

/// The values that an expression naming the binders in order builds.
pub open spec fn read<V>(binders: Seq<Seq<char>>, env: Map<Seq<char>, V>) -> Seq<V> {
    binders.map_values(|b: Seq<char>| env[b])
}

/// The `From` conversion: the payload, destructured by the binders, rebuilt as the
/// conversion's variant.
pub open spec fn lift_value<V>(c: Conversion, payload: Seq<V>) -> EnumValue<V> {
    EnumValue { variant: c.variant@, fields: read(texts(c.binders@), bind(texts(c.binders@), payload)) }
}

/// The `TryFrom` conversion: the payload when the value is of the conversion's
/// variant, the value itself otherwise.
pub open spec fn project_value<V>(c: Conversion, v: EnumValue<V>) -> Result<Seq<V>, EnumValue<V>> {
    if v.variant == c.variant@ && v.fields.len() == c.binders@.len() {
        Ok(read(texts(c.binders@), bind(texts(c.binders@), v.fields)))
    } else {
        Err(v)
    }
}

pub open spec fn distinct(bs: Seq<Seq<char>>) -> bool {
    forall|i: int, j: int| 0 <= i < bs.len() && 0 <= j < bs.len() && i != j ==> bs[i] != bs[j]
}

proof fn lemma_bind_reads_back<V>(bs: Seq<Seq<char>>, vals: Seq<V>)
    requires
        bs.len() == vals.len(),
        distinct(bs),
    ensures
        forall|i: int| 0 <= i < bs.len() ==> #[trigger] bind(bs, vals)[bs[i]] == vals[i],
    decreases bs.len(),
{
    if bs.len() > 0 {
        let rest = bs.drop_last();
        assert(distinct(rest));
        lemma_bind_reads_back(rest, vals.drop_last());
        assert(bind(bs, vals) == bind(rest, vals.drop_last()).insert(bs.last(), vals.last()));
        assert forall|i: int| 0 <= i < bs.len() implies #[trigger] bind(bs, vals)[bs[i]] == vals[i] by {
            if i < bs.len() - 1 {
                assert(rest[i] == bs[i]);
                assert(vals.drop_last()[i] == vals[i]);
                assert(bs[i] != bs[bs.len() - 1]);
                assert(bind(rest, vals.drop_last())[rest[i]] == vals.drop_last()[i]);
            }
        }
    }
}

/// The binders of a variant are distinct when its field names are.
pub proof fn lemma_binders_distinct(v: crate::model::Variant)
    requires
        field_names_distinct(v),
    ensures
        distinct(binder_names(v)),
{
    if v.shape != Shape::Named {
        assert forall|i: int, j: int|
            0 <= i < binder_names(v).len() && 0 <= j < binder_names(v).len() && i != j implies binder_names(v)[i]
            != binder_names(v)[j] by {
            lemma_binder_injective(i as nat, j as nat);
        }
    }
}

/// Round trip: a value of a kept variant converts into its generated type, and back
/// into the same value.
pub proof fn lemma_round_trip<V>(item: Item, p: Plan, i: int, v: EnumValue<V>)
    requires
        item_wf(item),
        plan_of(p, item),
        0 <= i < p.artifacts@.len(),
        field_names_distinct(retained(item.data->Enum_0@)[i]),
        v.variant == retained(item.data->Enum_0@)[i].name@,
        v.fields.len() == retained(item.data->Enum_0@)[i].fields@.len(),
    ensures
        project_value(p.artifacts@[i].conversion, v) is Ok,
        lift_value(p.artifacts@[i].conversion, project_value(p.artifacts@[i].conversion, v)->Ok_0) == v,
{
    let c = p.artifacts@[i].conversion;
    let vr = retained(item.data->Enum_0@)[i];
    let bs = texts(c.binders@);
    assert(bs == binder_names(vr));
    lemma_binders_distinct(vr);
    lemma_bind_reads_back(bs, v.fields);
    let back = read(bs, bind(bs, v.fields));
    assert forall|k: int| 0 <= k < back.len() implies back[k] == v.fields[k] by {
        assert(bind(bs, v.fields)[bs[k]] == v.fields[k]);
    }
    assert(back =~= v.fields);
    lemma_bind_reads_back(bs, back);
    assert forall|k: int| 0 <= k < back.len() implies read(bs, bind(bs, back))[k] == v.fields[k] by {
        assert(bind(bs, back)[bs[k]] == back[k]);
    }
    assert(read(bs, bind(bs, back)) =~= v.fields);
}

/// A value of any other variant is refused, and handed back unchanged.
pub proof fn lemma_other_variant_refused<V>(item: Item, p: Plan, i: int, v: EnumValue<V>)
    requires
        plan_of(p, item),
        0 <= i < p.artifacts@.len(),
        v.variant != retained(item.data->Enum_0@)[i].name@,
    ensures
        project_value(p.artifacts@[i].conversion, v) == Err::<Seq<V>, EnumValue<V>>(v),
{
}

} // verus!
