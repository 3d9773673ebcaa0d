//! Laws of the merge and conversion operations, proved for every layout.
use crate::model::{FullModel, LayoutModel, PartialModel};
use vstd::prelude::*;

verus! {

/// Two record partials of one layout have as many fields, pairwise of one
/// layout; a leaf has no layout in common with a record.
proof fn partial_layouts_agree<V>(a: PartialModel<V>, b: PartialModel<V>)
    requires
        a.layout() == b.layout(),
    ensures
        a is Record <==> b is Record,
        a is Record ==> a->Record_0.len() == b->Record_0.len(),
        a is Record ==> forall|i: int|
            0 <= i < a->Record_0.len() ==> (#[trigger] a->Record_0[i]).layout()
                == b->Record_0[i].layout(),
{
    if a is Record {
        assert(b.layout()->Record_0.len() == b->Record_0.len());
        assert forall|i: int| 0 <= i < a->Record_0.len() implies (#[trigger] a->Record_0[i]).layout()
            == b->Record_0[i].layout() by {
            assert(b.layout()->Record_0[i] == b->Record_0[i].layout());
        }
    }
}

/// A record value and a record partial of one layout have as many fields,
/// pairwise of one layout.
proof fn mixed_layouts_agree<V>(a: FullModel<V>, b: PartialModel<V>)
    requires
        a.layout() == b.layout(),
    ensures
        a is Record <==> b is Record,
        a is Record ==> a->Record_0.len() == b->Record_0.len(),
        a is Record ==> forall|i: int|
            0 <= i < a->Record_0.len() ==> (#[trigger] a->Record_0[i]).layout()
                == b->Record_0[i].layout(),
{
    if a is Record {
        assert(b.layout()->Record_0.len() == b->Record_0.len());
        assert forall|i: int| 0 <= i < a->Record_0.len() implies (#[trigger] a->Record_0[i]).layout()
            == b->Record_0[i].layout() by {
            assert(b.layout()->Record_0[i] == b->Record_0[i].layout());
        }
    }
}

/// Merging keeps the layout of the left operand.
pub proof fn merge_keeps_layout<V>(a: PartialModel<V>, b: PartialModel<V>)
    ensures
        a.and(b).layout() == a.layout(),
        a.or(b).layout() == a.layout(),
    decreases a,
{
    match (a, b) {
        (PartialModel::Record(mine), PartialModel::Record(theirs)) => {
            if mine.len() == theirs.len() {
                assert forall|i: int| 0 <= i < mine.len() implies mine[i].and(theirs[i]).layout()
                    == mine[i].layout() && mine[i].or(theirs[i]).layout() == mine[i].layout() by {
                    merge_keeps_layout(mine[i], theirs[i]);
                }
                assert(a.and(b).layout()->Record_0 =~= a.layout()->Record_0);
                assert(a.or(b).layout()->Record_0 =~= a.layout()->Record_0);
            }
        },
        _ => {},
    }
}

/// Applying a partial keeps the layout of the target, and the partial of a
/// full value has its layout.
pub proof fn conversion_keeps_layout<V>(full: FullModel<V>, partial: PartialModel<V>)
    ensures
        full.apply(partial).layout() == full.layout(),
        full.materialize().layout() == full.layout(),
    decreases full,
{
    match full {
        FullModel::Record(mine) => {
            assert forall|i: int| 0 <= i < mine.len() implies (#[trigger] mine[i]).materialize().layout()
                == mine[i].layout() by {
                conversion_keeps_layout(mine[i], partial);
            }
            assert(full.materialize().layout()->Record_0 =~= full.layout()->Record_0);
            match partial {
                PartialModel::Record(theirs) => {
                    if mine.len() == theirs.len() {
                        assert forall|i: int| 0 <= i < mine.len() implies mine[i].apply(
                            theirs[i],
                        ).layout() == mine[i].layout() by {
                            conversion_keeps_layout(mine[i], theirs[i]);
                        }
                        assert(full.apply(partial).layout()->Record_0 =~= full.layout()->Record_0);
                    }
                },
                _ => {},
            }
        },
        _ => {},
    }
}

/// The empty partial of a layout has that layout and no leaf present.
pub proof fn empty_is_empty<V>(layout: LayoutModel)
    ensures
        PartialModel::<V>::empty(layout).is_empty(),
        PartialModel::<V>::empty(layout).layout() == layout,
    decreases layout,
{
    match layout {
        LayoutModel::Leaf => {},
        LayoutModel::Record(fields) => {
            let empty = PartialModel::<V>::empty(layout);
            assert forall|i: int| 0 <= i < fields.len() implies (#[trigger] empty->Record_0[i]).is_empty()
                && empty->Record_0[i].layout() == fields[i] by {
                empty_is_empty::<V>(fields[i]);
            }
            assert(empty.layout()->Record_0 =~= fields);
        },
    }
}

/// A partial with no leaf present is the empty partial of its layout.
pub proof fn empty_is_unique<V>(p: PartialModel<V>)
    requires
        p.is_empty(),
    ensures
        p == PartialModel::<V>::empty(p.layout()),
    decreases p,
{
    match p {
        PartialModel::Leaf(_) => {},
        PartialModel::Record(fields) => {
            let empty = PartialModel::<V>::empty(p.layout());
            assert forall|i: int| 0 <= i < fields.len() implies fields[i] == empty->Record_0[i] by {
                empty_is_unique(fields[i]);
            }
            assert(fields =~= empty->Record_0);
        },
    }
}

/// A partial in which some leaf is present is not empty.
pub proof fn present_leaf_not_empty<V>(p: PartialModel<V>, path: Seq<int>)
    requires
        p.leaf_at(path) is Some,
    ensures
        !p.is_empty(),
    decreases path.len(),
{
    match p {
        PartialModel::Leaf(_) => {},
        PartialModel::Record(fields) => {
            present_leaf_not_empty(fields[path[0]], path.subrange(1, path.len() as int));
        },
    }
}

/// The empty partial is neutral for `or`, on either side.
pub proof fn or_empty_neutral<V>(p: PartialModel<V>)
    ensures
        PartialModel::empty(p.layout()).or(p) == p,
        p.or(PartialModel::empty(p.layout())) == p,
    decreases p,
{
    match p {
        PartialModel::Leaf(_) => {},
        PartialModel::Record(fields) => {
            let empty = PartialModel::<V>::empty(p.layout());
            assert forall|i: int| 0 <= i < fields.len() implies (#[trigger] empty->Record_0[i]).or(
                fields[i],
            ) == fields[i] && fields[i].or(empty->Record_0[i]) == fields[i] by {
                or_empty_neutral(fields[i]);
            }
            assert(empty.or(p)->Record_0 =~= fields);
            assert(p.or(empty)->Record_0 =~= fields);
        },
    }
}

/// The empty partial absorbs under `and`, on either side.
pub proof fn and_empty_absorbs<V>(p: PartialModel<V>)
    ensures
        PartialModel::empty(p.layout()).and(p) == PartialModel::<V>::empty(p.layout()),
        p.and(PartialModel::empty(p.layout())) == PartialModel::<V>::empty(p.layout()),
        PartialModel::empty(p.layout()).and(p).is_empty(),
    decreases p,
{
    empty_is_empty::<V>(p.layout());
    match p {
        PartialModel::Leaf(_) => {},
        PartialModel::Record(fields) => {
            let empty = PartialModel::<V>::empty(p.layout());
            assert forall|i: int| 0 <= i < fields.len() implies (#[trigger] empty->Record_0[i]).and(
                fields[i],
            ) == empty->Record_0[i] && fields[i].and(empty->Record_0[i]) == empty->Record_0[i] by {
                and_empty_absorbs(fields[i]);
            }
            assert(empty.and(p)->Record_0 =~= empty->Record_0);
            assert(p.and(empty)->Record_0 =~= empty->Record_0);
        },
    }
}

/// A leaf is present in `a.and(b)` exactly if it is present in both, and then
/// it has the value that `b` has for it.
pub proof fn and_leaf_by_leaf<V>(a: PartialModel<V>, b: PartialModel<V>, path: Seq<int>)
    requires
        a.layout() == b.layout(),
    ensures
        a.and(b).leaf_at(path) is Some <==> a.leaf_at(path) is Some && b.leaf_at(path) is Some,
        a.and(b).leaf_at(path) is Some ==> a.and(b).leaf_at(path) == b.leaf_at(path),
    decreases path.len(),
{
    match (a, b) {
        (PartialModel::Record(mine), PartialModel::Record(theirs)) => {
            partial_layouts_agree(a, b);
            if path.len() > 0 && 0 <= path[0] < mine.len() {
                let rest = path.subrange(1, path.len() as int);
                and_leaf_by_leaf(mine[path[0]], theirs[path[0]], rest);
            }
        },
        _ => {},
    }
}

/// A leaf of `a.or(b)` is that of `a` where `a` has it present, and that of
/// `b` otherwise.
pub proof fn or_leaf_by_leaf<V>(a: PartialModel<V>, b: PartialModel<V>, path: Seq<int>)
    requires
        a.layout() == b.layout(),
    ensures
        a.or(b).leaf_at(path) == (if a.leaf_at(path) is Some {
            a.leaf_at(path)
        } else {
            b.leaf_at(path)
        }),
    decreases path.len(),
{
    match (a, b) {
        (PartialModel::Record(mine), PartialModel::Record(theirs)) => {
            partial_layouts_agree(a, b);
            if path.len() > 0 && 0 <= path[0] < mine.len() {
                let rest = path.subrange(1, path.len() as int);
                or_leaf_by_leaf(mine[path[0]], theirs[path[0]], rest);
            }
        },
        _ => {},
    }
}

/// Every leaf of a full value is present in its partial, with its value.
pub proof fn materialize_leaf_by_leaf<V>(full: FullModel<V>, path: Seq<int>)
    ensures
        full.materialize().leaf_at(path) == full.leaf_at(path),
    decreases path.len(),
{
    match full {
        FullModel::Record(fields) => {
            if path.len() > 0 && 0 <= path[0] < fields.len() {
                materialize_leaf_by_leaf(fields[path[0]], path.subrange(1, path.len() as int));
            }
        },
        _ => {},
    }
}

/// Applying a partial overwrites exactly the leaves that it has present.
pub proof fn apply_leaf_by_leaf<V>(full: FullModel<V>, partial: PartialModel<V>, path: Seq<int>)
    requires
        full.layout() == partial.layout(),
    ensures
        full.apply(partial).leaf_at(path) == (if partial.leaf_at(path) is Some {
            partial.leaf_at(path)
        } else {
            full.leaf_at(path)
        }),
    decreases path.len(),
{
    match (full, partial) {
        (FullModel::Record(mine), PartialModel::Record(theirs)) => {
            mixed_layouts_agree(full, partial);
            if path.len() > 0 && 0 <= path[0] < mine.len() {
                let rest = path.subrange(1, path.len() as int);
                apply_leaf_by_leaf(mine[path[0]], theirs[path[0]], rest);
            }
        },
        _ => {},
    }
}

/// Applying the partial of a value onto the value gives the value.
pub proof fn round_trip<V>(value: FullModel<V>)
    ensures
        value.apply(value.materialize()) == value,
{
    apply_materialized(value, value);
}

/// Applying the partial of `source` onto any value of the same layout gives
/// `source`.
pub proof fn apply_materialized<V>(target: FullModel<V>, source: FullModel<V>)
    requires
        target.layout() == source.layout(),
    ensures
        target.apply(source.materialize()) == source,
    decreases target,
{
    match (target, source) {
        (FullModel::Record(mine), FullModel::Record(theirs)) => {
            conversion_keeps_layout(source, source.materialize());
            mixed_layouts_agree(target, source.materialize());
            assert forall|i: int| 0 <= i < mine.len() implies (#[trigger] mine[i]).apply(
                theirs[i].materialize(),
            ) == theirs[i] by {
                conversion_keeps_layout(theirs[i], theirs[i].materialize());
                apply_materialized(mine[i], theirs[i]);
            }
            assert(target.apply(source.materialize())->Record_0 =~= theirs);
        },
        _ => {},
    }
}

/// Applying the empty partial changes nothing.
pub proof fn apply_empty_changes_nothing<V>(full: FullModel<V>)
    ensures
        full.apply(PartialModel::empty(full.layout())) == full,
    decreases full,
{
    match full {
        FullModel::Record(fields) => {
            let empty = PartialModel::<V>::empty(full.layout());
            assert forall|i: int| 0 <= i < fields.len() implies (#[trigger] fields[i]).apply(
                empty->Record_0[i],
            ) == fields[i] by {
                apply_empty_changes_nothing(fields[i]);
            }
            assert(full.apply(empty)->Record_0 =~= fields);
        },
        _ => {},
    }
}

/// In a merge of two records with as many fields, each field of the result
/// is the merge of the two fields at its place.
pub proof fn merge_field_by_field<V>(a: Seq<PartialModel<V>>, b: Seq<PartialModel<V>>, j: int)
    requires
        a.len() == b.len(),
        0 <= j < a.len(),
    ensures
        PartialModel::Record(a).and(PartialModel::Record(b))->Record_0[j] == a[j].and(b[j]),
        PartialModel::Record(a).or(PartialModel::Record(b))->Record_0[j] == a[j].or(b[j]),
{
}

/// Applying a record partial with as many fields as the target applies each
/// field of the partial onto the field at its place.
pub proof fn apply_field_by_field<V>(full: Seq<FullModel<V>>, partial: Seq<PartialModel<V>>, j: int)
    requires
        full.len() == partial.len(),
        0 <= j < full.len(),
    ensures
        FullModel::Record(full).apply(PartialModel::Record(partial))->Record_0[j] == full[j].apply(
            partial[j],
        ),
        FullModel::Record(full).materialize()->Record_0[j] == full[j].materialize(),
{
}

/// Replacing field `i` in both operands of a merge leaves every other field
/// of the result as it was.
pub proof fn merge_fields_independent<V>(
    a: Seq<PartialModel<V>>,
    b: Seq<PartialModel<V>>,
    i: int,
    x: PartialModel<V>,
    y: PartialModel<V>,
    j: int,
)
    requires
        a.len() == b.len(),
        0 <= i < a.len(),
        0 <= j < a.len(),
        i != j,
    ensures
        PartialModel::Record(a.update(i, x)).and(PartialModel::Record(b.update(i, y)))->Record_0[j]
            == PartialModel::Record(a).and(PartialModel::Record(b))->Record_0[j],
        PartialModel::Record(a.update(i, x)).or(PartialModel::Record(b.update(i, y)))->Record_0[j]
            == PartialModel::Record(a).or(PartialModel::Record(b))->Record_0[j],
{
    merge_field_by_field(a, b, j);
    merge_field_by_field(a.update(i, x), b.update(i, y), j);
}

/// Replacing field `i` in the target and in the partial leaves every other
/// field of the applied result as it was.
pub proof fn apply_fields_independent<V>(
    full: Seq<FullModel<V>>,
    partial: Seq<PartialModel<V>>,
    i: int,
    x: FullModel<V>,
    y: PartialModel<V>,
    j: int,
)
    requires
        full.len() == partial.len(),
        0 <= i < full.len(),
        0 <= j < full.len(),
        i != j,
    ensures
        FullModel::Record(full.update(i, x)).apply(
            PartialModel::Record(partial.update(i, y)),
        )->Record_0[j] == FullModel::Record(full).apply(PartialModel::Record(partial))->Record_0[j],
{
    apply_field_by_field(full, partial, j);
    apply_field_by_field(full.update(i, x), partial.update(i, y), j);
}

/// Merging a partial with itself gives the partial.
pub proof fn merge_idempotent<V>(a: PartialModel<V>)
    ensures
        a.and(a) == a,
        a.or(a) == a,
    decreases a,
{
    match a {
        PartialModel::Leaf(_) => {},
        PartialModel::Record(fields) => {
            assert forall|i: int| 0 <= i < fields.len() implies (#[trigger] fields[i]).and(
                fields[i],
            ) == fields[i] && fields[i].or(fields[i]) == fields[i] by {
                merge_idempotent(fields[i]);
            }
            assert(a.and(a)->Record_0 =~= fields);
            assert(a.or(a)->Record_0 =~= fields);
        },
    }
}

/// Each merge takes back what the other merge added: `and` of a partial with
/// its `or`, and `or` of a partial with its `and`, give the partial.
pub proof fn merge_absorption<V>(a: PartialModel<V>, b: PartialModel<V>)
    ensures
        a.and(a.or(b)) == a,
        a.or(a.and(b)) == a,
    decreases a,
{
    merge_idempotent(a);
    match (a, b) {
        (PartialModel::Record(mine), PartialModel::Record(theirs)) => {
            if mine.len() == theirs.len() {
                assert forall|i: int| 0 <= i < mine.len() implies (#[trigger] mine[i]).and(
                    mine[i].or(theirs[i]),
                ) == mine[i] && mine[i].or(mine[i].and(theirs[i])) == mine[i] by {
                    merge_absorption(mine[i], theirs[i]);
                }
                assert(a.and(a.or(b))->Record_0 =~= mine);
                assert(a.or(a.and(b))->Record_0 =~= mine);
            }
        },
        _ => {},
    }
}

/// `and` is associative on partials of one layout.
pub proof fn and_associative<V>(a: PartialModel<V>, b: PartialModel<V>, c: PartialModel<V>)
    requires
        a.layout() == b.layout(),
        b.layout() == c.layout(),
    ensures
        a.and(b).and(c) == a.and(b.and(c)),
    decreases a,
{
    partial_layouts_agree(a, b);
    partial_layouts_agree(b, c);
    match (a, b, c) {
        (
            PartialModel::Record(first),
            PartialModel::Record(second),
            PartialModel::Record(third),
        ) => {
            assert forall|i: int| 0 <= i < first.len() implies (#[trigger] first[i]).and(
                second[i],
            ).and(third[i]) == first[i].and(second[i].and(third[i])) by {
                and_associative(first[i], second[i], third[i]);
            }
            assert(a.and(b).and(c)->Record_0 =~= a.and(b.and(c))->Record_0);
        },
        _ => {},
    }
}

/// `or` is associative on partials of one layout.
pub proof fn or_associative<V>(a: PartialModel<V>, b: PartialModel<V>, c: PartialModel<V>)
    requires
        a.layout() == b.layout(),
        b.layout() == c.layout(),
    ensures
        a.or(b).or(c) == a.or(b.or(c)),
    decreases a,
{
    partial_layouts_agree(a, b);
    partial_layouts_agree(b, c);
    match (a, b, c) {
        (
            PartialModel::Record(first),
            PartialModel::Record(second),
            PartialModel::Record(third),
        ) => {
            assert forall|i: int| 0 <= i < first.len() implies (#[trigger] first[i]).or(
                second[i],
            ).or(third[i]) == first[i].or(second[i].or(third[i])) by {
                or_associative(first[i], second[i], third[i]);
            }
            assert(a.or(b).or(c)->Record_0 =~= a.or(b.or(c))->Record_0);
        },
        _ => {},
    }
}

/// The partial of a full value is neutral on the left of `and`: the merge
/// with a partial of its layout is that partial.
pub proof fn full_is_neutral_for_and<V>(full: FullModel<V>, p: PartialModel<V>)
    requires
        full.layout() == p.layout(),
    ensures
        full.materialize().and(p) == p,
    decreases full,
{
    mixed_layouts_agree(full, p);
    match (full, p) {
        (FullModel::Record(mine), PartialModel::Record(theirs)) => {
            assert forall|i: int| 0 <= i < mine.len() implies (
            #[trigger] mine[i]).materialize().and(theirs[i]) == theirs[i] by {
                full_is_neutral_for_and(mine[i], theirs[i]);
            }
            assert(full.materialize().and(p)->Record_0 =~= theirs);
        },
        _ => {},
    }
}

/// The partial of a full value absorbs on the left of `or`: nothing is
/// filled in from the other side.
pub proof fn full_absorbs_under_or<V>(full: FullModel<V>, p: PartialModel<V>)
    ensures
        full.materialize().or(p) == full.materialize(),
    decreases full,
{
    match (full, p) {
        (FullModel::Record(mine), PartialModel::Record(theirs)) => {
            if mine.len() == theirs.len() {
                assert forall|i: int| 0 <= i < mine.len() implies (
                #[trigger] mine[i]).materialize().or(theirs[i]) == mine[i].materialize() by {
                    full_absorbs_under_or(mine[i], theirs[i]);
                }
                assert(full.materialize().or(p)->Record_0 =~= full.materialize()->Record_0);
            }
        },
        _ => {},
    }
}

/// The `or` of two partials of one layout is empty exactly if both are.
pub proof fn or_is_empty_when_both_are<V>(a: PartialModel<V>, b: PartialModel<V>)
    requires
        a.layout() == b.layout(),
    ensures
        a.or(b).is_empty() <==> a.is_empty() && b.is_empty(),
    decreases a,
{
    partial_layouts_agree(a, b);
    match (a, b) {
        (PartialModel::Record(mine), PartialModel::Record(theirs)) => {
            let merged = a.or(b)->Record_0;
            assert forall|i: int| 0 <= i < mine.len() implies ((#[trigger] merged[i]).is_empty()
                <==> mine[i].is_empty() && theirs[i].is_empty()) by {
                or_is_empty_when_both_are(mine[i], theirs[i]);
            }
            if a.or(b).is_empty() {
                assert forall|i: int| 0 <= i < mine.len() implies (
                #[trigger] mine[i]).is_empty() by {
                    assert(merged[i].is_empty());
                }
                assert forall|i: int| 0 <= i < theirs.len() implies (
                #[trigger] theirs[i]).is_empty() by {
                    assert(merged[i].is_empty());
                }
            }
            if a.is_empty() && b.is_empty() {
                assert forall|i: int| 0 <= i < merged.len() implies (
                #[trigger] merged[i]).is_empty() by {
                    assert(mine[i].is_empty() && theirs[i].is_empty());
                }
            }
        },
        _ => {},
    }
}

/// Applying the `or` of two partials is applying the second and then the
/// first, so that the first has the last word.
pub proof fn apply_over_or<V>(full: FullModel<V>, a: PartialModel<V>, b: PartialModel<V>)
    requires
        full.layout() == a.layout(),
        a.layout() == b.layout(),
    ensures
        full.apply(a.or(b)) == full.apply(b).apply(a),
    decreases full,
{
    mixed_layouts_agree(full, a);
    mixed_layouts_agree(full, b);
    match (full, a, b) {
        (FullModel::Record(mine), PartialModel::Record(first), PartialModel::Record(second)) => {
            assert forall|i: int| 0 <= i < mine.len() implies (#[trigger] mine[i]).apply(
                first[i].or(second[i]),
            ) == mine[i].apply(second[i]).apply(first[i]) by {
                partial_layouts_agree(a, b);
                apply_over_or(mine[i], first[i], second[i]);
            }
            assert(full.apply(a.or(b))->Record_0 =~= full.apply(b).apply(a)->Record_0);
        },
        _ => {},
    }
}

} // verus!
