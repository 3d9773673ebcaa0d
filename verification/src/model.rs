//! The mathematical model of layouts, partial values and full values, and of
//! merging, materializing and applying them.
use crate::ops::PartialOps;
use vstd::prelude::*;

verus! {

/// How the leaves of a type are arranged: a single leaf, or a record of
/// fields that are layouts themselves.
pub enum LayoutModel {
    Leaf,
    Record(Seq<LayoutModel>),
}

/// What is known of a value: per leaf, a value or nothing.
pub enum PartialModel<V> {
    Leaf(Option<V>),
    Record(Seq<PartialModel<V>>),
}

/// A value of which every leaf is known.
pub enum FullModel<V> {
    Leaf(V),
    Record(Seq<FullModel<V>>),
}

impl<V> PartialModel<V> {
    /// The arrangement of the leaves of `self`.
    pub open spec fn layout(self) -> LayoutModel
        decreases self,
    {
        match self {
            PartialModel::Leaf(_) => LayoutModel::Leaf,
            PartialModel::Record(fields) => LayoutModel::Record(
                Seq::new(
                    fields.len(),
                    |i: int|
                        if 0 <= i < fields.len() {
                            fields[i].layout()
                        } else {
                            LayoutModel::Leaf
                        },
                ),
            ),
        }
    }

    /// The partial of the given layout in which no leaf is present.
    pub open spec fn empty(layout: LayoutModel) -> Self
        decreases layout,
    {
        match layout {
            LayoutModel::Leaf => PartialModel::Leaf(None),
            LayoutModel::Record(fields) => PartialModel::Record(
                Seq::new(
                    fields.len(),
                    |i: int|
                        if 0 <= i < fields.len() {
                            Self::empty(fields[i])
                        } else {
                            PartialModel::Leaf(None)
                        },
                ),
            ),
        }
    }

    /// Whether no leaf is present.
    pub open spec fn is_empty(self) -> bool
        decreases self,
    {
        match self {
            PartialModel::Leaf(value) => value.nothing_present(),
            PartialModel::Record(fields) => forall|i: int|
                0 <= i < fields.len() ==> (#[trigger] fields[i]).is_empty(),
        }
    }

    /// Leaf by leaf, by the rule of an optional value: present where both
    /// have the leaf, with the value of `other`. Where the layouts differ, a
    /// leaf against a record or records of different lengths, that part of
    /// `self` stays as it is.
    pub open spec fn and(self, other: Self) -> Self
        decreases self,
    {
        match (self, other) {
            (PartialModel::Leaf(mine), PartialModel::Leaf(theirs)) => PartialModel::Leaf(
                mine.merged_and(theirs),
            ),
            (PartialModel::Record(mine), PartialModel::Record(theirs)) => if mine.len()
                == theirs.len() {
                PartialModel::Record(
                    Seq::new(
                        mine.len(),
                        |i: int|
                            if 0 <= i < mine.len() {
                                mine[i].and(theirs[i])
                            } else {
                                self
                            },
                    ),
                )
            } else {
                self
            },
            _ => self,
        }
    }
    /// Leaf by leaf, by the rule of an optional value: the value of `self`
    /// where it has one, else that of `other`. Where the layouts differ, a
    /// leaf against a record or records of different lengths, that part of
    /// `self` stays as it is.
    pub open spec fn or(self, other: Self) -> Self
        decreases self,
    {
        match (self, other) {
            (PartialModel::Leaf(mine), PartialModel::Leaf(theirs)) => PartialModel::Leaf(
                mine.merged_or(theirs),
            ),
            (PartialModel::Record(mine), PartialModel::Record(theirs)) => if mine.len()
                == theirs.len() {
                PartialModel::Record(
                    Seq::new(
                        mine.len(),
                        |i: int|
                            if 0 <= i < mine.len() {
                                mine[i].or(theirs[i])
                            } else {
                                self
                            },
                    ),
                )
            } else {
                self
            },
            _ => self,
        }
    }

    /// The leaf reached by descending through the fields that `path` lists,
    /// or nothing where the leaf is absent or the path leads to no leaf.
    pub open spec fn leaf_at(self, path: Seq<int>) -> Option<V>
        decreases path.len(),
    {
        match self {
            PartialModel::Leaf(value) => if path.len() == 0 {
                value
            } else {
                None
            },
            PartialModel::Record(fields) => if path.len() > 0 && 0 <= path[0] < fields.len() {
                fields[path[0]].leaf_at(path.subrange(1, path.len() as int))
            } else {
                None
            },
        }
    }
}

impl<V> FullModel<V> {
    /// The arrangement of the leaves of `self`.
    pub open spec fn layout(self) -> LayoutModel
        decreases self,
    {
        match self {
            FullModel::Leaf(_) => LayoutModel::Leaf,
            FullModel::Record(fields) => LayoutModel::Record(
                Seq::new(
                    fields.len(),
                    |i: int|
                        if 0 <= i < fields.len() {
                            fields[i].layout()
                        } else {
                            LayoutModel::Leaf
                        },
                ),
            ),
        }
    }

    /// The partial in which every leaf of `self` is present.
    pub open spec fn materialize(self) -> PartialModel<V>
        decreases self,
    {
        match self {
            FullModel::Leaf(value) => PartialModel::Leaf(Some(value)),
            FullModel::Record(fields) => PartialModel::Record(
                Seq::new(
                    fields.len(),
                    |i: int|
                        if 0 <= i < fields.len() {
                            fields[i].materialize()
                        } else {
                            PartialModel::Leaf(None)
                        },
                ),
            ),
        }
    }

    /// `self` with every leaf that is present in `partial` overwritten by it.
    /// Where the layouts differ, a leaf against a record or records of
    /// different lengths, that part of `self` stays as it is.
    pub open spec fn apply(self, partial: PartialModel<V>) -> Self
        decreases self,
    {
        match (self, partial) {
            (FullModel::Leaf(mine), PartialModel::Leaf(theirs)) => FullModel::Leaf(
                match theirs {
                    Some(value) => value,
                    None => mine,
                },
            ),
            (FullModel::Record(mine), PartialModel::Record(theirs)) => if mine.len()
                == theirs.len() {
                FullModel::Record(
                    Seq::new(
                        mine.len(),
                        |i: int|
                            if 0 <= i < mine.len() {
                                mine[i].apply(theirs[i])
                            } else {
                                self
                            },
                    ),
                )
            } else {
                self
            },
            _ => self,
        }
    }

    /// The leaf reached by descending through the fields that `path` lists.
    pub open spec fn leaf_at(self, path: Seq<int>) -> Option<V>
        decreases path.len(),
    {
        match self {
            FullModel::Leaf(value) => if path.len() == 0 {
                Some(value)
            } else {
                None
            },
            FullModel::Record(fields) => if path.len() > 0 && 0 <= path[0] < fields.len() {
                fields[path[0]].leaf_at(path.subrange(1, path.len() as int))
            } else {
                None
            },
        }
    }
}

} // verus!
