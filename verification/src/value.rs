//! Layouts, partial values and full values as data, with the merge and
//! conversion operations carried out field by field.
use crate::model::{FullModel, LayoutModel, PartialModel};
use crate::ops::PartialOps;
use vstd::prelude::*;

verus! {

/// How the leaves of a type are arranged.
#[derive(Debug, PartialEq, Eq)]
pub enum Layout {
    /// A single leaf.
    Leaf,
    /// A record of fields, in declaration order.
    Record(Vec<Layout>),
}

/// What is known of a value: per leaf, a value or nothing.
#[derive(Debug, PartialEq, Eq)]
pub enum PartialValue<V> {
    /// A single leaf, present or absent.
    Leaf(Option<V>),
    /// The partials of the fields of a record, in declaration order.
    Record(Vec<PartialValue<V>>),
}

/// A value of which every leaf is known.
#[derive(Debug, PartialEq, Eq)]
pub enum FullValue<V> {
    /// A single leaf.
    Leaf(V),
    /// The fields of a record, in declaration order.
    Record(Vec<FullValue<V>>),
}

impl Layout {
    /// The layout as a mathematical value.
    pub open spec fn model(self) -> LayoutModel
        decreases self,
    {
        match self {
            Layout::Leaf => LayoutModel::Leaf,
            Layout::Record(fields) => LayoutModel::Record(
                Seq::new(
                    fields@.len(),
                    |i: int|
                        if 0 <= i < fields@.len() {
                            fields@[i].model()
                        } else {
                            LayoutModel::Leaf
                        },
                ),
            ),
        }
    }
}

impl View for Layout {
    type V = LayoutModel;

    open spec fn view(&self) -> LayoutModel {
        self.model()
    }
}

impl Layout {
    /// The model of a record is the record of the models of its fields.
    pub proof fn view_of_record(self)
        requires
            self is Record,
        ensures
            self@ is Record,
            self@->Record_0.len() == self->Record_0@.len(),
            forall|i: int|
                0 <= i < self->Record_0@.len() ==> (#[trigger] self@->Record_0[i])
                    == self->Record_0@[i]@,
    {
    }
}

/// A path of field positions as mathematical integers.
pub open spec fn path_view(path: Seq<usize>) -> Seq<int> {
    Seq::new(path.len(), |i: int| path[i] as int)
}

/// The layouts of a list as mathematical values.
pub open spec fn layout_views(layouts: Seq<Layout>) -> Seq<LayoutModel> {
    Seq::new(layouts.len(), |i: int| layouts[i]@)
}

impl<V> PartialValue<V> {
    /// The partial as a mathematical value.
    pub open spec fn model(self) -> PartialModel<V>
        decreases self,
    {
        match self {
            PartialValue::Leaf(value) => PartialModel::Leaf(value),
            PartialValue::Record(fields) => PartialModel::Record(
                Seq::new(
                    fields@.len(),
                    |i: int|
                        if 0 <= i < fields@.len() {
                            fields@[i].model()
                        } else {
                            PartialModel::Leaf(None)
                        },
                ),
            ),
        }
    }
}

impl<V> View for PartialValue<V> {
    type V = PartialModel<V>;

    open spec fn view(&self) -> PartialModel<V> {
        self.model()
    }
}

impl<V> PartialValue<V> {
    /// The model of a record is the record of the models of its fields.
    pub proof fn view_of_record(self)
        requires
            self is Record,
        ensures
            self@ is Record,
            self@->Record_0.len() == self->Record_0@.len(),
            forall|i: int|
                0 <= i < self->Record_0@.len() ==> (#[trigger] self@->Record_0[i])
                    == self->Record_0@[i]@,
    {
    }
}

impl<V> FullValue<V> {
    /// The value as a mathematical value.
    pub open spec fn model(self) -> FullModel<V>
        decreases self,
    {
        match self {
            FullValue::Leaf(value) => FullModel::Leaf(value),
            FullValue::Record(fields) => FullModel::Record(
                Seq::new(
                    fields@.len(),
                    |i: int|
                        if 0 <= i < fields@.len() {
                            fields@[i].model()
                        } else {
                            arbitrary()
                        },
                ),
            ),
        }
    }
}

impl<V> View for FullValue<V> {
    type V = FullModel<V>;

    open spec fn view(&self) -> FullModel<V> {
        self.model()
    }
}

impl<V> FullValue<V> {
    /// The model of a record is the record of the models of its fields.
    pub proof fn view_of_record(self)
        requires
            self is Record,
        ensures
            self@ is Record,
            self@->Record_0.len() == self->Record_0@.len(),
            forall|i: int|
                0 <= i < self->Record_0@.len() ==> (#[trigger] self@->Record_0[i])
                    == self->Record_0@[i]@,
    {
    }
}

impl Layout {
    /// A copy of the layout.
    pub fn copy(&self) -> (copy: Layout)
        ensures
            copy@ == self@,
        decreases self,
    {
        match self {
            Layout::Leaf => Layout::Leaf,
            Layout::Record(fields) => {
                let mut copies: Vec<Layout> = Vec::new();
                let mut i: usize = 0;
                while i < fields.len()
                    invariant
                        *self == Layout::Record(*fields),
                        i <= fields.len(),
                        copies.len() == i,
                        forall|k: int| 0 <= k < i ==> (#[trigger] copies[k])@ == fields[k]@,
                    decreases fields.len() - i,
                {
                    assert(decreases_to!(self => self->Record_0));
                    copies.push(fields[i].copy());
                    i = i + 1;
                }
                assert(Layout::Record(copies)@->Record_0 =~= self@->Record_0);
                Layout::Record(copies)
            },
        }
    }
}

impl<V> PartialValue<V> {
    /// Creates the partial of the given layout in which no leaf is present.
    pub fn empty(layout: &Layout) -> (partial: Self)
        ensures
            partial@ == PartialModel::<V>::empty(layout@),
            partial@.layout() == layout@,
            partial@.is_empty(),
        decreases layout,
    {
        proof {
            crate::laws::empty_is_empty::<V>(layout@);
        }
        match layout {
            Layout::Leaf => PartialValue::Leaf(None),
            Layout::Record(fields) => {
                let mut partials: Vec<PartialValue<V>> = Vec::new();
                let mut i: usize = 0;
                while i < fields.len()
                    invariant
                        *layout == Layout::Record(*fields),
                        i <= fields.len(),
                        partials.len() == i,
                        forall|k: int|
                            0 <= k < i ==> (#[trigger] partials[k])@ == PartialModel::<V>::empty(
                                fields[k]@,
                            ),
                    decreases fields.len() - i,
                {
                    assert(decreases_to!(layout => layout->Record_0));
                    partials.push(Self::empty(&fields[i]));
                    i = i + 1;
                }
                assert(PartialValue::Record(partials)@->Record_0 =~= PartialModel::<V>::empty(
                    layout@,
                )->Record_0);
                PartialValue::Record(partials)
            },
        }
    }

    /// The leaf reached by descending through the fields at the positions
    /// that `path` lists, if it is present.
    pub fn leaf_at(&self, path: &Vec<usize>) -> (leaf: Option<&V>)
        ensures
            leaf is Some <==> self@.leaf_at(path_view(path@)) is Some,
            leaf matches Some(value) ==> Some(*value) == self@.leaf_at(path_view(path@)),
    {
        let ghost whole = path_view(path@);
        let mut node = self;
        let mut depth: usize = 0;
        assert(whole.skip(0) =~= whole);
        while depth < path.len()
            invariant
                depth <= path.len(),
                whole == path_view(path@),
                self@.leaf_at(whole) == node@.leaf_at(whole.skip(depth as int)),
            decreases path.len() - depth,
        {
            let ghost rest = whole.skip(depth as int);
            assert(rest.subrange(1, rest.len() as int) =~= whole.skip(depth + 1));
            match node {
                PartialValue::Leaf(_) => {
                    return None;
                },
                PartialValue::Record(fields) => {
                    let position = path[depth];
                    if position >= fields.len() {
                        return None;
                    }
                    node = &fields[position];
                },
            }
            depth = depth + 1;
        }
        match node {
            PartialValue::Leaf(value) => value.as_ref(),
            PartialValue::Record(_) => None,
        }
    }

    /// Checks whether no leaf is present.
    pub fn is_empty(&self) -> (empty: bool)
        ensures
            empty == self@.is_empty(),
        decreases self,
    {
        match self {
            PartialValue::Leaf(value) => PartialOps::is_empty(value),
            PartialValue::Record(fields) => {
                let mut i: usize = 0;
                while i < fields.len()
                    invariant
                        *self == PartialValue::Record(*fields),
                        i <= fields.len(),
                        forall|k: int| 0 <= k < i ==> (#[trigger] fields[k])@.is_empty(),
                    decreases fields.len() - i,
                {
                    if !fields[i].is_empty() {
                        assert(!self@->Record_0[i as int].is_empty());
                        return false;
                    }
                    i = i + 1;
                }
                true
            },
        }
    }

    /// The arrangement of the leaves of `self`.
    pub fn layout(&self) -> (layout: Layout)
        ensures
            layout@ == self@.layout(),
        decreases self,
    {
        match self {
            PartialValue::Leaf(_) => Layout::Leaf,
            PartialValue::Record(fields) => {
                let mut layouts: Vec<Layout> = Vec::new();
                let mut i: usize = 0;
                while i < fields.len()
                    invariant
                        *self == PartialValue::Record(*fields),
                        i <= fields.len(),
                        layouts.len() == i,
                        forall|k: int|
                            0 <= k < i ==> (#[trigger] layouts[k])@ == fields[k]@.layout(),
                    decreases fields.len() - i,
                {
                    assert(decreases_to!(self => self->Record_0));
                    layouts.push(fields[i].layout());
                    i = i + 1;
                }
                assert(Layout::Record(layouts)@->Record_0 =~= self@.layout()->Record_0);
                Layout::Record(layouts)
            },
        }
    }

    /// Returns the partial with each leaf of `other` that both partials have
    /// present, and nothing for the other leaves.
    pub fn and(self, other: Self) -> (merged: Self)
        ensures
            merged@ == self@.and(other@),
            merged@.layout() == self@.layout(),
    {
        let mut merged = self;
        merged.set_and(other);
        merged
    }

    /// Returns the partial with each leaf of `self` that is present, and that
    /// of `other` for the other leaves.
    pub fn or(self, other: Self) -> (merged: Self)
        ensures
            merged@ == self@.or(other@),
            merged@.layout() == self@.layout(),
    {
        let mut merged = self;
        merged.set_or(other);
        merged
    }

    /// Sets each leaf that is absent to that of `other`.
    pub fn set_or(&mut self, other: Self)
        ensures
            final(self)@ == old(self)@.or(other@),
            final(self)@.layout() == old(self)@.layout(),
        decreases *old(self),
    {
        proof {
            crate::laws::merge_keeps_layout(old(self)@, other@);
        }
        match self {
            PartialValue::Leaf(mine) => {
                match other {
                    PartialValue::Leaf(theirs) => {
                        mine.set_or(theirs);
                    },
                    PartialValue::Record(_) => {},
                }
            },
            PartialValue::Record(mine) => {
                match other {
                    PartialValue::Leaf(_) => {},
                    PartialValue::Record(theirs) => {
                        if mine.len() == theirs.len() {
                            Self::set_or_fields(mine, theirs);
                            assert(PartialValue::Record(*mine)@->Record_0 =~= old(self)@.or(
                                other@,
                            )->Record_0);
                        }
                    },
                }
            },
        }
    }

    fn set_or_fields(mine: &mut Vec<PartialValue<V>>, theirs: Vec<PartialValue<V>>)
        requires
            old(mine).len() == theirs.len(),
        ensures
            final(mine).len() == old(mine).len(),
            forall|k: int|
                0 <= k < theirs.len() ==> (#[trigger] final(mine)[k])@ == old(mine)[k]@.or(
                    theirs[k]@,
                ),
        decreases *old(mine),
    {
        let mut theirs = theirs;
        let ghost given = theirs@;
        let mut i: usize = mine.len();
        while i > 0
            invariant
                i <= mine.len(),
                mine.len() == old(mine).len(),
                theirs@ == given.subrange(0, i as int),
                given.len() == mine.len(),
                forall|k: int| 0 <= k < i ==> mine[k] == old(mine)[k],
                forall|k: int|
                    i <= k < mine.len() ==> (#[trigger] mine[k])@ == old(mine)[k]@.or(given[k]@),
            decreases i,
        {
            i = i - 1;
            let field = theirs.pop().unwrap();
            mine[i].set_or(field);
        }
    }

    /// Sets each leaf to that of `other` if both partials have it present and
    /// to nothing otherwise.
    pub fn set_and(&mut self, other: Self)
        ensures
            final(self)@ == old(self)@.and(other@),
            final(self)@.layout() == old(self)@.layout(),
        decreases *old(self),
    {
        proof {
            crate::laws::merge_keeps_layout(old(self)@, other@);
        }
        match self {
            PartialValue::Leaf(mine) => {
                match other {
                    PartialValue::Leaf(theirs) => {
                        mine.set_and(theirs);
                    },
                    PartialValue::Record(_) => {},
                }
            },
            PartialValue::Record(mine) => {
                match other {
                    PartialValue::Leaf(_) => {},
                    PartialValue::Record(theirs) => {
                        if mine.len() == theirs.len() {
                            Self::set_and_fields(mine, theirs);
                            assert(PartialValue::Record(*mine)@->Record_0 =~= old(self)@.and(
                                other@,
                            )->Record_0);
                        }
                    },
                }
            },
        }
    }

    fn set_and_fields(mine: &mut Vec<PartialValue<V>>, theirs: Vec<PartialValue<V>>)
        requires
            old(mine).len() == theirs.len(),
        ensures
            final(mine).len() == old(mine).len(),
            forall|k: int|
                0 <= k < theirs.len() ==> (#[trigger] final(mine)[k])@ == old(mine)[k]@.and(
                    theirs[k]@,
                ),
        decreases *old(mine),
    {
        let mut theirs = theirs;
        let ghost given = theirs@;
        let mut i: usize = mine.len();
        while i > 0
            invariant
                i <= mine.len(),
                mine.len() == old(mine).len(),
                theirs@ == given.subrange(0, i as int),
                given.len() == mine.len(),
                forall|k: int| 0 <= k < i ==> mine[k] == old(mine)[k],
                forall|k: int|
                    i <= k < mine.len() ==> (#[trigger] mine[k])@ == old(mine)[k]@.and(given[k]@),
            decreases i,
        {
            i = i - 1;
            let field = theirs.pop().unwrap();
            mine[i].set_and(field);
        }
    }
}




impl<V> FullValue<V> {
    /// The leaf reached by descending through the fields at the positions
    /// that `path` lists, if the path leads to a leaf.
    pub fn leaf_at(&self, path: &Vec<usize>) -> (leaf: Option<&V>)
        ensures
            leaf is Some <==> self@.leaf_at(path_view(path@)) is Some,
            leaf matches Some(value) ==> Some(*value) == self@.leaf_at(path_view(path@)),
    {
        let ghost whole = path_view(path@);
        let mut node = self;
        let mut depth: usize = 0;
        assert(whole.skip(0) =~= whole);
        while depth < path.len()
            invariant
                depth <= path.len(),
                whole == path_view(path@),
                self@.leaf_at(whole) == node@.leaf_at(whole.skip(depth as int)),
            decreases path.len() - depth,
        {
            let ghost rest = whole.skip(depth as int);
            assert(rest.subrange(1, rest.len() as int) =~= whole.skip(depth + 1));
            match node {
                FullValue::Leaf(_) => {
                    return None;
                },
                FullValue::Record(fields) => {
                    let position = path[depth];
                    if position >= fields.len() {
                        return None;
                    }
                    node = &fields[position];
                },
            }
            depth = depth + 1;
        }
        match node {
            FullValue::Leaf(value) => Some(value),
            FullValue::Record(_) => None,
        }
    }

    /// Converts the value into the partial in which every leaf is present.
    pub fn into_partial(self) -> (partial: PartialValue<V>)
        ensures
            partial@ == self@.materialize(),
            partial@.layout() == self@.layout(),
        decreases self,
    {
        proof {
            crate::laws::conversion_keeps_layout(self@, self@.materialize());
        }
        match self {
            FullValue::Leaf(value) => PartialValue::Leaf(Some(value)),
            FullValue::Record(fields) => {
                let mut partials: Vec<PartialValue<V>> = Vec::new();
                for field in it: fields.into_iter()
                    invariant
                        self == FullValue::Record(fields),
                        it.seq() == fields@,
                        partials.len() == it.index(),
                        forall|k: int|
                            0 <= k < partials.len() ==> (#[trigger] partials[k])@
                                == fields[k]@.materialize(),
                {
                    assert(decreases_to!(self => self->Record_0));
                    partials.push(field.into_partial());
                }
                assert(PartialValue::Record(partials)@->Record_0 =~= self@.materialize()->Record_0);
                PartialValue::Record(partials)
            },
        }
    }

    /// The arrangement of the leaves of `self`.
    pub fn layout(&self) -> (layout: Layout)
        ensures
            layout@ == self@.layout(),
        decreases self,
    {
        match self {
            FullValue::Leaf(_) => Layout::Leaf,
            FullValue::Record(fields) => {
                let mut layouts: Vec<Layout> = Vec::new();
                let mut i: usize = 0;
                while i < fields.len()
                    invariant
                        *self == FullValue::Record(*fields),
                        i <= fields.len(),
                        layouts.len() == i,
                        forall|k: int|
                            0 <= k < i ==> (#[trigger] layouts[k])@ == fields[k]@.layout(),
                    decreases fields.len() - i,
                {
                    assert(decreases_to!(self => self->Record_0));
                    layouts.push(fields[i].layout());
                    i = i + 1;
                }
                assert(Layout::Record(layouts)@->Record_0 =~= self@.layout()->Record_0);
                Layout::Record(layouts)
            },
        }
    }

    /// Overwrites each leaf that `partial` has present with its value.
    pub fn set(&mut self, partial: PartialValue<V>)
        ensures
            final(self)@ == old(self)@.apply(partial@),
            final(self)@.layout() == old(self)@.layout(),
        decreases *old(self),
    {
        proof {
            crate::laws::conversion_keeps_layout(old(self)@, partial@);
        }
        match self {
            FullValue::Leaf(mine) => {
                match partial {
                    PartialValue::Leaf(theirs) => {
                        if let Some(value) = theirs {
                            *mine = value;
                        }
                    },
                    PartialValue::Record(_) => {},
                }
            },
            FullValue::Record(mine) => {
                match partial {
                    PartialValue::Leaf(_) => {},
                    PartialValue::Record(theirs) => {
                        if mine.len() == theirs.len() {
                            Self::set_fields(mine, theirs);
                            assert(FullValue::Record(*mine)@->Record_0 =~= old(self)@.apply(
                                partial@,
                            )->Record_0);
                        }
                    },
                }
            },
        }
    }

    fn set_fields(mine: &mut Vec<FullValue<V>>, theirs: Vec<PartialValue<V>>)
        requires
            old(mine).len() == theirs.len(),
        ensures
            final(mine).len() == old(mine).len(),
            forall|k: int|
                0 <= k < theirs.len() ==> (#[trigger] final(mine)[k])@ == old(mine)[k]@.apply(
                    theirs[k]@,
                ),
        decreases *old(mine),
    {
        let mut theirs = theirs;
        let ghost given = theirs@;
        let mut i: usize = mine.len();
        while i > 0
            invariant
                i <= mine.len(),
                mine.len() == old(mine).len(),
                theirs@ == given.subrange(0, i as int),
                given.len() == mine.len(),
                forall|k: int| 0 <= k < i ==> mine[k] == old(mine)[k],
                forall|k: int|
                    i <= k < mine.len() ==> (#[trigger] mine[k])@ == old(mine)[k]@.apply(given[k]@),
            decreases i,
        {
            i = i - 1;
            let field = theirs.pop().unwrap();
            mine[i].set(field);
        }
    }
}

} // verus!
