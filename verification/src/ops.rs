//! The operations every partial type offers, and the conversions between a
//! type and its partial.
//!
//! Each trait carries a model of its operations as spec functions. An
//! implementation that is verified says so in `obeys_model` and defines the
//! model; of any other implementation nothing is claimed.
use vstd::prelude::*;

verus! {

/// Operations on a partial type.
pub trait PartialOps: Sized {
    /// Whether the implementation keeps to the model below.
    open spec fn obeys_model() -> bool {
        false
    }

    /// The partial in which nothing is present.
    open spec fn empty_value() -> Self {
        arbitrary()
    }

    /// Whether nothing is present in `self`.
    open spec fn nothing_present(&self) -> bool {
        arbitrary()
    }

    /// What is present in both, with the values of `other`.
    open spec fn merged_and(self, other: Self) -> Self {
        arbitrary()
    }

    /// What is present in either, with the values of `self` where it has them.
    open spec fn merged_or(self, other: Self) -> Self {
        arbitrary()
    }

    /// Creates an empty partial.
    fn empty() -> (r: Self)
        ensures
            Self::obeys_model() ==> r == Self::empty_value(),
    ;

    /// Checks whether the partial is empty.
    fn is_empty(&self) -> (b: bool)
        ensures
            Self::obeys_model() ==> b == self.nothing_present(),
    ;

    /// Returns a partial with values of `other` if both partials have them and
    /// nothing otherwise.
    fn and(self, other: Self) -> (r: Self)
        ensures
            Self::obeys_model() ==> r == self.merged_and(other),
    {
        let mut merged = self;
        merged.set_and(other);
        merged
    }

    /// Sets values to `other` if both partials have them and to nothing
    /// otherwise.
    fn set_and(&mut self, other: Self)
        ensures
            Self::obeys_model() ==> *final(self) == old(self).merged_and(other),
    ;

    /// Returns a partial with values of either partial, those of `self` first.
    fn or(self, other: Self) -> (r: Self)
        ensures
            Self::obeys_model() ==> r == self.merged_or(other),
    {
        let mut merged = self;
        merged.set_or(other);
        merged
    }

    /// Sets values to either partial, keeping those already present.
    fn set_or(&mut self, other: Self)
        ensures
            Self::obeys_model() ==> *final(self) == old(self).merged_or(other),
    ;
}

/// The laws of the merge operations, for an implementation that keeps to its
/// model.
pub trait PartialLaws: PartialOps {
    /// The implementation keeps to its model.
    proof fn keeps_to_model()
        ensures
            Self::obeys_model(),
    ;

    /// Nothing is present exactly in the empty partial.
    proof fn empty_is_unique(p: Self)
        ensures
            p.nothing_present() <==> p == Self::empty_value(),
    ;

    /// The empty partial is neutral for `or`, on either side.
    proof fn or_empty_neutral(p: Self)
        ensures
            Self::empty_value().merged_or(p) == p,
            p.merged_or(Self::empty_value()) == p,
    ;

    /// The empty partial absorbs under `and`, on either side.
    proof fn and_empty_absorbs(p: Self)
        ensures
            Self::empty_value().merged_and(p) == Self::empty_value(),
            p.merged_and(Self::empty_value()) == Self::empty_value(),
    ;
}

/// Partial representation of the type.
pub type Partial<T> = <T as IntoPartial>::Partial;

/// A type that has a partial representation.
pub trait IntoPartial: Sized {
    /// Partial representation of the type.
    type Partial: PartialOps;

    /// Whether the implementation keeps to the model below.
    open spec fn obeys_model() -> bool {
        false
    }

    /// The partial in which every leaf of `self` is present.
    open spec fn as_partial(self) -> Self::Partial {
        arbitrary()
    }

    /// `self` with the leaves that `partial` has present overwritten.
    open spec fn updated(self, partial: Self::Partial) -> Self {
        arbitrary()
    }

    /// Converts the type into its partial representation.
    fn into_partial(self) -> (r: Self::Partial)
        ensures
            Self::obeys_model() ==> r == self.as_partial(),
    ;

    /// Sets values from partial representation.
    fn set(&mut self, partial: Self::Partial)
        ensures
            Self::obeys_model() ==> *final(self) == old(self).updated(partial),
    ;
}

/// The laws of the conversions, for an implementation that keeps to its
/// model.
pub trait ConversionLaws: IntoPartial {
    /// The implementation keeps to its model.
    proof fn keeps_to_model()
        ensures
            <Self as IntoPartial>::obeys_model(),
    ;

    /// Applying the partial of a value onto any value gives the former.
    proof fn partial_round_trip(target: Self, source: Self)
        ensures
            target.updated(source.as_partial()) == source,
    ;

    /// Applying the empty partial changes nothing.
    proof fn empty_changes_nothing(target: Self)
        ensures
            target.updated(Self::Partial::empty_value()) == target,
    ;
}

/// An optional value is the partial of a single leaf.
impl<T> PartialOps for Option<T> {
    open spec fn obeys_model() -> bool {
        true
    }

    open spec fn empty_value() -> Self {
        None
    }

    open spec fn nothing_present(&self) -> bool {
        self is None
    }

    open spec fn merged_and(self, other: Self) -> Self {
        if self is Some {
            other
        } else {
            None
        }
    }

    open spec fn merged_or(self, other: Self) -> Self {
        if self is Some {
            self
        } else {
            other
        }
    }

    fn empty() -> (r: Self) {
        None
    }

    fn is_empty(&self) -> (b: bool) {
        self.is_none()
    }

    fn set_and(&mut self, other: Self) {
        if self.is_some() {
            *self = other;
        }
    }

    fn set_or(&mut self, other: Self) {
        if self.is_none() {
            *self = other;
        }
    }
}

impl<T> PartialLaws for Option<T> {
    proof fn keeps_to_model() {
    }

    proof fn empty_is_unique(p: Self) {
    }

    proof fn or_empty_neutral(p: Self) {
    }

    proof fn and_empty_absorbs(p: Self) {
    }
}

/// The partial of a type without fields.
impl PartialOps for () {
    open spec fn obeys_model() -> bool {
        true
    }

    open spec fn empty_value() -> Self {
        ()
    }

    open spec fn nothing_present(&self) -> bool {
        true
    }

    open spec fn merged_and(self, other: Self) -> Self {
        ()
    }

    open spec fn merged_or(self, other: Self) -> Self {
        ()
    }

    fn empty() -> (r: Self) {
        ()
    }

    fn is_empty(&self) -> (b: bool) {
        true
    }

    fn set_and(&mut self, other: Self) {
    }

    fn set_or(&mut self, other: Self) {
    }
}

impl PartialLaws for () {
    proof fn keeps_to_model() {
    }

    proof fn empty_is_unique(p: Self) {
    }

    proof fn or_empty_neutral(p: Self) {
    }

    proof fn and_empty_absorbs(p: Self) {
    }
}

/// A type without fields is its own partial.
impl IntoPartial for () {
    type Partial = ();

    open spec fn obeys_model() -> bool {
        true
    }

    open spec fn as_partial(self) -> Self::Partial {
        ()
    }

    open spec fn updated(self, partial: Self::Partial) -> Self {
        ()
    }

    fn into_partial(self) -> (r: Self::Partial) {
        ()
    }

    fn set(&mut self, partial: Self::Partial) {
    }
}

impl ConversionLaws for () {
    proof fn keeps_to_model() {
    }

    proof fn partial_round_trip(target: Self, source: Self) {
    }

    proof fn empty_changes_nothing(target: Self) {
    }
}

} // verus!
