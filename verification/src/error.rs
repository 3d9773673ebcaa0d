//! Why no code is generated for a definition.
use crate::args::{fault_text, ConfigError, Fault};
use vstd::prelude::*;

verus! {

/// A kind of definition that has no partial.
#[derive(Debug, Clone, Copy, PartialEq, Eq)]
pub enum Construct {
    Enum,
    Union,
}

/// Where a list of attributes stands.
#[derive(Debug, Clone, Copy, PartialEq, Eq)]
pub enum Place {
    /// On the definition itself.
    Definition,
    /// On the field at the given position, counted from zero.
    Field(usize),
}

/// Why no code was generated for a definition.
#[derive(Debug, Clone, PartialEq, Eq)]
pub enum Error {
    /// The definition is no struct.
    UnsupportedShape(Construct),
    /// A configuration attribute could not be resolved.
    InvalidOption {
        /// Where the list of attributes stands in which `error` gives a
        /// position.
        place: Place,
        error: ConfigError,
    },
}

impl Error {
    /// Whether the error reports `fault` in the attributes at `place`.
    pub open spec fn refuses(self, place: Place, fault: Fault) -> bool {
        &&& self is InvalidOption
        &&& self->place == place
        &&& self->error@ == fault
    }

    /// What is reported for the error: the construct that has no partial, or
    /// the option that was refused.
    pub open spec fn text(self) -> Seq<char> {
        match self {
            Error::UnsupportedShape(Construct::Enum) => "enum not supported by partial derive"@,
            Error::UnsupportedShape(Construct::Union) => "union not supported by partial derive"@,
            Error::InvalidOption { error, .. } => fault_text(error@),
        }
    }

    /// What to report for the error.
    pub fn message(&self) -> (message: String)
        ensures
            message@ == self.text(),
    {
        match self {
            Error::UnsupportedShape(Construct::Enum) => String::from_str(
                "enum not supported by partial derive",
            ),
            Error::UnsupportedShape(Construct::Union) => String::from_str(
                "union not supported by partial derive",
            ),
            Error::InvalidOption { error, .. } => error.message(),
        }
    }
}

} // verus!
