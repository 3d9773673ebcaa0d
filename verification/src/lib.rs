//! Partial representations of product types.
//!
//! A *partial* of a struct mirrors its fields: each field holds an optional
//! value, or, where the field is flattened, the partial of the field's own
//! type. Partials of one type can be merged (`and`, `or`), built from a full
//! value and applied onto one.
//!
//! The crate has three parts.
//!
//! * [`ops`] holds the traits that a partial type and its source type
//!   implement, with the model and the laws of their operations.
//! * [`generate`] derives the partial type of a definition: [`schema`] is the
//!   definition as plain data, [`args`] resolves its configuration attributes
//!   ([`resolution`] says when they resolve, [`ident`] says what an
//!   identifier is), [`synth`] computes the shape of the partial type,
//!   [`emit`] writes the bodies of its operations field by field, and
//!   [`assemble`] puts the generated code together.
//! * [`value`] carries the same operations out on values whose layout is
//!   known only at run time; [`model`] is their mathematical model and
//!   [`laws`] proves what holds of it for every layout.
pub mod args;
pub mod assemble;
pub mod emit;
pub mod error;
pub mod generate;
pub mod ident;
pub mod laws;
pub mod model;
pub mod ops;
pub mod resolution;
pub mod schema;
pub mod synth;
pub mod text;
pub mod value;

pub use crate::args::{Args, ConfigError, FieldArgs, InvalidReason};
pub use crate::error::{Construct, Error, Place};
pub use crate::generate::{partial, Generated};
pub use crate::ops::{IntoPartial, Partial, PartialOps};
