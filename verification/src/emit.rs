//! The bodies of the generated operations, written field by field.
//!
//! Every operation goes over the fields in declaration order and does for
//! each field one of two things. A field with an optional value is handled
//! in place: it is empty when it holds nothing, `set_and` keeps it only if
//! both sides hold a value and then takes the other's, `set_or` fills it from
//! the other side if it holds nothing, and a full value is converted by
//! wrapping each field and applied by overwriting the fields that are
//! present. A field that is the partial of its type hands the operation on to
//! that partial. [`crate::value`] carries out the same rules on values.
use crate::synth::{GeneratedField, GeneratedType, GeneratedTypeSpec};
use crate::text::{joined, texts};
use vstd::prelude::*;

verus! {

/// The operations that are generated for a partial type and its source type.
#[derive(Debug, Clone, Copy, PartialEq, Eq)]
pub enum Operation {
    /// The partial with nothing present.
    Empty,
    /// Whether nothing is present.
    IsEmpty,
    /// Keep what both have, with the other's values.
    SetAnd,
    /// Keep what is there, fill the rest from the other.
    SetOr,
    /// The partial of a full value.
    Materialize,
    /// Overwrite a full value with what a partial has.
    Apply,
}

/// The bodies of the generated operations.
#[derive(Debug, Clone, PartialEq, Eq)]
pub struct Operations {
    /// Whether `empty` and `is_empty` can be evaluated at compile time: they
    /// can unless a field is the partial of its type.
    pub constant: bool,
    pub empty: String,
    pub is_empty: String,
    pub set_and: String,
    pub set_or: String,
    pub into_partial: String,
    pub set: String,
}

/// What an operation does for one field: the rule for an optional value, or
/// the call into the partial of the field's type.
pub open spec fn rule_text(operation: Operation, field: GeneratedField) -> Seq<char> {
    let member = field.id.text();
    match field.ty {
        GeneratedType::Optional(_) => match operation {
            Operation::Empty => member + ": ::core::option::Option::None"@,
            Operation::IsEmpty => "self."@ + member + ".is_none()"@,
            Operation::SetAnd => "self."@ + member + " = self."@ + member + ".as_ref().and(other."@
                + member + ");"@,
            Operation::SetOr => "if self."@ + member + ".is_none() { self."@ + member
                + " = other."@ + member + "; }"@,
            Operation::Materialize => member + ": ::core::option::Option::Some(self."@ + member
                + ")"@,
            Operation::Apply => "if let ::core::option::Option::Some(value) = partial."@ + member
                + " { self."@ + member + " = value; }"@,
        },
        GeneratedType::PartialOf(ty) => match operation {
            Operation::Empty => member + ": <::partial::Partial<"@ + ty@
                + "> as ::partial::PartialOps>::empty()"@,
            Operation::IsEmpty => "::partial::PartialOps::is_empty(&self."@ + member + ")"@,
            Operation::SetAnd => "::partial::PartialOps::set_and(&mut self."@ + member
                + ", other."@ + member + ");"@,
            Operation::SetOr => "::partial::PartialOps::set_or(&mut self."@ + member
                + ", other."@ + member + ");"@,
            Operation::Materialize => member + ": ::partial::IntoPartial::into_partial(self."@
                + member + ")"@,
            Operation::Apply => "::partial::IntoPartial::set(&mut self."@ + member + ", partial."@
                + member + ");"@,
        },
    }
}

/// What an operation does for each field, in field order.
pub open spec fn rule_texts(operation: Operation, fields: Seq<GeneratedField>) -> Seq<Seq<char>> {
    Seq::new(fields.len(), |i: int| rule_text(operation, fields[i]))
}

/// The body of an operation: its rules for the fields, put together as the
/// operation needs them.
pub open spec fn body_text(operation: Operation, fields: Seq<GeneratedField>) -> Seq<char> {
    let rules = rule_texts(operation, fields);
    match operation {
        Operation::Empty => "Self { "@ + joined(rules, ", "@) + " }"@,
        Operation::IsEmpty => if fields.len() == 0 {
            "true"@
        } else {
            joined(rules, " && "@)
        },
        Operation::Materialize => "Self::Partial { "@ + joined(rules, ", "@) + " }"@,
        _ => joined(rules, "\n        "@),
    }
}

/// Whether no field is the partial of its type.
pub open spec fn all_optional(fields: Seq<GeneratedField>) -> bool {
    forall|i: int| 0 <= i < fields.len() ==> (#[trigger] fields[i]).ty is Optional
}

/// Whether `operations` holds the bodies for the fields.
pub open spec fn bodies_for(operations: Operations, fields: Seq<GeneratedField>) -> bool {
    &&& operations.constant == all_optional(fields)
    &&& operations.empty@ == body_text(Operation::Empty, fields)
    &&& operations.is_empty@ == body_text(Operation::IsEmpty, fields)
    &&& operations.set_and@ == body_text(Operation::SetAnd, fields)
    &&& operations.set_or@ == body_text(Operation::SetOr, fields)
    &&& operations.into_partial@ == body_text(Operation::Materialize, fields)
    &&& operations.set@ == body_text(Operation::Apply, fields)
}

/// Writes what an operation does for one field.
pub fn rule(operation: Operation, field: &GeneratedField) -> (text: String)
    ensures
        text@ == rule_text(operation, *field),
{
    let member = field.id.render();
    let member = member.as_str();
    match &field.ty {
        GeneratedType::Optional(_) => match operation {
            Operation::Empty => {
                let mut text = String::from_str(member);
                text.append(": ::core::option::Option::None");
                text
            },
            Operation::IsEmpty => {
                let mut text = String::from_str("self.");
                text.append(member);
                text.append(".is_none()");
                text
            },
            Operation::SetAnd => {
                let mut text = String::from_str("self.");
                text.append(member);
                text.append(" = self.");
                text.append(member);
                text.append(".as_ref().and(other.");
                text.append(member);
                text.append(");");
                text
            },
            Operation::SetOr => {
                let mut text = String::from_str("if self.");
                text.append(member);
                text.append(".is_none() { self.");
                text.append(member);
                text.append(" = other.");
                text.append(member);
                text.append("; }");
                text
            },
            Operation::Materialize => {
                let mut text = String::from_str(member);
                text.append(": ::core::option::Option::Some(self.");
                text.append(member);
                text.append(")");
                text
            },
            Operation::Apply => {
                let mut text = String::from_str(
                    "if let ::core::option::Option::Some(value) = partial.",
                );
                text.append(member);
                text.append(" { self.");
                text.append(member);
                text.append(" = value; }");
                text
            },
        },
        GeneratedType::PartialOf(ty) => match operation {
            Operation::Empty => {
                let mut text = String::from_str(member);
                text.append(": <::partial::Partial<");
                text.append(ty.as_str());
                text.append("> as ::partial::PartialOps>::empty()");
                text
            },
            Operation::IsEmpty => {
                let mut text = String::from_str("::partial::PartialOps::is_empty(&self.");
                text.append(member);
                text.append(")");
                text
            },
            Operation::SetAnd => {
                let mut text = String::from_str("::partial::PartialOps::set_and(&mut self.");
                text.append(member);
                text.append(", other.");
                text.append(member);
                text.append(");");
                text
            },
            Operation::SetOr => {
                let mut text = String::from_str("::partial::PartialOps::set_or(&mut self.");
                text.append(member);
                text.append(", other.");
                text.append(member);
                text.append(");");
                text
            },
            Operation::Materialize => {
                let mut text = String::from_str(member);
                text.append(": ::partial::IntoPartial::into_partial(self.");
                text.append(member);
                text.append(")");
                text
            },
            Operation::Apply => {
                let mut text = String::from_str("::partial::IntoPartial::set(&mut self.");
                text.append(member);
                text.append(", partial.");
                text.append(member);
                text.append(");");
                text
            },
        },
    }
}

/// Writes the body of an operation over the fields.
pub fn body(operation: Operation, fields: &Vec<GeneratedField>) -> (text: String)
    ensures
        text@ == body_text(operation, fields@),
{
    let mut rules: Vec<String> = Vec::new();
    let mut i: usize = 0;
    while i < fields.len()
        invariant
            i <= fields.len(),
            rules@.len() == i,
            forall|k: int|
                0 <= k < i ==> (#[trigger] rules@[k])@ == rule_text(operation, fields@[k]),
        decreases fields.len() - i,
    {
        rules.push(rule(operation, &fields[i]));
        i = i + 1;
    }
    assert(texts(rules@) =~= rule_texts(operation, fields@));
    match operation {
        Operation::Empty => {
            let mut text = String::from_str("Self { ");
            text.append(crate::text::join(&rules, ", ").as_str());
            text.append(" }");
            text
        },
        Operation::IsEmpty => {
            if fields.len() == 0 {
                String::from_str("true")
            } else {
                crate::text::join(&rules, " && ")
            }
        },
        Operation::Materialize => {
            let mut text = String::from_str("Self::Partial { ");
            text.append(crate::text::join(&rules, ", ").as_str());
            text.append(" }");
            text
        },
        _ => crate::text::join(&rules, "\n        "),
    }
}

/// Whether no field is the partial of its type.
pub fn is_constant(fields: &Vec<GeneratedField>) -> (constant: bool)
    ensures
        constant == all_optional(fields@),
{
    let mut i: usize = 0;
    while i < fields.len()
        invariant
            i <= fields.len(),
            forall|k: int| 0 <= k < i ==> (#[trigger] fields@[k]).ty is Optional,
        decreases fields.len() - i,
    {
        match &fields[i].ty {
            GeneratedType::Optional(_) => {},
            GeneratedType::PartialOf(_) => {
                return false;
            },
        }
        i = i + 1;
    }
    true
}

/// Writes the bodies of all operations for a generated type.
pub fn operations(spec: &GeneratedTypeSpec) -> (operations: Operations)
    ensures
        bodies_for(operations, spec.fields@),
{
    Operations {
        constant: is_constant(&spec.fields),
        empty: body(Operation::Empty, &spec.fields),
        is_empty: body(Operation::IsEmpty, &spec.fields),
        set_and: body(Operation::SetAnd, &spec.fields),
        set_or: body(Operation::SetOr, &spec.fields),
        into_partial: body(Operation::Materialize, &spec.fields),
        set: body(Operation::Apply, &spec.fields),
    }
}

} // verus!
