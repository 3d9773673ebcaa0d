//! From a definition to the generated code, in one step.
use crate::args::{flatten_from_attributes, other_attributes, Args, ArgsModel, Fault};
use crate::assemble::{assemble, assembled_from, CodeArtifact};
use crate::emit::{bodies_for, operations, Operations};
use crate::error::{Construct, Error, Place};
use crate::schema::{field_id, fields_fault, Data, Definition, Field, Fields, StructSchema};
use crate::synth::{synthesize, GeneratedField, GeneratedType, GeneratedTypeSpec};
use vstd::prelude::*;

verus! {

/// What is generated for a definition: the shape of the partial type, the
/// bodies of its operations, and the code that declares and implements it.
#[derive(Debug, Clone, PartialEq, Eq)]
pub struct Generated {
    pub spec: GeneratedTypeSpec,
    pub operations: Operations,
    pub artifact: CodeArtifact,
}

/// The type that the generated type has for a declared field.
pub open spec fn generated_type_of(field: Field) -> GeneratedType {
    if flatten_from_attributes(field.attributes@) == Ok::<bool, Fault>(true) {
        GeneratedType::PartialOf(field.ty)
    } else {
        GeneratedType::Optional(field.ty)
    }
}

/// Whether `generated` is the field of the generated type for the field
/// declared at `index`.
pub open spec fn generated_for_field(generated: GeneratedField, field: Field, index: int) -> bool {
    &&& generated.id == field_id(field.name, index)
    &&& generated.visibility == field.visibility
    &&& generated.attributes@ == other_attributes(field.attributes@)
    &&& generated.ty == generated_type_of(field)
}

/// Whether `spec` is the shape of the partial type of a struct that is
/// declared with the given attributes resolved to `args`, and with `fields`.
pub open spec fn generated_for(
    spec: GeneratedTypeSpec,
    definition: Definition,
    args: ArgsModel,
    fields: Fields,
) -> bool {
    &&& fields.wf() ==> spec.wf()
    &&& spec.name@ == args.name_text(definition.name@)
    &&& spec.parent == definition.name
    &&& spec.attributes@ == args.attributes_text(definition.name@)
    &&& spec.visibility == definition.visibility
    &&& spec.generics == definition.generics
    &&& spec.field_kind == fields.kind()
    &&& spec.fields@.len() == fields.list().len()
    &&& forall|i: int|
        0 <= i < spec.fields@.len() ==> generated_for_field(
            #[trigger] spec.fields@[i],
            fields.list()[i],
            i,
        )
}

/// What `partial` returns for a definition.
///
/// An enum or a union is refused. Of a struct, first the attributes of the
/// definition are resolved, then those of the fields in order; the first that
/// cannot be resolved is reported, with the place of its attributes and the
/// position of the attribute among them. Otherwise the partial type is
/// generated.
pub open spec fn expected(definition: Definition, result: Result<Generated, Error>) -> bool {
    match definition.data {
        Data::Enum => result == Err::<Generated, Error>(Error::UnsupportedShape(Construct::Enum)),
        Data::Union => result == Err::<Generated, Error>(
            Error::UnsupportedShape(Construct::Union),
        ),
        Data::Struct(fields) => match ArgsModel::from_attributes(definition.attributes@) {
            Err(fault) => result matches Err(error) && error.refuses(Place::Definition, fault),
            Ok(args) => match fields_fault(fields.list(), 0) {
                Some((field, fault)) => {
                    &&& result matches Err(error)
                    &&& 0 <= field <= usize::MAX
                    &&& error.refuses(Place::Field(field as usize), fault)
                },
                None => {
                    &&& result matches Ok(generated)
                    &&& generated_for(generated.spec, definition, args, fields)
                    &&& bodies_for(generated.operations, generated.spec.fields@)
                    &&& assembled_from(generated.artifact, generated.spec, generated.operations)
                },
            },
        },
    }
}

/// Generates the partial type of a definition and the implementations of
/// its operations.
pub fn partial(definition: Definition) -> (result: Result<Generated, Error>)
    ensures
        expected(definition, result),
{
    let fields = match definition.data {
        Data::Struct(fields) => fields,
        Data::Enum => {
            return Err(Error::UnsupportedShape(Construct::Enum));
        },
        Data::Union => {
            return Err(Error::UnsupportedShape(Construct::Union));
        },
    };
    let args = match Args::from_attributes(&definition.attributes) {
        Ok(args) => args,
        Err(error) => {
            return Err(Error::InvalidOption { place: Place::Definition, error });
        },
    };
    let schema = match StructSchema::read(
        definition.name,
        definition.visibility,
        definition.generics,
        fields,
    ) {
        Ok(schema) => schema,
        Err(error) => {
            return Err(error);
        },
    };
    let spec = synthesize(schema, &args);
    let operations = operations(&spec);
    let artifact = assemble(&spec, &operations);
    Ok(Generated { spec, operations, artifact })
}

} // verus!
