use partial::assemble::assemble;
use partial::emit::{body, operations, rule, Operation};
use partial::error::{Construct, Error, Place};
use partial::generate::partial;
use partial::schema::{
    Attribute, Data, Definition, Field, FieldId, FieldKind, Fields, Generics, OptionValue,
    RawOption, StructSchema, Visibility,
};
use partial::synth::{synthesize, GeneratedField, GeneratedType};
use partial::text::{concatenate, decimal, join};
use partial::value::Layout;
use partial::Args;

fn no_generics() -> Generics {
    Generics {
        impl_generics: String::new(),
        type_generics: String::new(),
        where_clause: String::new(),
    }
}

fn named(name: &str, ty: &str) -> Field {
    Field {
        attributes: Vec::new(),
        visibility: Visibility::Inherited,
        name: Some(name.to_string()),
        ty: ty.to_string(),
    }
}

fn unnamed(ty: &str) -> Field {
    Field {
        attributes: Vec::new(),
        visibility: Visibility::Inherited,
        name: None,
        ty: ty.to_string(),
    }
}

fn flattened(mut field: Field) -> Field {
    field.attributes.push(Attribute::Config(vec![RawOption {
        key: "flatten".to_string(),
        value: OptionValue::Flag,
    }]));
    field
}

fn definition(name: &str, data: Data) -> Definition {
    Definition {
        attributes: Vec::new(),
        visibility: Visibility::Inherited,
        name: name.to_string(),
        generics: no_generics(),
        data,
    }
}

fn optional(id: FieldId, ty: &str) -> GeneratedField {
    GeneratedField {
        attributes: Vec::new(),
        visibility: Visibility::Inherited,
        id,
        ty: GeneratedType::Optional(ty.to_string()),
    }
}

fn nested(id: FieldId, ty: &str) -> GeneratedField {
    GeneratedField {
        attributes: Vec::new(),
        visibility: Visibility::Inherited,
        id,
        ty: GeneratedType::PartialOf(ty.to_string()),
    }
}

#[test]
fn numbers_are_written_in_decimal() {
    assert_eq!(decimal(0), "0");
    assert_eq!(decimal(7), "7");
    assert_eq!(decimal(10), "10");
    assert_eq!(decimal(123), "123");
    assert_eq!(decimal(9000), "9000");
    assert_eq!(decimal(4294967295), "4294967295");
}

#[test]
fn parts_are_joined_with_the_separator_between() {
    let parts = vec!["a".to_string(), "b".to_string(), "c".to_string()];
    assert_eq!(join(&parts, ", "), "a, b, c");
    assert_eq!(join(&parts[..1].to_vec(), ", "), "a");
    assert_eq!(join(&Vec::new(), ", "), "");
    assert_eq!(concatenate(&parts), "abc");
    assert_eq!(concatenate(&Vec::new()), "");
}

#[test]
fn visibility_and_identifiers_are_written_as_declared() {
    assert_eq!(Visibility::Inherited.render(), "");
    assert_eq!(Visibility::Public.render(), "pub ");
    assert_eq!(Visibility::Restricted("crate".to_string()).render(), "pub(crate) ");
    assert_eq!(Visibility::Restricted("in crate::a".to_string()).render(), "pub(in crate::a) ");
    assert_eq!(FieldId::Name("id".to_string()).render(), "id");
    assert_eq!(FieldId::Position(12).render(), "12");
    assert_eq!(
        GeneratedType::Optional("Vec<u8>".to_string()).render(),
        "::core::option::Option<Vec<u8>>"
    );
    assert_eq!(
        GeneratedType::PartialOf("Inner".to_string()).render(),
        "::partial::Partial<Inner>"
    );
}

#[test]
fn the_rules_of_an_optional_field() {
    let field = optional(FieldId::Name("id".to_string()), "u32");
    assert_eq!(rule(Operation::Empty, &field), "id: ::core::option::Option::None");
    assert_eq!(rule(Operation::IsEmpty, &field), "self.id.is_none()");
    assert_eq!(rule(Operation::SetAnd, &field), "self.id = self.id.as_ref().and(other.id);");
    assert_eq!(rule(Operation::SetOr, &field), "if self.id.is_none() { self.id = other.id; }");
    assert_eq!(rule(Operation::Materialize, &field), "id: ::core::option::Option::Some(self.id)");
    assert_eq!(
        rule(Operation::Apply, &field),
        "if let ::core::option::Option::Some(value) = partial.id { self.id = value; }"
    );
}

#[test]
fn the_rules_of_a_flattened_field() {
    let field = nested(FieldId::Position(1), "Inner<T>");
    assert_eq!(
        rule(Operation::Empty, &field),
        "1: <::partial::Partial<Inner<T>> as ::partial::PartialOps>::empty()"
    );
    assert_eq!(rule(Operation::IsEmpty, &field), "::partial::PartialOps::is_empty(&self.1)");
    assert_eq!(
        rule(Operation::SetAnd, &field),
        "::partial::PartialOps::set_and(&mut self.1, other.1);"
    );
    assert_eq!(
        rule(Operation::SetOr, &field),
        "::partial::PartialOps::set_or(&mut self.1, other.1);"
    );
    assert_eq!(
        rule(Operation::Materialize, &field),
        "1: ::partial::IntoPartial::into_partial(self.1)"
    );
    assert_eq!(
        rule(Operation::Apply, &field),
        "::partial::IntoPartial::set(&mut self.1, partial.1);"
    );
}

#[test]
fn bodies_go_over_the_fields_in_order() {
    let fields = vec![
        optional(FieldId::Name("a".to_string()), "u8"),
        nested(FieldId::Name("b".to_string()), "B"),
    ];
    assert_eq!(
        body(Operation::Empty, &fields),
        "Self { a: ::core::option::Option::None, b: <::partial::Partial<B> as ::partial::PartialOps>::empty() }"
    );
    assert_eq!(
        body(Operation::IsEmpty, &fields),
        "self.a.is_none() && ::partial::PartialOps::is_empty(&self.b)"
    );
    assert_eq!(
        body(Operation::SetAnd, &fields),
        "self.a = self.a.as_ref().and(other.a);\n        ::partial::PartialOps::set_and(&mut self.b, other.b);"
    );
    assert_eq!(
        body(Operation::SetOr, &fields),
        "if self.a.is_none() { self.a = other.a; }\n        ::partial::PartialOps::set_or(&mut self.b, other.b);"
    );
    assert_eq!(
        body(Operation::Materialize, &fields),
        "Self::Partial { a: ::core::option::Option::Some(self.a), b: ::partial::IntoPartial::into_partial(self.b) }"
    );
    assert_eq!(
        body(Operation::Apply, &fields),
        "if let ::core::option::Option::Some(value) = partial.a { self.a = value; }\n        ::partial::IntoPartial::set(&mut self.b, partial.b);"
    );
}

#[test]
fn bodies_of_a_type_without_fields() {
    let fields = Vec::new();
    assert_eq!(body(Operation::Empty, &fields), "Self {  }");
    assert_eq!(body(Operation::IsEmpty, &fields), "true");
    assert_eq!(body(Operation::SetAnd, &fields), "");
    assert_eq!(body(Operation::SetOr, &fields), "");
    assert_eq!(body(Operation::Materialize, &fields), "Self::Partial {  }");
    assert_eq!(body(Operation::Apply, &fields), "");
}

#[test]
fn generated_code_of_a_struct_with_named_fields() {
    let generated = partial(definition(
        "Test",
        Data::Struct(Fields::Named(vec![
            named("valid", "bool"),
            named("id", "u32"),
            named("name", "String"),
        ])),
    ))
    .unwrap();

    assert_eq!(generated.spec.name, "PartialTest");
    assert_eq!(generated.spec.parent, "Test");
    assert_eq!(generated.spec.field_kind, FieldKind::Named);
    assert_eq!(
        generated.spec.fields,
        vec![
            optional(FieldId::Name("valid".to_string()), "bool"),
            optional(FieldId::Name("id".to_string()), "u32"),
            optional(FieldId::Name("name".to_string()), "String"),
        ]
    );
    assert!(generated.operations.constant);

    assert_eq!(
        generated.artifact.declaration,
        "#[automatically_derived]\n\
         #[doc = \"Partial of [`Test`].\"]\n\
         #[derive()]\n\
         struct PartialTest {\n    \
             valid: ::core::option::Option<bool>,\n    \
             id: ::core::option::Option<u32>,\n    \
             name: ::core::option::Option<String>,\n\
         }"
    );
    assert_eq!(
        generated.artifact.helpers,
        "#[automatically_derived]\n\
         impl PartialTest {\n    \
             /// Creates an empty partial.\n    \
             #[inline]\n    \
             pub const fn empty() -> Self {\n        \
                 Self { valid: ::core::option::Option::None, id: ::core::option::Option::None, name: ::core::option::Option::None }\n    \
             }\n\
             \n    \
             /// Checks if the partial is empty.\n    \
             #[inline]\n    \
             pub const fn is_empty(&self) -> bool {\n        \
                 self.valid.is_none() && self.id.is_none() && self.name.is_none()\n    \
             }\n\
         }"
    );
    assert_eq!(
        generated.artifact.default_impl,
        "#[automatically_derived]\n\
         impl ::core::default::Default for PartialTest {\n    \
             #[inline]\n    \
             fn default() -> Self {\n        \
                 Self::empty()\n    \
             }\n\
         }"
    );
    assert_eq!(
        generated.artifact.merge_impl,
        "#[automatically_derived]\n\
         impl ::partial::PartialOps for PartialTest {\n    \
             #[inline]\n    \
             fn empty() -> Self {\n        \
                 Self::empty()\n    \
             }\n\
             \n    \
             #[inline]\n    \
             fn is_empty(&self) -> bool {\n        \
                 self.is_empty()\n    \
             }\n\
             \n    \
             #[inline]\n    \
             fn set_and(&mut self, other: Self) {\n        \
                 self.valid = self.valid.as_ref().and(other.valid);\n        \
                 self.id = self.id.as_ref().and(other.id);\n        \
                 self.name = self.name.as_ref().and(other.name);\n    \
             }\n\
             \n    \
             #[inline]\n    \
             fn set_or(&mut self, other: Self) {\n        \
                 if self.valid.is_none() { self.valid = other.valid; }\n        \
                 if self.id.is_none() { self.id = other.id; }\n        \
                 if self.name.is_none() { self.name = other.name; }\n    \
             }\n\
         }"
    );
    assert_eq!(
        generated.artifact.conversion_impl,
        "#[automatically_derived]\n\
         impl ::partial::IntoPartial for Test {\n    \
             type Partial = PartialTest;\n\
             \n    \
             #[inline]\n    \
             fn into_partial(self) -> Self::Partial {\n        \
                 Self::Partial { valid: ::core::option::Option::Some(self.valid), id: ::core::option::Option::Some(self.id), name: ::core::option::Option::Some(self.name) }\n    \
             }\n\
             \n    \
             #[inline]\n    \
             fn set(&mut self, partial: Self::Partial) {\n        \
                 if let ::core::option::Option::Some(value) = partial.valid { self.valid = value; }\n        \
                 if let ::core::option::Option::Some(value) = partial.id { self.id = value; }\n        \
                 if let ::core::option::Option::Some(value) = partial.name { self.name = value; }\n    \
             }\n\
         }"
    );
    assert_eq!(
        generated.artifact.source(),
        [
            generated.artifact.declaration.as_str(),
            generated.artifact.helpers.as_str(),
            generated.artifact.default_impl.as_str(),
            generated.artifact.merge_impl.as_str(),
            generated.artifact.conversion_impl.as_str(),
        ]
        .join("\n\n")
            + "\n"
    );
}

#[test]
fn generics_and_where_clause_are_kept_on_every_item() {
    let mut generic = definition(
        "Generic",
        Data::Struct(Fields::Named(vec![named("name", "S"), named("value", "&'a T")])),
    );
    generic.visibility = Visibility::Public;
    generic.generics = Generics {
        impl_generics: "<'a, S: Clone, T>".to_string(),
        type_generics: "<'a, S, T>".to_string(),
        where_clause: "where S: Into<String>".to_string(),
    };
    let generated = partial(generic).unwrap();
    assert_eq!(
        generated.artifact.declaration,
        "#[automatically_derived]\n\
         #[doc = \"Partial of [`Generic`].\"]\n\
         #[derive()]\n\
         pub struct PartialGeneric<'a, S: Clone, T> where S: Into<String> {\n    \
             name: ::core::option::Option<S>,\n    \
             value: ::core::option::Option<&'a T>,\n\
         }"
    );
    assert!(generated
        .artifact
        .helpers
        .starts_with("#[automatically_derived]\nimpl<'a, S: Clone, T> PartialGeneric<'a, S, T> where S: Into<String> {\n"));
    assert!(generated.artifact.default_impl.starts_with(
        "#[automatically_derived]\nimpl<'a, S: Clone, T> ::core::default::Default for PartialGeneric<'a, S, T> where S: Into<String> {\n"
    ));
    assert!(generated.artifact.merge_impl.starts_with(
        "#[automatically_derived]\nimpl<'a, S: Clone, T> ::partial::PartialOps for PartialGeneric<'a, S, T> where S: Into<String> {\n"
    ));
    assert!(generated.artifact.conversion_impl.starts_with(
        "#[automatically_derived]\nimpl<'a, S: Clone, T> ::partial::IntoPartial for Generic<'a, S, T> where S: Into<String> {\n    type Partial = PartialGeneric<'a, S, T>;\n"
    ));
}

#[test]
fn a_flattened_field_has_the_partial_of_its_type() {
    let mut inner = flattened(named("inner", "Inner"));
    inner.attributes.insert(0, Attribute::Other("#[serde(default)]".to_string()));
    inner.visibility = Visibility::Public;
    let generated = partial(definition(
        "Outer",
        Data::Struct(Fields::Named(vec![named("id", "u32"), inner])),
    ))
    .unwrap();

    assert_eq!(
        generated.spec.fields[1],
        GeneratedField {
            attributes: vec![Attribute::Other("#[serde(default)]".to_string())],
            visibility: Visibility::Public,
            id: FieldId::Name("inner".to_string()),
            ty: GeneratedType::PartialOf("Inner".to_string()),
        }
    );
    assert!(!generated.operations.constant);
    assert_eq!(
        generated.artifact.declaration,
        "#[automatically_derived]\n\
         #[doc = \"Partial of [`Outer`].\"]\n\
         #[derive()]\n\
         struct PartialOuter {\n    \
             id: ::core::option::Option<u32>,\n    \
             #[serde(default)] pub inner: ::partial::Partial<Inner>,\n\
         }"
    );
    assert!(generated.artifact.helpers.contains("    pub fn empty() -> Self {\n"));
    assert!(generated.artifact.helpers.contains("    pub fn is_empty(&self) -> bool {\n"));
    assert!(!generated.artifact.helpers.contains("const"));

    let inner_layout = Layout::Record(vec![Layout::Leaf, Layout::Leaf]);
    assert_eq!(
        generated.spec.layout(&vec![inner_layout]),
        Some(Layout::Record(vec![
            Layout::Leaf,
            Layout::Record(vec![Layout::Leaf, Layout::Leaf]),
        ]))
    );
    assert_eq!(generated.spec.layout(&Vec::new()), None);
    assert_eq!(generated.spec.layout(&vec![Layout::Leaf, Layout::Leaf]), None);
}

#[test]
fn a_tuple_struct_addresses_its_fields_by_position() {
    let fields: Vec<Field> = (0..12).map(|_| unnamed("u8")).collect();
    let generated = partial(definition("Wide", Data::Struct(Fields::Unnamed(fields)))).unwrap();
    assert_eq!(generated.spec.field_kind, FieldKind::Tuple);
    assert_eq!(generated.spec.fields[0].id, FieldId::Position(0));
    assert_eq!(generated.spec.fields[11].id, FieldId::Position(11));
    assert!(generated.operations.is_empty.ends_with("self.10.is_none() && self.11.is_none()"));
    assert!(generated
        .artifact
        .declaration
        .starts_with("#[automatically_derived]\n#[doc = \"Partial of [`Wide`].\"]\n#[derive()]\nstruct PartialWide(::core::option::Option<u8>, "));
    assert!(generated.artifact.declaration.ends_with("::core::option::Option<u8>);"));
}

#[test]
fn a_unit_struct_has_a_unit_partial() {
    let generated = partial(definition("Unit", Data::Struct(Fields::Unit))).unwrap();
    assert_eq!(generated.spec.field_kind, FieldKind::Unit);
    assert!(generated.spec.fields.is_empty());
    assert_eq!(
        generated.artifact.declaration,
        "#[automatically_derived]\n#[doc = \"Partial of [`Unit`].\"]\n#[derive()]\nstruct PartialUnit;"
    );
    assert_eq!(generated.operations.is_empty, "true");
    assert_eq!(generated.operations.empty, "Self {  }");
    assert!(generated.operations.constant);
    assert_eq!(generated.spec.layout(&Vec::new()), Some(Layout::Record(Vec::new())));
}

#[test]
fn a_struct_with_empty_braces_keeps_them() {
    let generated = partial(definition("Empty", Data::Struct(Fields::Named(Vec::new())))).unwrap();
    assert_eq!(
        generated.artifact.declaration,
        "#[automatically_derived]\n#[doc = \"Partial of [`Empty`].\"]\n#[derive()]\nstruct PartialEmpty {\n}"
    );
}

#[test]
fn an_enum_is_refused() {
    let result = partial(definition("Choice", Data::Enum));
    assert_eq!(result, Err(Error::UnsupportedShape(Construct::Enum)));
    assert_eq!(
        Error::UnsupportedShape(Construct::Enum).message(),
        "enum not supported by partial derive"
    );
}

#[test]
fn a_union_is_refused() {
    let result = partial(definition("Overlay", Data::Union));
    assert_eq!(result, Err(Error::UnsupportedShape(Construct::Union)));
    assert_eq!(
        Error::UnsupportedShape(Construct::Union).message(),
        "union not supported by partial derive"
    );
}

#[test]
fn an_enum_is_refused_before_its_attributes_are_read() {
    let mut choice = definition("Choice", Data::Enum);
    choice.attributes.push(Attribute::Config(vec![RawOption {
        key: "bogus".to_string(),
        value: OptionValue::Flag,
    }]));
    assert_eq!(partial(choice), Err(Error::UnsupportedShape(Construct::Enum)));
}

#[test]
fn a_refused_option_stops_the_generation() {
    let mut refused = definition("Test", Data::Struct(Fields::Named(vec![named("id", "u32")])));
    refused.attributes.push(Attribute::Config(vec![RawOption {
        key: "bogus".to_string(),
        value: OptionValue::Flag,
    }]));
    let error = partial(refused).unwrap_err();
    assert_eq!(
        error,
        Error::InvalidOption {
            place: Place::Definition,
            error: partial::ConfigError::InvalidOption {
                key: "bogus".to_string(),
                reason: partial::InvalidReason::UnknownKey,
                attribute: 0,
            },
        }
    );
    assert_eq!(error.message(), "unknown option `bogus`");
}

#[test]
fn a_name_that_is_no_identifier_stops_the_generation() {
    let mut refused = definition("Test", Data::Struct(Fields::Named(vec![named("id", "u32")])));
    refused.attributes.push(Attribute::Other("#[derive(Partial)]".to_string()));
    refused.attributes.push(Attribute::Config(vec![RawOption {
        key: "derive".to_string(),
        value: OptionValue::List(vec!["Debug".to_string()]),
    }]));
    refused.attributes.push(Attribute::Config(vec![RawOption {
        key: "name".to_string(),
        value: OptionValue::Text("my type".to_string()),
    }]));
    let error = partial(refused).unwrap_err();
    assert_eq!(
        error,
        Error::InvalidOption {
            place: Place::Definition,
            error: partial::ConfigError::InvalidOption {
                key: "name".to_string(),
                reason: partial::InvalidReason::WrongValue,
                attribute: 2,
            },
        }
    );
    assert_eq!(error.message(), "invalid value for option `name`");
}

#[test]
fn a_const_parameter_is_declared_as_one() {
    let mut buffer = definition(
        "Buffer",
        Data::Struct(Fields::Named(vec![named("bytes", "[u8; N]")])),
    );
    buffer.generics = Generics {
        impl_generics: "<const N: usize>".to_string(),
        type_generics: "<N>".to_string(),
        where_clause: String::new(),
    };
    let generated = partial(buffer).unwrap();
    assert_eq!(
        generated.artifact.declaration,
        "#[automatically_derived]\n\
         #[doc = \"Partial of [`Buffer`].\"]\n\
         #[derive()]\n\
         struct PartialBuffer<const N: usize> {\n    \
             bytes: ::core::option::Option<[u8; N]>,\n\
         }"
    );
    assert!(generated
        .artifact
        .helpers
        .starts_with("#[automatically_derived]\nimpl<const N: usize> PartialBuffer<N> {\n"));
    assert!(generated.artifact.conversion_impl.starts_with(
        "#[automatically_derived]\nimpl<const N: usize> ::partial::IntoPartial for Buffer<N> {\n    type Partial = PartialBuffer<N>;\n"
    ));
}

#[test]
fn the_options_of_the_definition_are_read_before_those_of_the_fields() {
    let mut field = named("id", "u32");
    field.attributes.push(Attribute::Config(vec![RawOption {
        key: "skip".to_string(),
        value: OptionValue::Flag,
    }]));
    let second = flattened(flattened(named("inner", "Inner")));

    let fields_only = definition(
        "Test",
        Data::Struct(Fields::Named(vec![named("ok", "u8"), field.clone(), second.clone()])),
    );
    assert_eq!(
        partial(fields_only),
        Err(Error::InvalidOption {
            place: Place::Field(1),
            error: partial::ConfigError::InvalidOption {
                key: "skip".to_string(),
                reason: partial::InvalidReason::UnknownKey,
                attribute: 0,
            },
        })
    );

    let only_second =
        definition("Test", Data::Struct(Fields::Named(vec![named("ok", "u8"), second.clone()])));
    assert_eq!(
        partial(only_second),
        Err(Error::InvalidOption {
            place: Place::Field(1),
            error: partial::ConfigError::InvalidOption {
                key: "flatten".to_string(),
                reason: partial::InvalidReason::Duplicate,
                attribute: 1,
            },
        })
    );

    let mut both = definition("Test", Data::Struct(Fields::Named(vec![field, second])));
    both.attributes.push(Attribute::Config(vec![RawOption {
        key: "name".to_string(),
        value: OptionValue::Flag,
    }]));
    assert_eq!(
        partial(both),
        Err(Error::InvalidOption {
            place: Place::Definition,
            error: partial::ConfigError::InvalidOption {
                key: "name".to_string(),
                reason: partial::InvalidReason::WrongValue,
                attribute: 0,
            },
        })
    );
}

#[test]
fn the_steps_can_be_taken_one_by_one() {
    let schema = StructSchema::read(
        "Pair".to_string(),
        Visibility::Restricted("super".to_string()),
        no_generics(),
        Fields::Unnamed(vec![unnamed("A"), flattened(unnamed("B"))]),
    )
    .unwrap();
    assert_eq!(schema.field_kind, FieldKind::Tuple);
    assert_eq!(schema.fields[0].id, FieldId::Position(0));
    assert!(!schema.fields[0].flatten);
    assert_eq!(schema.fields[1].id, FieldId::Position(1));
    assert!(schema.fields[1].flatten);
    assert!(schema.fields[1].attributes.is_empty());

    let args = Args { name: Some("Both".to_string()), derive: vec!["Debug".to_string()] };
    let spec = synthesize(schema, &args);
    assert_eq!(spec.name, "Both");
    assert_eq!(spec.attributes, "#[doc = \"Partial of [`Pair`].\"]\n#[derive(Debug)]");
    assert_eq!(spec.visibility, Visibility::Restricted("super".to_string()));
    assert_eq!(spec.fields[0].ty, GeneratedType::Optional("A".to_string()));
    assert_eq!(spec.fields[1].ty, GeneratedType::PartialOf("B".to_string()));

    let bodies = operations(&spec);
    assert!(!bodies.constant);
    assert_eq!(
        bodies.is_empty,
        "self.0.is_none() && ::partial::PartialOps::is_empty(&self.1)"
    );
    let artifact = assemble(&spec, &bodies);
    assert_eq!(
        artifact.declaration,
        "#[automatically_derived]\n#[doc = \"Partial of [`Pair`].\"]\n#[derive(Debug)]\npub(super) struct Both(::core::option::Option<A>, ::partial::Partial<B>);"
    );
    assert!(artifact
        .conversion_impl
        .starts_with("#[automatically_derived]\nimpl ::partial::IntoPartial for Pair {\n    type Partial = Both;\n"));
}
