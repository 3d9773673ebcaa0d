//! The generated code: the declaration of the partial type and the impls
//! that carry its operations.
use crate::emit::Operations;
use crate::schema::{Attribute, FieldId, FieldKind, Generics};
use crate::synth::{GeneratedField, GeneratedTypeSpec};
use crate::text::{concatenated, joined, texts};
use vstd::prelude::*;

verus! {

/// The code generated for one definition, item by item.
#[derive(Debug, Clone, PartialEq, Eq)]
pub struct CodeArtifact {
    /// The declaration of the partial type.
    pub declaration: String,
    /// The inherent impl with `empty` and `is_empty`.
    pub helpers: String,
    /// The impl of `Default`, which is the empty partial.
    pub default_impl: String,
    /// The impl of the merge operations for the partial type.
    pub merge_impl: String,
    /// The impl of the conversions for the source type.
    pub conversion_impl: String,
}

impl CodeArtifact {
    /// All items in order, with an empty line between each two.
    pub open spec fn text(self) -> Seq<char> {
        self.declaration@ + "\n\n"@ + self.helpers@ + "\n\n"@ + self.default_impl@ + "\n\n"@
            + self.merge_impl@ + "\n\n"@ + self.conversion_impl@ + "\n"@
    }

    /// Writes all items as one source text.
    pub fn source(&self) -> (text: String)
        ensures
            text@ == self.text(),
    {
        let mut text = self.declaration.clone();
        text.append("\n\n");
        text.append(self.helpers.as_str());
        text.append("\n\n");
        text.append(self.default_impl.as_str());
        text.append("\n\n");
        text.append(self.merge_impl.as_str());
        text.append("\n\n");
        text.append(self.conversion_impl.as_str());
        text.append("\n");
        text
    }
}

/// A text with a space in front, or nothing where the text is empty.
pub open spec fn spaced(text: Seq<char>) -> Seq<char> {
    if text.len() == 0 {
        text
    } else {
        " "@ + text
    }
}

/// An attribute in front of a field: as written, then a space. No
/// configuration attribute is written.
pub open spec fn attribute_text(attribute: Attribute) -> Seq<char> {
    match attribute {
        Attribute::Other(text) => text@ + " "@,
        Attribute::Config(_) => Seq::empty(),
    }
}

/// The attributes in front of a field, in order.
pub open spec fn attribute_texts(attributes: Seq<Attribute>) -> Seq<Seq<char>> {
    Seq::new(attributes.len(), |i: int| attribute_text(attributes[i]))
}

/// A field in the declaration: attributes, visibility, the name where it has
/// one, and the generated type.
pub open spec fn field_text(field: GeneratedField) -> Seq<char> {
    let front = concatenated(attribute_texts(field.attributes@)) + field.visibility.text();
    match field.id {
        FieldId::Name(name) => front + name@ + ": "@ + field.ty.text(),
        FieldId::Position(_) => front + field.ty.text(),
    }
}

/// The fields in the declaration, in order.
pub open spec fn field_texts(fields: Seq<GeneratedField>) -> Seq<Seq<char>> {
    Seq::new(fields.len(), |i: int| field_text(fields[i]))
}

/// The fields of a struct with named fields, one per line.
pub open spec fn field_lines(fields: Seq<GeneratedField>) -> Seq<Seq<char>> {
    Seq::new(fields.len(), |i: int| "    "@ + field_text(fields[i]) + ",\n"@)
}

/// The declaration of the partial type. It declares the generic parameters
/// of the source type with their bounds, and has its `where` clause.
pub open spec fn declaration_text(spec: GeneratedTypeSpec) -> Seq<char> {
    let head = "#[automatically_derived]\n"@ + spec.attributes@ + "\n"@ + spec.visibility.text()
        + "struct "@ + spec.name@ + spec.generics.impl_generics@;
    let clause = spaced(spec.generics.where_clause@);
    match spec.field_kind {
        FieldKind::Named => head + clause + " {\n"@ + concatenated(field_lines(spec.fields@))
            + "}"@,
        FieldKind::Tuple => head + "("@ + joined(field_texts(spec.fields@), ", "@) + ")"@ + clause
            + ";"@,
        FieldKind::Unit => head + clause + ";"@,
    }
}

/// The opening of an impl of `implemented` (a trait and `for`, or nothing)
/// for the type `subject` with the generic parameters of the source type.
pub open spec fn impl_head_text(
    generics: Generics,
    implemented: Seq<char>,
    subject: Seq<char>,
) -> Seq<char> {
    "#[automatically_derived]\nimpl"@ + generics.impl_generics@ + " "@ + implemented + subject
        + generics.type_generics@ + spaced(generics.where_clause@) + " {\n"@
}

/// `const` and a space where the helpers can be evaluated at compile time.
pub open spec fn qualifier_text(constant: bool) -> Seq<char> {
    if constant {
        "const "@
    } else {
        Seq::empty()
    }
}

/// The inherent impl with `empty` and `is_empty`.
pub open spec fn helpers_text(spec: GeneratedTypeSpec, operations: Operations) -> Seq<char> {
    impl_head_text(spec.generics, Seq::empty(), spec.name@)
        + "    /// Creates an empty partial.\n    #[inline]\n    pub "@ + qualifier_text(
        operations.constant,
    ) + "fn empty() -> Self {\n        "@ + operations.empty@
        + "\n    }\n\n    /// Checks if the partial is empty.\n    #[inline]\n    pub "@
        + qualifier_text(operations.constant) + "fn is_empty(&self) -> bool {\n        "@
        + operations.is_empty@ + "\n    }\n}"@
}

/// The impl of `Default`.
pub open spec fn default_text(spec: GeneratedTypeSpec) -> Seq<char> {
    impl_head_text(spec.generics, "::core::default::Default for "@, spec.name@)
        + "    #[inline]\n    fn default() -> Self {\n        Self::empty()\n    }\n}"@
}

/// The impl of the merge operations.
pub open spec fn merge_text(spec: GeneratedTypeSpec, operations: Operations) -> Seq<char> {
    impl_head_text(spec.generics, "::partial::PartialOps for "@, spec.name@)
        + "    #[inline]\n    fn empty() -> Self {\n        Self::empty()\n    }\n\n    #[inline]\n    fn is_empty(&self) -> bool {\n        self.is_empty()\n    }\n\n    #[inline]\n    fn set_and(&mut self, other: Self) {\n        "@
        + operations.set_and@
        + "\n    }\n\n    #[inline]\n    fn set_or(&mut self, other: Self) {\n        "@
        + operations.set_or@ + "\n    }\n}"@
}

/// The impl of the conversions, on the source type.
pub open spec fn conversion_text(spec: GeneratedTypeSpec, operations: Operations) -> Seq<char> {
    impl_head_text(spec.generics, "::partial::IntoPartial for "@, spec.parent@)
        + "    type Partial = "@ + spec.name@ + spec.generics.type_generics@
        + ";\n\n    #[inline]\n    fn into_partial(self) -> Self::Partial {\n        "@
        + operations.into_partial@
        + "\n    }\n\n    #[inline]\n    fn set(&mut self, partial: Self::Partial) {\n        "@
        + operations.set@ + "\n    }\n}"@
}

/// Whether `artifact` is the code for `spec` with the given bodies.
pub open spec fn assembled_from(
    artifact: CodeArtifact,
    spec: GeneratedTypeSpec,
    operations: Operations,
) -> bool {
    &&& artifact.declaration@ == declaration_text(spec)
    &&& artifact.helpers@ == helpers_text(spec, operations)
    &&& artifact.default_impl@ == default_text(spec)
    &&& artifact.merge_impl@ == merge_text(spec, operations)
    &&& artifact.conversion_impl@ == conversion_text(spec, operations)
}

fn write_spaced(text: &mut String, clause: &String)
    ensures
        final(text)@ == old(text)@ + spaced(clause@),
{
    if clause.as_str().unicode_len() > 0 {
        text.append(" ");
        text.append(clause.as_str());
    }
}

fn write_field(field: &GeneratedField) -> (text: String)
    ensures
        text@ == field_text(*field),
{
    let mut attributes: Vec<String> = Vec::new();
    let mut i: usize = 0;
    while i < field.attributes.len()
        invariant
            i <= field.attributes.len(),
            attributes@.len() == i,
            forall|k: int|
                0 <= k < i ==> (#[trigger] attributes@[k])@ == attribute_text(field.attributes@[k]),
        decreases field.attributes.len() - i,
    {
        match &field.attributes[i] {
            Attribute::Other(written) => {
                let mut text = written.clone();
                text.append(" ");
                attributes.push(text);
            },
            Attribute::Config(_) => {
                attributes.push(String::new());
            },
        }
        i = i + 1;
    }
    assert(texts(attributes@) =~= attribute_texts(field.attributes@));
    let mut text = crate::text::concatenate(&attributes);
    text.append(field.visibility.render().as_str());
    match &field.id {
        FieldId::Name(name) => {
            text.append(name.as_str());
            text.append(": ");
        },
        FieldId::Position(_) => {},
    }
    text.append(field.ty.render().as_str());
    text
}

fn write_declaration(spec: &GeneratedTypeSpec) -> (text: String)
    ensures
        text@ == declaration_text(*spec),
{
    let mut text = String::from_str("#[automatically_derived]\n");
    text.append(spec.attributes.as_str());
    text.append("\n");
    text.append(spec.visibility.render().as_str());
    text.append("struct ");
    text.append(spec.name.as_str());
    text.append(spec.generics.impl_generics.as_str());
    match spec.field_kind {
        FieldKind::Named => {
            let mut lines: Vec<String> = Vec::new();
            let mut i: usize = 0;
            while i < spec.fields.len()
                invariant
                    i <= spec.fields.len(),
                    lines@.len() == i,
                    forall|k: int|
                        0 <= k < i ==> (#[trigger] lines@[k])@ == "    "@ + field_text(
                            spec.fields@[k],
                        ) + ",\n"@,
                decreases spec.fields.len() - i,
            {
                let mut line = String::from_str("    ");
                line.append(write_field(&spec.fields[i]).as_str());
                line.append(",\n");
                lines.push(line);
                i = i + 1;
            }
            assert(texts(lines@) =~= field_lines(spec.fields@));
            write_spaced(&mut text, &spec.generics.where_clause);
            text.append(" {\n");
            text.append(crate::text::concatenate(&lines).as_str());
            text.append("}");
        },
        FieldKind::Tuple => {
            let mut fields: Vec<String> = Vec::new();
            let mut i: usize = 0;
            while i < spec.fields.len()
                invariant
                    i <= spec.fields.len(),
                    fields@.len() == i,
                    forall|k: int|
                        0 <= k < i ==> (#[trigger] fields@[k])@ == field_text(spec.fields@[k]),
                decreases spec.fields.len() - i,
            {
                fields.push(write_field(&spec.fields[i]));
                i = i + 1;
            }
            assert(texts(fields@) =~= field_texts(spec.fields@));
            text.append("(");
            text.append(crate::text::join(&fields, ", ").as_str());
            text.append(")");
            write_spaced(&mut text, &spec.generics.where_clause);
            text.append(";");
        },
        FieldKind::Unit => {
            write_spaced(&mut text, &spec.generics.where_clause);
            text.append(";");
        },
    }
    text
}

fn write_impl_head(generics: &Generics, implemented: &str, subject: &String) -> (text: String)
    ensures
        text@ == impl_head_text(*generics, implemented@, subject@),
{
    let mut text = String::from_str("#[automatically_derived]\nimpl");
    text.append(generics.impl_generics.as_str());
    text.append(" ");
    text.append(implemented);
    text.append(subject.as_str());
    text.append(generics.type_generics.as_str());
    write_spaced(&mut text, &generics.where_clause);
    text.append(" {\n");
    text
}

fn write_qualifier(text: &mut String, constant: bool)
    ensures
        final(text)@ == old(text)@ + qualifier_text(constant),
{
    if constant {
        text.append("const ");
    }
}

fn write_helpers(spec: &GeneratedTypeSpec, operations: &Operations) -> (text: String)
    ensures
        text@ == helpers_text(*spec, *operations),
{
    let mut text = write_impl_head(&spec.generics, "", &spec.name);
    proof {
        reveal_strlit("");
    }
    text.append("    /// Creates an empty partial.\n    #[inline]\n    pub ");
    write_qualifier(&mut text, operations.constant);
    text.append("fn empty() -> Self {\n        ");
    text.append(operations.empty.as_str());
    text.append("\n    }\n\n    /// Checks if the partial is empty.\n    #[inline]\n    pub ");
    write_qualifier(&mut text, operations.constant);
    text.append("fn is_empty(&self) -> bool {\n        ");
    text.append(operations.is_empty.as_str());
    text.append("\n    }\n}");
    text
}

fn write_default(spec: &GeneratedTypeSpec) -> (text: String)
    ensures
        text@ == default_text(*spec),
{
    let mut text = write_impl_head(&spec.generics, "::core::default::Default for ", &spec.name);
    text.append("    #[inline]\n    fn default() -> Self {\n        Self::empty()\n    }\n}");
    text
}

fn write_merge(spec: &GeneratedTypeSpec, operations: &Operations) -> (text: String)
    ensures
        text@ == merge_text(*spec, *operations),
{
    let mut text = write_impl_head(&spec.generics, "::partial::PartialOps for ", &spec.name);
    text.append(
        "    #[inline]\n    fn empty() -> Self {\n        Self::empty()\n    }\n\n    #[inline]\n    fn is_empty(&self) -> bool {\n        self.is_empty()\n    }\n\n    #[inline]\n    fn set_and(&mut self, other: Self) {\n        ",
    );
    text.append(operations.set_and.as_str());
    text.append("\n    }\n\n    #[inline]\n    fn set_or(&mut self, other: Self) {\n        ");
    text.append(operations.set_or.as_str());
    text.append("\n    }\n}");
    text
}

fn write_conversion(spec: &GeneratedTypeSpec, operations: &Operations) -> (text: String)
    ensures
        text@ == conversion_text(*spec, *operations),
{
    let mut text = write_impl_head(&spec.generics, "::partial::IntoPartial for ", &spec.parent);
    text.append("    type Partial = ");
    text.append(spec.name.as_str());
    text.append(spec.generics.type_generics.as_str());
    text.append(";\n\n    #[inline]\n    fn into_partial(self) -> Self::Partial {\n        ");
    text.append(operations.into_partial.as_str());
    text.append(
        "\n    }\n\n    #[inline]\n    fn set(&mut self, partial: Self::Partial) {\n        ",
    );
    text.append(operations.set.as_str());
    text.append("\n    }\n}");
    text
}

/// Puts the generated code together: the declaration of the partial type,
/// its helpers, and the impls that carry the operation bodies. The impls
/// have the generic parameters and the `where` clause of the source type.
pub fn assemble(spec: &GeneratedTypeSpec, operations: &Operations) -> (artifact: CodeArtifact)
    ensures
        assembled_from(artifact, *spec, *operations),
{
    CodeArtifact {
        declaration: write_declaration(spec),
        helpers: write_helpers(spec, operations),
        default_impl: write_default(spec),
        merge_impl: write_merge(spec, operations),
        conversion_impl: write_conversion(spec, operations),
    }
}

} // verus!
