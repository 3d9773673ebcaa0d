//! The shape of the generated type: the fields of the source type in their
//! order, each with an optional value or a nested partial for its type.
use crate::args::Args;
use crate::model::LayoutModel;
use crate::schema::{Attribute, FieldId, FieldKind, FieldSchema, Generics, StructSchema, Visibility};
use crate::value::Layout;
use vstd::prelude::*;

verus! {

/// The type of a field of the generated type.
#[derive(Debug, Clone, PartialEq, Eq)]
pub enum GeneratedType {
    /// An optional value of the field's type.
    Optional(String),
    /// The partial of the field's type.
    PartialOf(String),
}

/// A field of the generated type.
#[derive(Debug, Clone, PartialEq, Eq)]
pub struct GeneratedField {
    /// The attributes carried over from the source field.
    pub attributes: Vec<Attribute>,
    pub visibility: Visibility,
    pub id: FieldId,
    pub ty: GeneratedType,
}

/// The generated type.
#[derive(Debug, Clone, PartialEq, Eq)]
pub struct GeneratedTypeSpec {
    pub name: String,
    /// The name of the source type.
    pub parent: String,
    /// The attributes to write on the declaration.
    pub attributes: String,
    pub visibility: Visibility,
    pub generics: Generics,
    pub field_kind: FieldKind,
    /// The fields, in the order of the source type.
    pub fields: Vec<GeneratedField>,
}

/// The type that the generated type has for a field.
pub open spec fn generated_type(field: FieldSchema) -> GeneratedType {
    if field.flatten {
        GeneratedType::PartialOf(field.ty)
    } else {
        GeneratedType::Optional(field.ty)
    }
}

/// Whether `generated` is the field of the generated type for `field`.
pub open spec fn mirrors_field(generated: GeneratedField, field: FieldSchema) -> bool {
    &&& generated.id == field.id
    &&& generated.visibility == field.visibility
    &&& generated.attributes == field.attributes
    &&& generated.ty == generated_type(field)
}

/// How many of the fields before `end` are partials of their types.
pub open spec fn nested_before(fields: Seq<GeneratedField>, end: int) -> nat
    decreases end,
{
    if end <= 0 {
        0
    } else {
        nested_before(fields, end - 1) + if fields[end - 1].ty is PartialOf {
            1nat
        } else {
            0nat
        }
    }
}

/// The layout of a partial type with the given fields: a leaf for each
/// optional field, and for each field that is the partial of its type the
/// next of the layouts in `nested`. There is none unless `nested` holds one
/// layout for each such field.
pub open spec fn layout_of(fields: Seq<GeneratedField>, nested: Seq<LayoutModel>) -> Option<
    LayoutModel,
> {
    if nested_before(fields, fields.len() as int) == nested.len() {
        Some(
            LayoutModel::Record(
                Seq::new(
                    fields.len(),
                    |i: int|
                        if fields[i].ty is PartialOf {
                            nested[nested_before(fields, i) as int]
                        } else {
                            LayoutModel::Leaf
                        },
                ),
            ),
        )
    } else {
        None
    }
}

/// The fields counted up to a later end are no fewer.
proof fn nested_before_grows(fields: Seq<GeneratedField>, start: int, end: int)
    requires
        start <= end,
    ensures
        nested_before(fields, start) <= nested_before(fields, end),
    decreases end - start,
{
    if start < end {
        nested_before_grows(fields, start, end - 1);
    }
}

impl GeneratedType {
    /// The type as written in the declaration of the generated type.
    pub open spec fn text(self) -> Seq<char> {
        match self {
            GeneratedType::Optional(ty) => "::core::option::Option<"@ + ty@ + ">"@,
            GeneratedType::PartialOf(ty) => "::partial::Partial<"@ + ty@ + ">"@,
        }
    }

    /// Writes the type.
    pub fn render(&self) -> (text: String)
        ensures
            text@ == self.text(),
    {
        match self {
            GeneratedType::Optional(ty) => {
                let mut text = String::from_str("::core::option::Option<");
                text.append(ty.as_str());
                text.append(">");
                text
            },
            GeneratedType::PartialOf(ty) => {
                let mut text = String::from_str("::partial::Partial<");
                text.append(ty.as_str());
                text.append(">");
                text
            },
        }
    }
}

impl GeneratedTypeSpec {
    /// Whether the fields agree with the layout: a unit struct has none,
    /// named fields are addressed by name, and the fields of a tuple struct
    /// by their positions.
    pub open spec fn wf(self) -> bool {
        match self.field_kind {
            FieldKind::Unit => self.fields@.len() == 0,
            FieldKind::Named => forall|i: int|
                0 <= i < self.fields@.len() ==> (#[trigger] self.fields@[i]).id is Name,
            FieldKind::Tuple => forall|i: int|
                0 <= i < self.fields@.len() ==> (#[trigger] self.fields@[i]).id
                    == FieldId::Position(i as usize),
        }
    }

    /// The layout of the partial type, given the layouts of the types of its
    /// flattened fields in field order. There is none unless `nested` holds
    /// one layout for each flattened field.
    pub fn layout(&self, nested: &Vec<Layout>) -> (layout: Option<Layout>)
        ensures
            layout is Some <==> layout_of(
                self.fields@,
                crate::value::layout_views(nested@),
            ) is Some,
            layout matches Some(found) ==> Some(found@) == layout_of(
                self.fields@,
                crate::value::layout_views(nested@),
            ),
    {
        let ghost given = crate::value::layout_views(nested@);
        let mut layouts: Vec<Layout> = Vec::new();
        let mut used: usize = 0;
        let mut i: usize = 0;
        while i < self.fields.len()
            invariant
                i <= self.fields.len(),
                layouts.len() == i,
                used == nested_before(self.fields@, i as int),
                used <= nested.len(),
                given == crate::value::layout_views(nested@),
                forall|k: int|
                    0 <= k < i ==> (#[trigger] layouts[k])@ == (if self.fields@[k].ty is PartialOf {
                        given[nested_before(self.fields@, k) as int]
                    } else {
                        LayoutModel::Leaf
                    }),
            decreases self.fields.len() - i,
        {
            match &self.fields[i].ty {
                GeneratedType::Optional(_) => {
                    layouts.push(Layout::Leaf);
                },
                GeneratedType::PartialOf(_) => {
                    if used >= nested.len() {
                        proof {
                            nested_before_grows(
                                self.fields@,
                                i + 1,
                                self.fields@.len() as int,
                            );
                        }
                        return None;
                    }
                    layouts.push(nested[used].copy());
                    used = used + 1;
                },
            }
            i = i + 1;
        }
        if used == nested.len() {
            let found = Layout::Record(layouts);
            assert(found@->Record_0 =~= layout_of(self.fields@, given)->Some_0->Record_0);
            Some(found)
        } else {
            None
        }
    }
}

/// Computes the shape of the generated type.
///
/// The type has the fields of the source type, in their order and with their
/// identifiers, visibility and remaining attributes. A flattened field has
/// the partial of its type, every other field an optional value of it. Name
/// and attributes come from the options; visibility, generic parameters and
/// field layout are those of the source type.
pub fn synthesize(schema: StructSchema, args: &Args) -> (spec: GeneratedTypeSpec)
    ensures
        spec.name@ == args@.name_text(schema.name@),
        spec.parent == schema.name,
        spec.attributes@ == args@.attributes_text(schema.name@),
        spec.visibility == schema.visibility,
        spec.generics == schema.generics,
        spec.field_kind == schema.field_kind,
        spec.fields@.len() == schema.fields@.len(),
        forall|i: int|
            0 <= i < spec.fields@.len() ==> mirrors_field(
                #[trigger] spec.fields@[i],
                schema.fields@[i],
            ),
        schema.wf() ==> spec.wf(),
{
    let name = args.name(schema.name.as_str());
    let attributes = args.attributes(schema.name.as_str());
    let mut fields: Vec<GeneratedField> = Vec::new();
    for field in it: schema.fields.into_iter()
        invariant
            it.seq() == schema.fields@,
            fields@.len() == it.index(),
            forall|i: int|
                0 <= i < fields@.len() ==> mirrors_field(#[trigger] fields@[i], schema.fields@[i]),
    {
        let ty = if field.flatten {
            GeneratedType::PartialOf(field.ty)
        } else {
            GeneratedType::Optional(field.ty)
        };
        fields.push(
            GeneratedField {
                attributes: field.attributes,
                visibility: field.visibility,
                id: field.id,
                ty,
            },
        );
    }
    GeneratedTypeSpec {
        name,
        parent: schema.name,
        attributes,
        visibility: schema.visibility,
        generics: schema.generics,
        field_kind: schema.field_kind,
        fields,
    }
}

} // verus!
