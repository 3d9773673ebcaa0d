//! The definition that a host hands over, as plain data: names, types and
//! attributes are carried as the text in which they were written.
use crate::args::{flatten_from_attributes, other_attributes, Fault, FieldArgs};
use crate::error::{Error, Place};
use crate::text::decimal_text;
use vstd::prelude::*;

verus! {

/// Who may name an item.
#[derive(Debug, Clone, PartialEq, Eq)]
pub enum Visibility {
    /// No qualifier: private to the enclosing module.
    Inherited,
    /// `pub`.
    Public,
    /// `pub(..)`, with what stands between the parentheses.
    Restricted(String),
}

/// The three layouts of the fields of a struct.
#[derive(Debug, Clone, Copy, PartialEq, Eq)]
pub enum FieldKind {
    /// Fields with names, in braces.
    Named,
    /// Fields addressed by position, in parentheses.
    Tuple,
    /// No fields.
    Unit,
}

/// How a field is addressed.
#[derive(Debug, Clone, PartialEq, Eq)]
pub enum FieldId {
    /// By its name.
    Name(String),
    /// By its position among the fields, counted from zero.
    Position(usize),
}

/// The generic parameters of a type, in the three forms in which a
/// declaration and its impls write them. Each is empty where the type has
/// none.
#[derive(Debug, Clone, PartialEq, Eq)]
pub struct Generics {
    /// The parameters with their bounds, in angle brackets, as a declaration
    /// or an impl declares them.
    pub impl_generics: String,
    /// The parameters alone, in angle brackets, as the type is named.
    pub type_generics: String,
    /// The `where` clause, with the keyword.
    pub where_clause: String,
}

/// The value that an option was written with.
#[derive(Debug, Clone, PartialEq, Eq)]
pub enum OptionValue {
    /// No value: the key alone.
    Flag,
    /// A string, `key = "text"`.
    Text(String),
    /// A list of paths, `key(a, b)`.
    List(Vec<String>),
    /// A value of any other form, as written.
    Other(String),
}

/// One option of a configuration attribute.
#[derive(Debug, Clone, PartialEq, Eq)]
pub struct RawOption {
    pub key: String,
    pub value: OptionValue,
}

/// An attribute on a definition or on a field.
#[derive(Debug, Clone, PartialEq, Eq)]
pub enum Attribute {
    /// A configuration attribute, with its options in written order.
    Config(Vec<RawOption>),
    /// Any other attribute, as written.
    Other(String),
}

/// A field as declared.
#[derive(Debug, Clone, PartialEq, Eq)]
pub struct Field {
    pub attributes: Vec<Attribute>,
    pub visibility: Visibility,
    /// The name, where the field has one.
    pub name: Option<String>,
    /// The type, as written.
    pub ty: String,
}

/// The fields of a struct as declared.
#[derive(Debug, Clone, PartialEq, Eq)]
pub enum Fields {
    Named(Vec<Field>),
    Unnamed(Vec<Field>),
    Unit,
}

/// What kind of item a definition is.
#[derive(Debug, Clone, PartialEq, Eq)]
pub enum Data {
    Struct(Fields),
    Enum,
    Union,
}

/// A type definition as the host parsed it.
#[derive(Debug, Clone, PartialEq, Eq)]
pub struct Definition {
    pub attributes: Vec<Attribute>,
    pub visibility: Visibility,
    pub name: String,
    pub generics: Generics,
    pub data: Data,
}

/// A field of a struct, with its configuration resolved.
#[derive(Debug, Clone, PartialEq, Eq)]
pub struct FieldSchema {
    pub id: FieldId,
    /// The type, as written.
    pub ty: String,
    pub visibility: Visibility,
    /// Whether the partial of the field is the partial of its type.
    pub flatten: bool,
    /// The attributes of the field that are no configuration attributes.
    pub attributes: Vec<Attribute>,
}

/// A struct, with the configuration of its fields resolved.
#[derive(Debug, Clone, PartialEq, Eq)]
pub struct StructSchema {
    pub name: String,
    pub visibility: Visibility,
    pub generics: Generics,
    pub field_kind: FieldKind,
    /// The fields in declaration order.
    pub fields: Vec<FieldSchema>,
}

/// How the field at `index` is addressed: by its name where it has one, by
/// its position otherwise.
pub open spec fn field_id(name: Option<String>, index: int) -> FieldId {
    match name {
        Some(name) => FieldId::Name(name),
        None => FieldId::Position(index as usize),
    }
}

/// The position of the first field whose attributes cannot be resolved, and
/// what it is refused for. The first of the fields stands at position `at` of
/// the whole list.
pub open spec fn fields_fault(fields: Seq<Field>, at: int) -> Option<(int, Fault)>
    decreases fields.len(),
{
    if fields.len() == 0 {
        None
    } else {
        match flatten_from_attributes(fields.first().attributes@) {
            Err(fault) => Some((at, fault)),
            Ok(_) => fields_fault(fields.drop_first(), at + 1),
        }
    }
}

/// Whether `schema` is `field`, declared at `index`, with its configuration
/// resolved and stripped.
pub open spec fn describes_field(schema: FieldSchema, field: Field, index: int) -> bool {
    &&& schema.id == field_id(field.name, index)
    &&& schema.ty == field.ty
    &&& schema.visibility == field.visibility
    &&& flatten_from_attributes(field.attributes@) == Ok::<bool, Fault>(schema.flatten)
    &&& schema.attributes@ == other_attributes(field.attributes@)
}

impl StructSchema {
    /// Whether the fields agree with the layout: a unit struct has none,
    /// named fields are addressed by name, and the fields of a tuple struct
    /// by their positions.
    pub open spec fn wf(self) -> bool {
        match self.field_kind {
            FieldKind::Unit => self.fields@.len() == 0,
            FieldKind::Named => forall|i: int|
                0 <= i < self.fields@.len() ==> (#[trigger] self.fields@[i]).id is Name,
            FieldKind::Tuple => forall|i: int|
                0 <= i < self.fields@.len() ==> (#[trigger] self.fields@[i]).id
                    == FieldId::Position(i as usize),
        }
    }

    /// Reads the schema of a struct off its declaration: resolves the
    /// configuration of each field and strips it from the field's attributes.
    /// Fails with what the first field that cannot be resolved is refused for.
    pub fn read(
        name: String,
        visibility: Visibility,
        generics: Generics,
        fields: Fields,
    ) -> (result: Result<StructSchema, Error>)
        ensures
            result is Err <==> fields_fault(fields.list(), 0) is Some,
            result matches Err(error) ==> {
                let (field, fault) = fields_fault(fields.list(), 0)->Some_0;
                0 <= field <= usize::MAX && error.refuses(Place::Field(field as usize), fault)
            },
            result matches Ok(schema) ==> {
                &&& fields.wf() ==> schema.wf()
                &&& schema.name == name
                &&& schema.visibility == visibility
                &&& schema.generics == generics
                &&& schema.field_kind == fields.kind()
                &&& schema.fields@.len() == fields.list().len()
                &&& forall|i: int|
                    0 <= i < schema.fields@.len() ==> describes_field(
                        #[trigger] schema.fields@[i],
                        fields.list()[i],
                        i,
                    )
            },
    {
        let (field_kind, declared) = match fields {
            Fields::Named(declared) => (FieldKind::Named, declared),
            Fields::Unnamed(declared) => (FieldKind::Tuple, declared),
            Fields::Unit => (FieldKind::Unit, Vec::new()),
        };
        assert(declared@.skip(0) =~= declared@);
        assert(declared@.len() == declared.len());
        let mut resolved: Vec<FieldSchema> = Vec::new();
        let mut index: usize = 0;
        for field in it: declared.into_iter()
            invariant
                it.seq() == declared@,
                declared@ == fields.list(),
                declared@.len() <= usize::MAX,
                index == it.index(),
                resolved@.len() == index,
                fields_fault(declared@, 0) == fields_fault(
                    declared@.skip(index as int),
                    index as int,
                ),
                forall|i: int|
                    0 <= i < index ==> describes_field(#[trigger] resolved@[i], declared@[i], i),
        {
            assert(declared@.skip(index as int).drop_first() =~= declared@.skip(index + 1));
            let mut field = field;
            let args = match FieldArgs::remove_attributes(&mut field.attributes) {
                Ok(args) => args,
                Err(error) => {
                    return Err(Error::InvalidOption { place: Place::Field(index), error });
                },
            };
            let id = match field.name {
                Some(name) => FieldId::Name(name),
                None => FieldId::Position(index),
            };
            resolved.push(
                FieldSchema {
                    id,
                    ty: field.ty,
                    visibility: field.visibility,
                    flatten: args.flatten,
                    attributes: field.attributes,
                },
            );
            index = index + 1;
        }
        Ok(StructSchema { name, visibility, generics, field_kind, fields: resolved })
    }
}

impl Visibility {
    /// The qualifier as written in front of an item, with the space that
    /// separates it from the item.
    pub open spec fn text(self) -> Seq<char> {
        match self {
            Visibility::Inherited => Seq::empty(),
            Visibility::Public => "pub "@,
            Visibility::Restricted(scope) => "pub("@ + scope@ + ") "@,
        }
    }

    /// Writes the qualifier.
    pub fn render(&self) -> (text: String)
        ensures
            text@ == self.text(),
    {
        match self {
            Visibility::Inherited => String::new(),
            Visibility::Public => String::from_str("pub "),
            Visibility::Restricted(scope) => {
                let mut text = String::from_str("pub(");
                text.append(scope.as_str());
                text.append(") ");
                text
            },
        }
    }
}

impl FieldId {
    /// The identifier as written behind a dot or in a struct expression.
    pub open spec fn text(self) -> Seq<char> {
        match self {
            FieldId::Name(name) => name@,
            FieldId::Position(index) => decimal_text(index as nat),
        }
    }

    /// Writes the identifier.
    pub fn render(&self) -> (text: String)
        ensures
            text@ == self.text(),
    {
        match self {
            FieldId::Name(name) => name.clone(),
            FieldId::Position(index) => crate::text::decimal(*index),
        }
    }
}

impl Fields {
    /// Whether the fields are declared as their layout asks: in braces each
    /// with a name, in parentheses none with a name.
    pub open spec fn wf(self) -> bool {
        match self {
            Fields::Named(fields) => forall|i: int|
                0 <= i < fields@.len() ==> (#[trigger] fields@[i]).name is Some,
            Fields::Unnamed(fields) => forall|i: int|
                0 <= i < fields@.len() ==> (#[trigger] fields@[i]).name is None,
            Fields::Unit => true,
        }
    }

    /// The layout that the fields were declared in.
    pub open spec fn kind(self) -> FieldKind {
        match self {
            Fields::Named(_) => FieldKind::Named,
            Fields::Unnamed(_) => FieldKind::Tuple,
            Fields::Unit => FieldKind::Unit,
        }
    }

    /// The declared fields, in order.
    pub open spec fn list(self) -> Seq<Field> {
        match self {
            Fields::Named(fields) => fields@,
            Fields::Unnamed(fields) => fields@,
            Fields::Unit => Seq::empty(),
        }
    }
}

} // verus!
