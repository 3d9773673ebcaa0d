//! The options that a definition and its fields may be configured with, and
//! how the configuration attributes are resolved into them.
use crate::ident::{identifier, is_identifier};
use crate::schema::{Attribute, OptionValue, RawOption};
use crate::text::{joined, text_is, texts};
use vstd::prelude::*;

verus! {

/// Why an option was refused.
#[derive(Debug, Clone, Copy, PartialEq, Eq)]
pub enum InvalidReason {
    /// The key is none that the attribute knows in this place.
    UnknownKey,
    /// The key is known, the value is of the wrong form for it.
    WrongValue,
    /// The key may be given once and was given before.
    Duplicate,
}

/// A configuration attribute that could not be resolved.
#[derive(Debug, Clone, PartialEq, Eq)]
pub enum ConfigError {
    InvalidOption {
        /// The key of the option that was refused.
        key: String,
        reason: InvalidReason,
        /// The position of the attribute that holds the option, in the list
        /// of attributes that was to be resolved.
        attribute: usize,
    },
}

/// An option that was refused: its key, and why.
pub struct Refusal {
    pub key: Seq<char>,
    pub reason: InvalidReason,
}

/// What a `ConfigError` says: which key was refused, why, and in which
/// attribute of the list.
pub struct Fault {
    pub key: Seq<char>,
    pub reason: InvalidReason,
    pub attribute: int,
}

/// An option that was refused, before it is known in which attribute.
struct Refused {
    key: String,
    reason: InvalidReason,
}

impl View for Refused {
    type V = Refusal;

    closed spec fn view(&self) -> Refusal {
        Refusal { key: self.key@, reason: self.reason }
    }
}

impl Refusal {
    /// The refusal of an option of the attribute at the given position.
    pub open spec fn at(self, attribute: int) -> Fault {
        Fault { key: self.key, reason: self.reason, attribute }
    }
}

/// The options of a definition: the name of the generated type, where it is
/// not the default one, and the traits to derive on it.
#[derive(Debug, Clone, PartialEq, Eq)]
pub struct Args {
    pub name: Option<String>,
    pub derive: Vec<String>,
}

/// The options of a definition as texts.
pub struct ArgsModel {
    pub name: Option<Seq<char>>,
    pub derive: Seq<Seq<char>>,
}

/// The options of a field.
#[derive(Debug, Clone, Copy, PartialEq, Eq)]
pub struct FieldArgs {
    /// Whether the partial of the field is the partial of its type rather
    /// than an optional value.
    pub flatten: bool,
}

impl View for ConfigError {
    type V = Fault;

    open spec fn view(&self) -> Fault {
        Fault { key: self->key@, reason: self->reason, attribute: self->attribute as int }
    }
}

impl View for Args {
    type V = ArgsModel;

    open spec fn view(&self) -> ArgsModel {
        ArgsModel {
            name: match self.name {
                Some(name) => Some(name@),
                None => None,
            },
            derive: texts(self.derive@),
        }
    }
}

/// Whether `result` is what `model` asks for: the same options, or the same
/// refusal.
pub open spec fn args_agree(
    result: Result<Args, ConfigError>,
    model: Result<ArgsModel, Fault>,
) -> bool {
    match (result, model) {
        (Ok(args), Ok(expected)) => args@ == expected,
        (Err(error), Err(fault)) => error@ == fault,
        _ => false,
    }
}

/// Whether `result` is what `model` asks for: the same flag, or the same
/// refusal.
pub open spec fn field_args_agree(
    result: Result<FieldArgs, ConfigError>,
    model: Result<bool, Fault>,
) -> bool {
    match (result, model) {
        (Ok(args), Ok(flatten)) => args.flatten == flatten,
        (Err(error), Err(fault)) => error@ == fault,
        _ => false,
    }
}

spec fn part_agrees(result: Result<Args, Refused>, model: Result<ArgsModel, Refusal>) -> bool {
    match (result, model) {
        (Ok(args), Ok(expected)) => args@ == expected,
        (Err(refused), Err(refusal)) => refused@ == refusal,
        _ => false,
    }
}

spec fn flag_agrees(result: Result<FieldArgs, Refused>, model: Result<bool, Refusal>) -> bool {
    match (result, model) {
        (Ok(args), Ok(flatten)) => args.flatten == flatten,
        (Err(refused), Err(refusal)) => refused@ == refusal,
        _ => false,
    }
}

impl ArgsModel {
    /// Whether the name, where one is given, is an identifier. Options that
    /// were resolved from attributes are so.
    pub open spec fn wf(self) -> bool {
        self.name matches Some(name) ==> is_identifier(name)
    }

    /// No option given.
    pub open spec fn empty() -> Self {
        ArgsModel { name: None, derive: Seq::empty() }
    }

    /// The options after one more option of the same attribute.
    ///
    /// `name` takes a string that is an identifier and may be given once;
    /// `derive` takes a list and adds to what was given before; no other key
    /// is known.
    pub open spec fn with_option(self, option: RawOption) -> Result<ArgsModel, Refusal> {
        if option.key@ == "name"@ {
            match option.value {
                OptionValue::Text(name) => if !is_identifier(name@) {
                    Err(Refusal { key: option.key@, reason: InvalidReason::WrongValue })
                } else if self.name is Some {
                    Err(Refusal { key: option.key@, reason: InvalidReason::Duplicate })
                } else {
                    Ok(ArgsModel { name: Some(name@), derive: self.derive })
                },
                _ => Err(Refusal { key: option.key@, reason: InvalidReason::WrongValue }),
            }
        } else if option.key@ == "derive"@ {
            match option.value {
                OptionValue::List(paths) => Ok(
                    ArgsModel { name: self.name, derive: self.derive + texts(paths@) },
                ),
                _ => Err(Refusal { key: option.key@, reason: InvalidReason::WrongValue }),
            }
        } else {
            Err(Refusal { key: option.key@, reason: InvalidReason::UnknownKey })
        }
    }

    /// The options after the options of one attribute, taken in order up to
    /// the first that is refused.
    pub open spec fn with_options(self, options: Seq<RawOption>) -> Result<ArgsModel, Refusal>
        decreases options.len(),
    {
        if options.len() == 0 {
            Ok(self)
        } else {
            match self.with_option(options.first()) {
                Ok(next) => next.with_options(options.drop_first()),
                Err(refusal) => Err(refusal),
            }
        }
    }

    /// What two attributes give together: one name at most, the lists one
    /// after the other.
    pub open spec fn joined(self, later: ArgsModel) -> Result<ArgsModel, Refusal> {
        if self.name is Some && later.name is Some {
            Err(Refusal { key: "name"@, reason: InvalidReason::Duplicate })
        } else {
            Ok(
                ArgsModel {
                    name: if self.name is Some {
                        self.name
                    } else {
                        later.name
                    },
                    derive: self.derive + later.derive,
                },
            )
        }
    }

    /// The options after one more attribute. An attribute that is no
    /// configuration attribute changes nothing.
    pub open spec fn with_attribute(self, attribute: Attribute) -> Result<ArgsModel, Refusal> {
        match attribute {
            Attribute::Other(_) => Ok(self),
            Attribute::Config(options) => match ArgsModel::empty().with_options(options@) {
                Ok(given) => self.joined(given),
                Err(refusal) => Err(refusal),
            },
        }
    }

    /// The options after a list of attributes, taken in order up to the
    /// first that is refused. The first of them stands at position `at` of
    /// the whole list.
    pub open spec fn with_attributes(self, attributes: Seq<Attribute>, at: int) -> Result<
        ArgsModel,
        Fault,
    >
        decreases attributes.len(),
    {
        if attributes.len() == 0 {
            Ok(self)
        } else {
            match self.with_attribute(attributes.first()) {
                Ok(next) => next.with_attributes(attributes.drop_first(), at + 1),
                Err(refusal) => Err(refusal.at(at)),
            }
        }
    }

    /// The options that a list of attributes gives, or what the first
    /// attribute that cannot be taken is refused for.
    pub open spec fn from_attributes(attributes: Seq<Attribute>) -> Result<ArgsModel, Fault> {
        ArgsModel::empty().with_attributes(attributes, 0)
    }

    /// The name of the generated type: the one given, or the name of the
    /// source type behind `Partial`.
    pub open spec fn name_text(self, parent: Seq<char>) -> Seq<char> {
        match self.name {
            Some(name) => name,
            None => "Partial"@ + parent,
        }
    }

    /// The attributes of the generated type: a doc comment that names the
    /// source type, and the derives.
    pub open spec fn attributes_text(self, parent: Seq<char>) -> Seq<char> {
        "#[doc = \"Partial of [`"@ + parent + "`].\"]\n#[derive("@ + joined(self.derive, ", "@)
            + ")]"@
    }
}

/// Whether a field is flattened after one more option of the same attribute:
/// `flatten` takes no value and may be given once; no other key is known.
pub open spec fn flatten_with_option(flatten: bool, option: RawOption) -> Result<bool, Refusal> {
    if option.key@ == "flatten"@ {
        match option.value {
            OptionValue::Flag => if flatten {
                Err(Refusal { key: option.key@, reason: InvalidReason::Duplicate })
            } else {
                Ok(true)
            },
            _ => Err(Refusal { key: option.key@, reason: InvalidReason::WrongValue }),
        }
    } else {
        Err(Refusal { key: option.key@, reason: InvalidReason::UnknownKey })
    }
}

/// Whether a field is flattened after the options of one attribute, taken in
/// order up to the first that is refused.
pub open spec fn flatten_with_options(flatten: bool, options: Seq<RawOption>) -> Result<
    bool,
    Refusal,
>
    decreases options.len(),
{
    if options.len() == 0 {
        Ok(flatten)
    } else {
        match flatten_with_option(flatten, options.first()) {
            Ok(next) => flatten_with_options(next, options.drop_first()),
            Err(refusal) => Err(refusal),
        }
    }
}

/// Whether a field is flattened after one more attribute.
pub open spec fn flatten_with_attribute(flatten: bool, attribute: Attribute) -> Result<
    bool,
    Refusal,
> {
    match attribute {
        Attribute::Other(_) => Ok(flatten),
        Attribute::Config(options) => match flatten_with_options(false, options@) {
            Ok(given) => if flatten && given {
                Err(Refusal { key: "flatten"@, reason: InvalidReason::Duplicate })
            } else {
                Ok(flatten || given)
            },
            Err(refusal) => Err(refusal),
        },
    }
}

/// Whether a field is flattened after a list of attributes, taken in order up
/// to the first that is refused. The first of them stands at position `at` of
/// the whole list.
pub open spec fn flatten_with_attributes(
    flatten: bool,
    attributes: Seq<Attribute>,
    at: int,
) -> Result<bool, Fault>
    decreases attributes.len(),
{
    if attributes.len() == 0 {
        Ok(flatten)
    } else {
        match flatten_with_attribute(flatten, attributes.first()) {
            Ok(next) => flatten_with_attributes(next, attributes.drop_first(), at + 1),
            Err(refusal) => Err(refusal.at(at)),
        }
    }
}

/// Whether the attributes of a field flatten it, or what the first attribute
/// that cannot be taken is refused for.
pub open spec fn flatten_from_attributes(attributes: Seq<Attribute>) -> Result<bool, Fault> {
    flatten_with_attributes(false, attributes, 0)
}

/// The attributes that are no configuration attributes, in order.
pub open spec fn other_attributes(attributes: Seq<Attribute>) -> Seq<Attribute>
    decreases attributes.len(),
{
    if attributes.len() == 0 {
        Seq::empty()
    } else if attributes.last() is Other {
        other_attributes(attributes.drop_last()).push(attributes.last())
    } else {
        other_attributes(attributes.drop_last())
    }
}

fn refused(key: &String, reason: InvalidReason) -> (refused: Refused)
    ensures
        refused@ == (Refusal { key: key@, reason }),
{
    Refused { key: key.clone(), reason }
}

fn located(refused: Refused, attribute: usize) -> (error: ConfigError)
    ensures
        error@ == refused@.at(attribute as int),
{
    ConfigError::InvalidOption { key: refused.key, reason: refused.reason, attribute }
}

/// What is reported for a refused option.
pub open spec fn fault_text(fault: Fault) -> Seq<char> {
    match fault.reason {
        InvalidReason::UnknownKey => "unknown option `"@ + fault.key + "`"@,
        InvalidReason::WrongValue => "invalid value for option `"@ + fault.key + "`"@,
        InvalidReason::Duplicate => "`"@ + fault.key + "` is specified multiple times"@,
    }
}

impl ConfigError {
    /// What to report for the error.
    pub fn message(&self) -> (message: String)
        ensures
            message@ == fault_text(self@),
    {
        match self {
            ConfigError::InvalidOption { key, reason, .. } => match reason {
                InvalidReason::UnknownKey => {
                    let mut message = String::from_str("unknown option `");
                    message.append(key.as_str());
                    message.append("`");
                    message
                },
                InvalidReason::WrongValue => {
                    let mut message = String::from_str("invalid value for option `");
                    message.append(key.as_str());
                    message.append("`");
                    message
                },
                InvalidReason::Duplicate => {
                    let mut message = String::from_str("`");
                    message.append(key.as_str());
                    message.append("` is specified multiple times");
                    message
                },
            },
        }
    }

    /// The key that was refused.
    pub fn key(&self) -> (key: &String)
        ensures
            key@ == self@.key,
    {
        match self {
            ConfigError::InvalidOption { key, .. } => key,
        }
    }

    /// Why the key was refused.
    pub fn reason(&self) -> (reason: InvalidReason)
        ensures
            reason == self@.reason,
    {
        match self {
            ConfigError::InvalidOption { reason, .. } => *reason,
        }
    }

    /// The position of the attribute that holds the refused option.
    pub fn attribute(&self) -> (attribute: usize)
        ensures
            attribute == self@.attribute,
    {
        match self {
            ConfigError::InvalidOption { attribute, .. } => *attribute,
        }
    }
}

impl Args {
    /// Takes `name` as the name of the generated type, given whether it is
    /// an identifier. A name that is none has the
    /// wrong form; one that is may be given once.
    pub fn with_name(self, name: String, is_identifier: bool) -> (result: Result<
        Args,
        InvalidReason,
    >)
        ensures
            result == Err::<Args, InvalidReason>(InvalidReason::WrongValue) <==> !is_identifier,
            result == Err::<Args, InvalidReason>(InvalidReason::Duplicate) <==> is_identifier
                && self.name is Some,
            result is Ok <==> is_identifier && self.name is None,
            result matches Ok(args) ==> args.name == Some(name) && args.derive == self.derive,
    {
        if !is_identifier {
            Err(InvalidReason::WrongValue)
        } else if self.name.is_some() {
            Err(InvalidReason::Duplicate)
        } else {
            Ok(Args { name: Some(name), derive: self.derive })
        }
    }

    fn add_option(self, option: &RawOption) -> (result: Result<Args, Refused>)
        ensures
            part_agrees(result, self@.with_option(*option)),
    {
        if text_is(&option.key, "name") {
            match &option.value {
                OptionValue::Text(name) => {
                    let known = identifier(name.as_str());
                    match self.with_name(name.clone(), known) {
                        Ok(args) => Ok(args),
                        Err(reason) => Err(refused(&option.key, reason)),
                    }
                },
                _ => Err(refused(&option.key, InvalidReason::WrongValue)),
            }
        } else if text_is(&option.key, "derive") {
            match &option.value {
                OptionValue::List(paths) => {
                    let mut derive = self.derive;
                    let mut more = crate::text::clone_strings(paths);
                    derive.append(&mut more);
                    assert(texts(derive@) =~= texts(self.derive@) + texts(paths@));
                    Ok(Args { name: self.name, derive })
                },
                _ => Err(refused(&option.key, InvalidReason::WrongValue)),
            }
        } else {
            Err(refused(&option.key, InvalidReason::UnknownKey))
        }
    }

    fn parse_options(options: &Vec<RawOption>) -> (result: Result<Args, Refused>)
        ensures
            part_agrees(result, ArgsModel::empty().with_options(options@)),
    {
        let mut args = Args { name: None, derive: Vec::new() };
        assert(args@.derive =~= ArgsModel::empty().derive);
        assert(options@.skip(0) =~= options@);
        let mut i: usize = 0;
        while i < options.len()
            invariant
                i <= options.len(),
                ArgsModel::empty().with_options(options@) == args@.with_options(
                    options@.skip(i as int),
                ),
            decreases options.len() - i,
        {
            assert(options@.skip(i as int).drop_first() =~= options@.skip(i + 1));
            match args.add_option(&options[i]) {
                Ok(next) => {
                    args = next;
                },
                Err(refused) => {
                    return Err(refused);
                },
            }
            i = i + 1;
        }
        Ok(args)
    }

    fn join(self, later: Args) -> (result: Result<Args, Refused>)
        ensures
            part_agrees(result, self@.joined(later@)),
    {
        if self.name.is_some() && later.name.is_some() {
            let key = String::from_str("name");
            Err(refused(&key, InvalidReason::Duplicate))
        } else {
            let name = if self.name.is_some() {
                self.name
            } else {
                later.name
            };
            let mut derive = self.derive;
            let mut more = later.derive;
            derive.append(&mut more);
            assert(texts(derive@) =~= texts(self.derive@) + texts(later.derive@));
            Ok(Args { name, derive })
        }
    }

    fn add_attribute(self, attribute: &Attribute) -> (result: Result<Args, Refused>)
        ensures
            part_agrees(result, self@.with_attribute(*attribute)),
    {
        match attribute {
            Attribute::Other(_) => Ok(self),
            Attribute::Config(options) => {
                match Args::parse_options(options) {
                    Ok(given) => self.join(given),
                    Err(refused) => Err(refused),
                }
            },
        }
    }

    /// Resolves the configuration attributes of a definition. Attributes are
    /// taken in order and may each hold several options; an attribute is read
    /// to its end and then held against the earlier ones. The first option
    /// that cannot be taken is reported, with the position of its attribute.
    pub fn from_attributes(attributes: &Vec<Attribute>) -> (result: Result<Args, ConfigError>)
        ensures
            args_agree(result, ArgsModel::from_attributes(attributes@)),
            result matches Ok(args) ==> args@.wf(),
    {
        proof {
            crate::resolution::resolved_name_is_identifier(attributes@);
        }
        let mut args = Args { name: None, derive: Vec::new() };
        assert(args@.derive =~= ArgsModel::empty().derive);
        assert(attributes@.skip(0) =~= attributes@);
        let mut i: usize = 0;
        while i < attributes.len()
            invariant
                i <= attributes.len(),
                ArgsModel::from_attributes(attributes@) == args@.with_attributes(
                    attributes@.skip(i as int),
                    i as int,
                ),
            decreases attributes.len() - i,
        {
            assert(attributes@.skip(i as int).drop_first() =~= attributes@.skip(i + 1));
            match args.add_attribute(&attributes[i]) {
                Ok(next) => {
                    args = next;
                },
                Err(refused) => {
                    return Err(located(refused, i));
                },
            }
            i = i + 1;
        }
        Ok(args)
    }

    /// The name of the generated type.
    pub fn name(&self, parent: &str) -> (name: String)
        ensures
            name@ == self@.name_text(parent@),
    {
        match &self.name {
            Some(name) => name.clone(),
            None => {
                let mut name = String::from_str("Partial");
                name.append(parent);
                name
            },
        }
    }

    /// The attributes of the generated type.
    pub fn attributes(&self, parent: &str) -> (attributes: String)
        ensures
            attributes@ == self@.attributes_text(parent@),
    {
        let mut attributes = String::from_str("#[doc = \"Partial of [`");
        attributes.append(parent);
        attributes.append("`].\"]\n#[derive(");
        let derives = crate::text::join(&self.derive, ", ");
        attributes.append(derives.as_str());
        attributes.append(")]");
        attributes
    }
}

impl FieldArgs {
    fn add_option(flatten: bool, option: &RawOption) -> (result: Result<FieldArgs, Refused>)
        ensures
            flag_agrees(result, flatten_with_option(flatten, *option)),
    {
        if text_is(&option.key, "flatten") {
            match &option.value {
                OptionValue::Flag => {
                    if flatten {
                        Err(refused(&option.key, InvalidReason::Duplicate))
                    } else {
                        Ok(FieldArgs { flatten: true })
                    }
                },
                _ => Err(refused(&option.key, InvalidReason::WrongValue)),
            }
        } else {
            Err(refused(&option.key, InvalidReason::UnknownKey))
        }
    }

    fn parse_options(options: &Vec<RawOption>) -> (result: Result<FieldArgs, Refused>)
        ensures
            flag_agrees(result, flatten_with_options(false, options@)),
    {
        let mut flatten = false;
        assert(options@.skip(0) =~= options@);
        let mut i: usize = 0;
        while i < options.len()
            invariant
                i <= options.len(),
                flatten_with_options(false, options@) == flatten_with_options(
                    flatten,
                    options@.skip(i as int),
                ),
            decreases options.len() - i,
        {
            assert(options@.skip(i as int).drop_first() =~= options@.skip(i + 1));
            match FieldArgs::add_option(flatten, &options[i]) {
                Ok(next) => {
                    flatten = next.flatten;
                },
                Err(refused) => {
                    return Err(refused);
                },
            }
            i = i + 1;
        }
        Ok(FieldArgs { flatten })
    }

    fn add_attribute(flatten: bool, attribute: &Attribute) -> (result: Result<FieldArgs, Refused>)
        ensures
            flag_agrees(result, flatten_with_attribute(flatten, *attribute)),
    {
        match attribute {
            Attribute::Other(_) => Ok(FieldArgs { flatten }),
            Attribute::Config(options) => {
                match FieldArgs::parse_options(options) {
                    Ok(given) => {
                        if flatten && given.flatten {
                            let key = String::from_str("flatten");
                            Err(refused(&key, InvalidReason::Duplicate))
                        } else {
                            Ok(FieldArgs { flatten: flatten || given.flatten })
                        }
                    },
                    Err(refused) => Err(refused),
                }
            },
        }
    }

    /// Resolves the configuration attributes of a field, without changing
    /// the list.
    pub fn from_attributes(attributes: &Vec<Attribute>) -> (result: Result<FieldArgs, ConfigError>)
        ensures
            field_args_agree(result, flatten_from_attributes(attributes@)),
    {
        let mut flatten = false;
        assert(attributes@.skip(0) =~= attributes@);
        let mut i: usize = 0;
        while i < attributes.len()
            invariant
                i <= attributes.len(),
                flatten_from_attributes(attributes@) == flatten_with_attributes(
                    flatten,
                    attributes@.skip(i as int),
                    i as int,
                ),
            decreases attributes.len() - i,
        {
            assert(attributes@.skip(i as int).drop_first() =~= attributes@.skip(i + 1));
            match FieldArgs::add_attribute(flatten, &attributes[i]) {
                Ok(next) => {
                    flatten = next.flatten;
                },
                Err(refused) => {
                    return Err(located(refused, i));
                },
            }
            i = i + 1;
        }
        Ok(FieldArgs { flatten })
    }

    /// Resolves the configuration attributes of a field and removes them
    /// from the list, so that what is left can be written on the field of the
    /// generated type. Where an attribute is refused the list stays as it is.
    pub fn remove_attributes(attributes: &mut Vec<Attribute>) -> (result: Result<
        FieldArgs,
        ConfigError,
    >)
        ensures
            field_args_agree(result, flatten_from_attributes(old(attributes)@)),
            result is Ok ==> final(attributes)@ == other_attributes(old(attributes)@),
            result is Err ==> final(attributes)@ == old(attributes)@,
    {
        let args = FieldArgs::from_attributes(attributes)?;
        let mut kept: Vec<Attribute> = Vec::new();
        let mut i: usize = 0;
        while i < attributes.len()
            invariant
                i <= attributes.len(),
                kept@ == other_attributes(attributes@.take(i as int)),
            decreases attributes.len() - i,
        {
            assert(attributes@.take(i + 1).drop_last() =~= attributes@.take(i as int));
            match &attributes[i] {
                Attribute::Other(text) => {
                    kept.push(Attribute::Other(text.clone()));
                },
                Attribute::Config(_) => {},
            }
            i = i + 1;
        }
        assert(attributes@.take(attributes.len() as int) =~= attributes@);
        *attributes = kept;
        Ok(args)
    }
}

} // verus!
