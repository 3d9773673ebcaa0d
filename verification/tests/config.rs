use partial::args::{Args, ConfigError, FieldArgs, InvalidReason};
use partial::ident::{continues_name, identifier, keyword, starts_name};
use partial::schema::{Attribute, OptionValue, RawOption};

fn option(key: &str, value: OptionValue) -> RawOption {
    RawOption { key: key.to_string(), value }
}

fn name(text: &str) -> RawOption {
    option("name", OptionValue::Text(text.to_string()))
}

fn derive(paths: &[&str]) -> RawOption {
    option("derive", OptionValue::List(paths.iter().map(|path| path.to_string()).collect()))
}

fn flatten() -> RawOption {
    option("flatten", OptionValue::Flag)
}

fn other(text: &str) -> Attribute {
    Attribute::Other(text.to_string())
}

fn invalid(key: &str, reason: InvalidReason, attribute: usize) -> ConfigError {
    ConfigError::InvalidOption { key: key.to_string(), reason, attribute }
}

#[test]
fn no_attribute_gives_the_defaults() {
    let args = Args::from_attributes(&Vec::new()).unwrap();
    assert_eq!(args, Args { name: None, derive: Vec::new() });
    assert_eq!(args.name("Test"), "PartialTest");
    assert_eq!(args.attributes("Test"), "#[doc = \"Partial of [`Test`].\"]\n#[derive()]");
}

#[test]
fn other_attributes_are_passed_over() {
    let attributes = vec![other("#[derive(Debug)]"), other("#[allow(unused)]")];
    assert_eq!(
        Args::from_attributes(&attributes),
        Ok(Args { name: None, derive: Vec::new() })
    );
    assert_eq!(FieldArgs::from_attributes(&attributes), Ok(FieldArgs { flatten: false }));
}

#[test]
fn name_and_derive_are_resolved() {
    let attributes = vec![
        Attribute::Config(vec![name("MyPartial")]),
        Attribute::Config(vec![derive(&["Debug", "Clone", "PartialEq"])]),
    ];
    let args = Args::from_attributes(&attributes).unwrap();
    assert_eq!(args.name, Some("MyPartial".to_string()));
    assert_eq!(args.derive, vec!["Debug", "Clone", "PartialEq"]);
    assert_eq!(args.name("MyStruct"), "MyPartial");
    assert_eq!(
        args.attributes("MyStruct"),
        "#[doc = \"Partial of [`MyStruct`].\"]\n#[derive(Debug, Clone, PartialEq)]"
    );
}

#[test]
fn derive_lists_add_up_in_order() {
    let attributes = vec![
        Attribute::Config(vec![derive(&["Debug"]), name("P"), derive(&["Clone"])]),
        other("#[repr(C)]"),
        Attribute::Config(vec![derive(&[])]),
        Attribute::Config(vec![derive(&["serde::Serialize", "Eq"])]),
    ];
    let args = Args::from_attributes(&attributes).unwrap();
    assert_eq!(args.name, Some("P".to_string()));
    assert_eq!(args.derive, vec!["Debug", "Clone", "serde::Serialize", "Eq"]);
    assert_eq!(
        args.attributes("S"),
        "#[doc = \"Partial of [`S`].\"]\n#[derive(Debug, Clone, serde::Serialize, Eq)]"
    );
}

#[test]
fn an_unknown_key_is_refused() {
    let attributes = vec![Attribute::Config(vec![option("rename", OptionValue::Flag)])];
    assert_eq!(
        Args::from_attributes(&attributes),
        Err(invalid("rename", InvalidReason::UnknownKey, 0))
    );
    let attributes = vec![Attribute::Config(vec![flatten()])];
    assert_eq!(
        Args::from_attributes(&attributes),
        Err(invalid("flatten", InvalidReason::UnknownKey, 0))
    );
    let attributes = vec![Attribute::Config(vec![name("P")])];
    assert_eq!(
        FieldArgs::from_attributes(&attributes),
        Err(invalid("name", InvalidReason::UnknownKey, 0))
    );
}

#[test]
fn a_value_of_the_wrong_form_is_refused() {
    let attributes = vec![Attribute::Config(vec![option("name", OptionValue::Flag)])];
    assert_eq!(
        Args::from_attributes(&attributes),
        Err(invalid("name", InvalidReason::WrongValue, 0))
    );
    let attributes =
        vec![Attribute::Config(vec![option("name", OptionValue::List(Vec::new()))])];
    assert_eq!(
        Args::from_attributes(&attributes),
        Err(invalid("name", InvalidReason::WrongValue, 0))
    );
    let attributes =
        vec![Attribute::Config(vec![option("derive", OptionValue::Text("Debug".to_string()))])];
    assert_eq!(
        Args::from_attributes(&attributes),
        Err(invalid("derive", InvalidReason::WrongValue, 0))
    );
    let attributes =
        vec![Attribute::Config(vec![option("flatten", OptionValue::Text("yes".to_string()))])];
    assert_eq!(
        FieldArgs::from_attributes(&attributes),
        Err(invalid("flatten", InvalidReason::WrongValue, 0))
    );
    let attributes =
        vec![Attribute::Config(vec![option("name", OptionValue::Other("5".to_string()))])];
    assert_eq!(
        Args::from_attributes(&attributes),
        Err(invalid("name", InvalidReason::WrongValue, 0))
    );
    let attributes =
        vec![Attribute::Config(vec![option("flatten", OptionValue::Other("true".to_string()))])];
    assert_eq!(
        FieldArgs::from_attributes(&attributes),
        Err(invalid("flatten", InvalidReason::WrongValue, 0))
    );
}

#[test]
fn a_name_that_is_no_identifier_is_refused() {
    let refused = [
        "my type", "", "struct", "_", "1st", "My-Partial", "a b", "Self", "\"x\"", " Foo", "Foo ",
        "Foo //x", "/* x */ Foo", "Foo\n", "a/b", "(Foo)", "r#type", "Foo<T>", "€x", "Foo→", "·a",
    ];
    for text in refused {
        let attributes = vec![other("#[repr(C)]"), Attribute::Config(vec![name(text)])];
        assert_eq!(
            Args::from_attributes(&attributes),
            Err(invalid("name", InvalidReason::WrongValue, 1)),
            "{text:?}"
        );
    }
    // The value is looked at before the name is held against an earlier one.
    let attributes = vec![
        Attribute::Config(vec![name("First")]),
        other("#[repr(C)]"),
        Attribute::Config(vec![derive(&["Debug"])]),
        Attribute::Config(vec![derive(&["Clone"]), name("my type")]),
    ];
    assert_eq!(
        Args::from_attributes(&attributes),
        Err(invalid("name", InvalidReason::WrongValue, 3))
    );
}

#[test]
fn identifiers_are_told_from_other_texts() {
    assert!(identifier("MyPartial"));
    assert!(identifier("x"));
    assert!(identifier("_x"));
    assert!(identifier("structure"));
    assert!(identifier("Größe"));
    assert!(!identifier(""));
    assert!(!identifier("_"));
    assert!(!identifier("9lives"));
    assert!(!identifier("my type"));
    assert!(!identifier("Foo //x"));
    assert!(!identifier("type"));
    assert!(!identifier("€"));

    assert!(keyword("struct"));
    assert!(keyword("yield"));
    assert!(keyword("abstract"));
    assert!(!keyword("Struct"));
    assert!(!keyword("union"));
    assert!(!keyword(""));
}

#[test]
fn characters_of_an_identifier() {
    assert!(starts_name('_', false));
    assert!(starts_name('a', false));
    assert!(starts_name('Z', false));
    assert!(!starts_name('0', true));
    assert!(!starts_name(' ', true));
    assert!(!starts_name('/', true));
    assert!(starts_name('é', true));
    assert!(!starts_name('é', false));

    assert!(continues_name('_', false));
    assert!(continues_name('q', false));
    assert!(continues_name('7', false));
    assert!(!continues_name(' ', true));
    assert!(!continues_name('#', true));
    assert!(!continues_name('\u{7f}', true));
    assert!(continues_name('\u{80}', true));
    assert!(continues_name('é', true));
    assert!(!continues_name('é', false));
}

#[test]
fn a_name_is_taken_by_whether_it_is_an_identifier() {
    let args = Args { name: None, derive: vec!["Debug".to_string()] };
    assert_eq!(
        args.clone().with_name("P".to_string(), true),
        Ok(Args { name: Some("P".to_string()), derive: vec!["Debug".to_string()] })
    );
    assert_eq!(args.with_name("P".to_string(), false), Err(InvalidReason::WrongValue));

    let named = Args { name: Some("Q".to_string()), derive: Vec::new() };
    assert_eq!(named.clone().with_name("P".to_string(), true), Err(InvalidReason::Duplicate));
    assert_eq!(named.with_name("P".to_string(), false), Err(InvalidReason::WrongValue));
}

#[test]
fn a_name_that_is_an_identifier_is_taken() {
    for text in ["MyPartial", "my_partial", "_hidden", "__", "P1", "Größe", "Élan", "a·b", "名前"] {
        let attributes = vec![Attribute::Config(vec![name(text)])];
        let args = Args::from_attributes(&attributes).unwrap();
        assert_eq!(args.name, Some(text.to_string()), "{text:?}");
        assert_eq!(args.name("Parent"), text);
    }
}

#[test]
fn a_second_name_is_refused() {
    let attributes = vec![Attribute::Config(vec![name("A"), name("B")])];
    assert_eq!(
        Args::from_attributes(&attributes),
        Err(invalid("name", InvalidReason::Duplicate, 0))
    );
    let attributes = vec![
        Attribute::Config(vec![name("A")]),
        other("#[repr(C)]"),
        Attribute::Config(vec![derive(&["Debug"]), name("B")]),
    ];
    assert_eq!(
        Args::from_attributes(&attributes),
        Err(invalid("name", InvalidReason::Duplicate, 2))
    );
}

#[test]
fn the_first_refused_option_is_reported() {
    let attributes = vec![
        Attribute::Config(vec![name("A"), option("first", OptionValue::Flag)]),
        Attribute::Config(vec![option("second", OptionValue::Flag)]),
    ];
    assert_eq!(
        Args::from_attributes(&attributes),
        Err(invalid("first", InvalidReason::UnknownKey, 0))
    );
    // An attribute is read to its end before it is held against the earlier ones.
    let attributes = vec![
        Attribute::Config(vec![name("A")]),
        Attribute::Config(vec![name("B"), option("later", OptionValue::Flag)]),
    ];
    assert_eq!(
        Args::from_attributes(&attributes),
        Err(invalid("later", InvalidReason::UnknownKey, 1))
    );
}

#[test]
fn flatten_is_a_flag() {
    assert_eq!(FieldArgs::from_attributes(&Vec::new()), Ok(FieldArgs { flatten: false }));
    let attributes = vec![other("#[serde(default)]"), Attribute::Config(vec![flatten()])];
    assert_eq!(FieldArgs::from_attributes(&attributes), Ok(FieldArgs { flatten: true }));
    let attributes = vec![Attribute::Config(Vec::new())];
    assert_eq!(FieldArgs::from_attributes(&attributes), Ok(FieldArgs { flatten: false }));
}

#[test]
fn a_second_flatten_is_refused() {
    let attributes = vec![Attribute::Config(vec![flatten(), flatten()])];
    assert_eq!(
        FieldArgs::from_attributes(&attributes),
        Err(invalid("flatten", InvalidReason::Duplicate, 0))
    );
    let attributes =
        vec![Attribute::Config(vec![flatten()]), Attribute::Config(vec![flatten()])];
    assert_eq!(
        FieldArgs::from_attributes(&attributes),
        Err(invalid("flatten", InvalidReason::Duplicate, 1))
    );
}

#[test]
fn configuration_attributes_are_stripped_from_a_field() {
    let mut attributes = vec![
        other("#[serde(default)]"),
        Attribute::Config(vec![flatten()]),
        other("/// The id."),
        Attribute::Config(Vec::new()),
    ];
    assert_eq!(FieldArgs::remove_attributes(&mut attributes), Ok(FieldArgs { flatten: true }));
    assert_eq!(attributes, vec![other("#[serde(default)]"), other("/// The id.")]);

    let mut plain = vec![other("#[serde(default)]")];
    assert_eq!(FieldArgs::remove_attributes(&mut plain), Ok(FieldArgs { flatten: false }));
    assert_eq!(plain, vec![other("#[serde(default)]")]);
}

#[test]
fn a_refused_field_attribute_leaves_the_list() {
    let mut attributes = vec![
        Attribute::Config(vec![flatten()]),
        other("#[serde(default)]"),
        Attribute::Config(vec![option("skip", OptionValue::Flag)]),
    ];
    let before = attributes.clone();
    assert_eq!(
        FieldArgs::remove_attributes(&mut attributes),
        Err(invalid("skip", InvalidReason::UnknownKey, 2))
    );
    assert_eq!(attributes, before);
}

#[test]
fn errors_say_what_was_refused() {
    let unknown = invalid("rename", InvalidReason::UnknownKey, 3);
    assert_eq!(unknown.message(), "unknown option `rename`");
    assert_eq!(unknown.key(), "rename");
    assert_eq!(unknown.reason(), InvalidReason::UnknownKey);
    assert_eq!(unknown.attribute(), 3);
    assert_eq!(
        invalid("name", InvalidReason::WrongValue, 0).message(),
        "invalid value for option `name`"
    );
    assert_eq!(
        invalid("name", InvalidReason::Duplicate, 0).message(),
        "`name` is specified multiple times"
    );
}
