//! When the configuration attributes of a definition resolve, and to what,
//! said over the options as a whole rather than option by option.
use crate::args::{
    flatten_from_attributes, flatten_with_attributes, flatten_with_options, ArgsModel,
};
use crate::ident::is_identifier;
use crate::schema::{Attribute, OptionValue, RawOption};
use crate::text::texts;
use vstd::prelude::*;

verus! {

/// Whether an option is one that a definition can take: `name` with a
/// string that is an identifier, or `derive` with a list.
pub open spec fn definition_option(option: RawOption) -> bool {
    ||| option.key@ == "name"@ && (option.value matches OptionValue::Text(name) && is_identifier(
        name@,
    ))
    ||| option.key@ == "derive"@ && option.value is List
}

/// Whether every option is one that a definition can take.
pub open spec fn definition_options(options: Seq<RawOption>) -> bool {
    forall|i: int| 0 <= i < options.len() ==> definition_option(#[trigger] options[i])
}

/// The options of the configuration attributes, in written order.
pub open spec fn options_of(attributes: Seq<Attribute>) -> Seq<RawOption>
    decreases attributes.len(),
{
    if attributes.len() == 0 {
        Seq::empty()
    } else {
        match attributes.first() {
            Attribute::Config(options) => options@ + options_of(attributes.drop_first()),
            Attribute::Other(_) => options_of(attributes.drop_first()),
        }
    }
}

/// How many of the options have the key `name`.
pub open spec fn names_in(options: Seq<RawOption>) -> nat
    decreases options.len(),
{
    if options.len() == 0 {
        0
    } else if options.first().key@ == "name"@ {
        1 + names_in(options.drop_first())
    } else {
        names_in(options.drop_first())
    }
}

/// The string of the first option with the key `name` that has one.
pub open spec fn name_in(options: Seq<RawOption>) -> Option<Seq<char>>
    decreases options.len(),
{
    if options.len() == 0 {
        None
    } else {
        match options.first().value {
            OptionValue::Text(name) if options.first().key@ == "name"@ => Some(name@),
            _ => name_in(options.drop_first()),
        }
    }
}

/// The lists of the options with the key `derive`, one after the other.
pub open spec fn derives_in(options: Seq<RawOption>) -> Seq<Seq<char>>
    decreases options.len(),
{
    if options.len() == 0 {
        Seq::empty()
    } else {
        match options.first().value {
            OptionValue::List(paths) if options.first().key@ == "derive"@ => texts(paths@)
                + derives_in(options.drop_first()),
            _ => derives_in(options.drop_first()),
        }
    }
}

proof fn keys_differ()
    ensures
        "name"@ != "derive"@,
{
    reveal_strlit("name");
    reveal_strlit("derive");
    assert("name"@.len() == 4);
    assert("derive"@.len() == 6);
}

proof fn over_both(first: Seq<RawOption>, second: Seq<RawOption>)
    ensures
        definition_options(first + second) <==> definition_options(first) && definition_options(
            second,
        ),
        names_in(first + second) == names_in(first) + names_in(second),
        name_in(first + second) == (if name_in(first) is Some {
            name_in(first)
        } else {
            name_in(second)
        }),
        derives_in(first + second) == derives_in(first) + derives_in(second),
    decreases first.len(),
{
    let both = first + second;
    if definition_options(both) {
        assert forall|i: int| 0 <= i < first.len() implies definition_option(
            #[trigger] first[i],
        ) by {
            assert(both[i] == first[i]);
        }
        assert forall|i: int| 0 <= i < second.len() implies definition_option(
            #[trigger] second[i],
        ) by {
            assert(both[first.len() + i] == second[i]);
        }
    }
    if first.len() == 0 {
        assert(both =~= second);
        assert(derives_in(first) + derives_in(second) =~= derives_in(second));
    } else {
        assert(both.drop_first() =~= first.drop_first() + second);
        assert(both.first() == first.first());
        over_both(first.drop_first(), second);
        match first.first().value {
            OptionValue::List(paths) if first.first().key@ == "derive"@ => {
                assert(derives_in(both) =~= derives_in(first) + derives_in(second));
            },
            _ => {},
        }
    }
}

/// A list of valid options has a name exactly if it has an option `name`.
proof fn name_where_counted(options: Seq<RawOption>)
    requires
        definition_options(options),
    ensures
        name_in(options) is Some <==> names_in(options) > 0,
    decreases options.len(),
{
    keys_differ();
    if options.len() > 0 {
        assert(definition_option(options[0]));
        assert forall|i: int| 0 <= i < options.drop_first().len() implies definition_option(
            #[trigger] options.drop_first()[i],
        ) by {
            assert(options.drop_first()[i] == options[i + 1]);
        }
        name_where_counted(options.drop_first());
    }
}

proof fn options_resolve(start: ArgsModel, options: Seq<RawOption>)
    ensures
        start.with_options(options) is Ok <==> {
            &&& definition_options(options)
            &&& names_in(options) <= 1
            &&& start.name is Some ==> names_in(options) == 0
        },
        start.with_options(options) matches Ok(args) ==> {
            &&& args.name == (if start.name is Some {
                start.name
            } else {
                name_in(options)
            })
            &&& args.derive == start.derive + derives_in(options)
        },
    decreases options.len(),
{
    keys_differ();
    if options.len() == 0 {
        assert(start.derive + derives_in(options) =~= start.derive);
    } else {
        let option = options.first();
        let rest = options.drop_first();
        assert(options[0] == option);
        assert forall|i: int| 0 <= i < rest.len() implies rest[i] == options[i + 1] by {}
        if definition_options(options) {
            assert forall|i: int| 0 <= i < rest.len() implies definition_option(
                #[trigger] rest[i],
            ) by {
                assert(rest[i] == options[i + 1]);
            }
        }
        match start.with_option(option) {
            Ok(next) => {
                options_resolve(next, rest);
                if definition_options(rest) {
                    assert forall|i: int| 0 <= i < options.len() implies definition_option(
                        #[trigger] options[i],
                    ) by {
                        if i > 0 {
                            assert(options[i] == rest[i - 1]);
                        }
                    }
                }
                if next.with_options(rest) is Ok {
                    let args = next.with_options(rest)->Ok_0;
                    assert(args.derive =~= start.derive + derives_in(options));
                }
            },
            Err(_) => {
                if definition_options(options) {
                    assert(definition_option(options[0]));
                }
            },
        }
    }
}

proof fn attributes_resolve(start: ArgsModel, attributes: Seq<Attribute>, at: int)
    ensures
        start.with_attributes(attributes, at) is Ok <==> {
            &&& definition_options(options_of(attributes))
            &&& names_in(options_of(attributes)) <= 1
            &&& start.name is Some ==> names_in(options_of(attributes)) == 0
        },
        start.with_attributes(attributes, at) matches Ok(args) ==> {
            &&& args.name == (if start.name is Some {
                start.name
            } else {
                name_in(options_of(attributes))
            })
            &&& args.derive == start.derive + derives_in(options_of(attributes))
        },
    decreases attributes.len(),
{
    if attributes.len() == 0 {
        assert(start.derive + derives_in(options_of(attributes)) =~= start.derive);
    } else {
        let rest = attributes.drop_first();
        match attributes.first() {
            Attribute::Other(_) => {
                attributes_resolve(start, rest, at + 1);
            },
            Attribute::Config(options) => {
                let given = ArgsModel::empty().with_options(options@);
                options_resolve(ArgsModel::empty(), options@);
                over_both(options@, options_of(rest));
                if definition_options(options@) {
                    name_where_counted(options@);
                }
                match given {
                    Ok(given) => {
                        assert(given.derive =~= derives_in(options@));
                        match start.joined(given) {
                            Ok(next) => {
                                attributes_resolve(next, rest, at + 1);
                                if next.with_attributes(rest, at + 1) is Ok {
                                    let args = next.with_attributes(rest, at + 1)->Ok_0;
                                    assert(args.derive =~= start.derive + derives_in(
                                        options_of(attributes),
                                    ));
                                }
                            },
                            Err(_) => {},
                        }
                    },
                    Err(_) => {},
                }
            },
        }
    }
}

/// The attributes of a definition resolve exactly if each option of its
/// configuration attributes is `name` with a string that is an identifier or
/// `derive` with a list, and `name` is given once at most. They resolve to
/// that name, if there is one, and to the derive lists one after the other,
/// in written order.
pub proof fn resolves_exactly_when_valid(attributes: Seq<Attribute>)
    ensures
        ArgsModel::from_attributes(attributes) is Ok <==> definition_options(
            options_of(attributes),
        ) && names_in(options_of(attributes)) <= 1,
        ArgsModel::from_attributes(attributes) matches Ok(args) ==> {
            &&& args.name == name_in(options_of(attributes))
            &&& args.derive == derives_in(options_of(attributes))
        },
{
    attributes_resolve(ArgsModel::empty(), attributes, 0);
    if ArgsModel::from_attributes(attributes) is Ok {
        let args = ArgsModel::from_attributes(attributes)->Ok_0;
        assert(args.derive =~= derives_in(options_of(attributes)));
    }
}

proof fn name_in_is_identifier(options: Seq<RawOption>)
    requires
        definition_options(options),
    ensures
        name_in(options) matches Some(name) ==> is_identifier(name),
    decreases options.len(),
{
    if options.len() > 0 {
        assert(definition_option(options[0]));
        assert forall|i: int| 0 <= i < options.drop_first().len() implies definition_option(
            #[trigger] options.drop_first()[i],
        ) by {
            assert(options.drop_first()[i] == options[i + 1]);
        }
        name_in_is_identifier(options.drop_first());
    }
}

/// The name that attributes resolve to, where they give one, is an
/// identifier.
pub proof fn resolved_name_is_identifier(attributes: Seq<Attribute>)
    ensures
        ArgsModel::from_attributes(attributes) matches Ok(args) ==> args.wf(),
{
    resolves_exactly_when_valid(attributes);
    if ArgsModel::from_attributes(attributes) is Ok {
        name_in_is_identifier(options_of(attributes));
    }
}

/// Whether the attribute at the given position is a configuration attribute
/// with an option of the given key.
pub open spec fn holds_key(attributes: Seq<Attribute>, position: int, key: Seq<char>) -> bool {
    &&& 0 <= position < attributes.len()
    &&& attributes[position] matches Attribute::Config(options)
    &&& exists|i: int| 0 <= i < options@.len() && (#[trigger] options@[i]).key@ == key
}

/// A refusal names the key of an option, and the position of the attribute
/// that holds it.
pub proof fn fault_points_at_its_option(attributes: Seq<Attribute>)
    ensures
        ArgsModel::from_attributes(attributes) matches Err(fault) ==> holds_key(
            attributes,
            fault.attribute,
            fault.key,
        ),
{
    fault_is_of_an_option(ArgsModel::empty(), attributes, 0);
    if ArgsModel::from_attributes(attributes) is Err {
        let fault = ArgsModel::from_attributes(attributes)->Err_0;
        assert(attributes.skip(0) =~= attributes);
    }
}

proof fn option_fault_is_of_an_option(start: ArgsModel, options: Seq<RawOption>)
    ensures
        start.with_options(options) matches Err(refusal) ==> exists|i: int|
            0 <= i < options.len() && (#[trigger] options[i]).key@ == refusal.key,
        start.with_options(options) matches Ok(args) ==> (args.name is Some && start.name is None
            ==> names_in(options) > 0),
    decreases options.len(),
{
    if options.len() > 0 {
        let rest = options.drop_first();
        match start.with_option(options.first()) {
            Ok(next) => {
                option_fault_is_of_an_option(next, rest);
                if next.with_options(rest) is Err {
                    let refusal = next.with_options(rest)->Err_0;
                    let i = choose|i: int|
                        0 <= i < rest.len() && (#[trigger] rest[i]).key@ == refusal.key;
                    assert(options[i + 1] == rest[i]);
                }
            },
            Err(refusal) => {
                assert(options[0].key@ == refusal.key);
            },
        }
    }
}

proof fn names_are_of_options(options: Seq<RawOption>)
    requires
        names_in(options) > 0,
    ensures
        exists|i: int| 0 <= i < options.len() && (#[trigger] options[i]).key@ == "name"@,
    decreases options.len(),
{
    if options.first().key@ == "name"@ {
        assert(options[0].key@ == "name"@);
    } else {
        let rest = options.drop_first();
        names_are_of_options(rest);
        let i = choose|i: int| 0 <= i < rest.len() && (#[trigger] rest[i]).key@ == "name"@;
        assert(options[i + 1] == rest[i]);
    }
}

proof fn fault_is_of_an_option(start: ArgsModel, attributes: Seq<Attribute>, at: int)
    ensures
        start.with_attributes(attributes, at) matches Err(fault) ==> holds_key(
            attributes,
            fault.attribute - at,
            fault.key,
        ),
    decreases attributes.len(),
{
    if attributes.len() > 0 {
        let rest = attributes.drop_first();
        match start.with_attribute(attributes.first()) {
            Ok(next) => {
                fault_is_of_an_option(next, rest, at + 1);
                if next.with_attributes(rest, at + 1) is Err {
                    let fault = next.with_attributes(rest, at + 1)->Err_0;
                    assert(rest[fault.attribute - at - 1] == attributes[fault.attribute - at]);
                }
            },
            Err(refusal) => {
                match attributes.first() {
                    Attribute::Other(_) => {},
                    Attribute::Config(options) => {
                        option_fault_is_of_an_option(ArgsModel::empty(), options@);
                        match ArgsModel::empty().with_options(options@) {
                            Ok(given) => {
                                names_are_of_options(options@);
                            },
                            Err(_) => {},
                        }
                        assert(attributes[0] == attributes.first());
                    },
                }
            },
        }
    }
}

/// Whether an option is the one that a field can take: `flatten` without a
/// value.
pub open spec fn field_option(option: RawOption) -> bool {
    option.key@ == "flatten"@ && option.value is Flag
}

/// Whether every option is the one that a field can take.
pub open spec fn field_options(options: Seq<RawOption>) -> bool {
    forall|i: int| 0 <= i < options.len() ==> field_option(#[trigger] options[i])
}

proof fn flags_resolve(start: bool, options: Seq<RawOption>)
    ensures
        flatten_with_options(start, options) is Ok <==> {
            &&& field_options(options)
            &&& options.len() <= 1
            &&& start ==> options.len() == 0
        },
        flatten_with_options(start, options) matches Ok(flatten) ==> flatten == (start
            || options.len() == 1),
    decreases options.len(),
{
    if options.len() > 0 {
        let rest = options.drop_first();
        assert(options[0] == options.first());
        match crate::args::flatten_with_option(start, options.first()) {
            Ok(next) => {
                flags_resolve(next, rest);
                if rest.len() == 0 {
                    assert forall|i: int| 0 <= i < options.len() implies field_option(
                        #[trigger] options[i],
                    ) by {}
                }
            },
            Err(_) => {
                if field_options(options) {
                    assert(field_option(options[0]));
                }
            },
        }
    }
}

proof fn flag_attributes_resolve(start: bool, attributes: Seq<Attribute>, at: int)
    ensures
        flatten_with_attributes(start, attributes, at) is Ok <==> {
            &&& field_options(options_of(attributes))
            &&& options_of(attributes).len() <= 1
            &&& start ==> options_of(attributes).len() == 0
        },
        flatten_with_attributes(start, attributes, at) matches Ok(flatten) ==> flatten == (start
            || options_of(attributes).len() == 1),
    decreases attributes.len(),
{
    if attributes.len() > 0 {
        let rest = attributes.drop_first();
        let all = options_of(attributes);
        match attributes.first() {
            Attribute::Other(_) => {
                flag_attributes_resolve(start, rest, at + 1);
            },
            Attribute::Config(options) => {
                flags_resolve(false, options@);
                if field_options(all) {
                    assert forall|i: int| 0 <= i < options@.len() implies field_option(
                        #[trigger] options@[i],
                    ) by {
                        assert(all[i] == options@[i]);
                    }
                    assert forall|i: int| 0 <= i < options_of(rest).len() implies field_option(
                        #[trigger] options_of(rest)[i],
                    ) by {
                        assert(all[options@.len() + i] == options_of(rest)[i]);
                    }
                }
                match crate::args::flatten_with_attribute(start, attributes.first()) {
                    Ok(next) => {
                        flag_attributes_resolve(next, rest, at + 1);
                    },
                    Err(_) => {},
                }
            },
        }
    }
}

/// The attributes of a field resolve exactly if its configuration attributes
/// hold no option but `flatten` without a value, and that once at most. The
/// field is flattened exactly if the option is there.
pub proof fn flattens_exactly_when_flagged(attributes: Seq<Attribute>)
    ensures
        flatten_from_attributes(attributes) is Ok <==> field_options(options_of(attributes))
            && options_of(attributes).len() <= 1,
        flatten_from_attributes(attributes) matches Ok(flatten) ==> flatten == (options_of(
            attributes,
        ).len() == 1),
{
    flag_attributes_resolve(false, attributes, 0);
}

} // verus!
