use primwrap::gen::Impl;
use primwrap::gen::Receiver;
use primwrap::gen::Sink;
use primwrap::generate;
use primwrap::ops::Accumulation;
use primwrap::ops::Arithmetic;
use primwrap::ops::Bit;
use primwrap::ops::Comparison;
use primwrap::ops::Formatting;
use primwrap::ops::Op;
use primwrap::parse_attributes;
use primwrap::primitive_derive;
use primwrap::Attribute;
use primwrap::Body;
use primwrap::DeriveError;
use primwrap::Field;
use primwrap::Group;
use primwrap::Groups;
use primwrap::Item;
use primwrap::TypeDescriptor;

const ALL: [Group; 5] = [
    Group::Arithmetic,
    Group::Bitwise,
    Group::Formatting,
    Group::Comparison,
    Group::Accumulation,
];

fn only(groups: &[Group]) -> Groups {
    let mut set = Groups::none();
    for group in groups {
        set = set.with(*group);
    }
    set
}

fn tags(names: &[&str]) -> Attribute {
    Attribute::Tagged(names.iter().map(|name| Item::Tag(name.to_string())).collect())
}

fn wrapper_of(inner: &str) -> Body {
    Body::Tuple(vec![Field::Ident(inner.to_string())])
}

fn traits(decls: &[Impl]) -> Vec<&str> {
    decls.iter().map(|d| d.trait_name.as_str()).collect()
}

fn count(decls: &[Impl], trait_name: &str) -> usize {
    decls.iter().filter(|d| d.trait_name == trait_name).count()
}

#[test]
fn group_names_are_read_without_regard_to_case() {
    assert_eq!(Group::parse("arithmetic"), Some(Group::Arithmetic));
    assert_eq!(Group::parse("Arithmetic"), Some(Group::Arithmetic));
    assert_eq!(Group::parse("BITWISE"), Some(Group::Bitwise));
    assert_eq!(Group::parse("formatting"), Some(Group::Formatting));
    assert_eq!(Group::parse("cOmPaRiSoN"), Some(Group::Comparison));
    assert_eq!(Group::parse("accumulation"), Some(Group::Accumulation));
}

#[test]
fn other_names_are_no_groups() {
    for name in ["", "arith", "arithmetics", "bit", "fmt", "compare", "sum", "arithmetic "] {
        assert_eq!(Group::parse(name), None, "{}", name);
    }
}

#[test]
fn sets_of_groups() {
    let none = Groups::none();
    assert!(none.is_empty());
    for group in ALL {
        assert!(!none.contains(group));
        assert!(Groups::all().contains(group));
        let one = none.with(group);
        assert!(!one.is_empty());
        for other in ALL {
            assert_eq!(one.contains(other), other == group);
        }
        assert_eq!(one.with(group), one);
    }
    assert!(!Groups::all().is_empty());
    assert_eq!(only(&ALL), Groups::all());
    assert_eq!(
        only(&[Group::Comparison, Group::Arithmetic]),
        only(&[Group::Arithmetic, Group::Comparison])
    );
}

#[test]
fn no_attribute_asks_for_all_groups() {
    assert_eq!(parse_attributes(&[]), Ok(Groups::all()));
}

#[test]
fn an_attribute_without_groups_asks_for_all_groups() {
    assert_eq!(parse_attributes(&[tags(&[])]), Ok(Groups::all()));
    assert_eq!(parse_attributes(&[Attribute::Foreign]), Ok(Groups::all()));
    assert_eq!(
        parse_attributes(&[Attribute::Foreign, tags(&[]), Attribute::Foreign]),
        Ok(Groups::all())
    );
}

#[test]
fn attributes_name_the_groups() {
    assert_eq!(
        parse_attributes(&[tags(&["arithmetic"])]),
        Ok(only(&[Group::Arithmetic]))
    );
    assert_eq!(
        parse_attributes(&[tags(&["Bitwise", "comparison"])]),
        Ok(only(&[Group::Bitwise, Group::Comparison]))
    );
    assert_eq!(
        parse_attributes(&[
            tags(&["formatting"]),
            Attribute::Foreign,
            tags(&["accumulation", "formatting"])
        ]),
        Ok(only(&[Group::Formatting, Group::Accumulation]))
    );
}

#[test]
fn an_unknown_group_is_an_error_at_its_place() {
    assert_eq!(
        parse_attributes(&[Attribute::Foreign, tags(&["arithmetic", "logic", "nothing"])]),
        Err(DeriveError::UnknownGroup { attribute: 1, item: 1 })
    );
}

#[test]
fn an_entry_that_is_no_name_is_an_error_at_its_place() {
    let attrs = [
        tags(&["arithmetic"]),
        Attribute::Tagged(vec![Item::Tag("bitwise".to_string()), Item::Property]),
    ];
    assert_eq!(
        parse_attributes(&attrs),
        Err(DeriveError::ExpectedIdentifier { attribute: 1, item: 1 })
    );
    assert_eq!(
        parse_attributes(&[Attribute::Tagged(vec![Item::Other])]),
        Err(DeriveError::ExpectedIdentifier { attribute: 0, item: 0 })
    );
}

#[test]
fn an_attribute_that_cannot_be_read_is_an_error_at_its_place() {
    assert_eq!(
        parse_attributes(&[tags(&["bitwise"]), Attribute::Foreign, Attribute::Malformed]),
        Err(DeriveError::MalformedAttribute { attribute: 2 })
    );
}

#[test]
fn the_first_error_is_reported() {
    let attrs = [
        Attribute::Tagged(vec![Item::Property, Item::Tag("logic".to_string())]),
        Attribute::Malformed,
    ];
    assert_eq!(
        parse_attributes(&attrs),
        Err(DeriveError::ExpectedIdentifier { attribute: 0, item: 0 })
    );
    let attrs = [Attribute::Malformed, tags(&["logic"])];
    assert_eq!(
        parse_attributes(&attrs),
        Err(DeriveError::MalformedAttribute { attribute: 0 })
    );
    let attrs = [tags(&["logic"]), Attribute::Malformed];
    assert_eq!(
        parse_attributes(&attrs),
        Err(DeriveError::UnknownGroup { attribute: 0, item: 0 })
    );
}

#[test]
fn errors_say_what_was_expected() {
    assert_eq!(DeriveError::NotTupleStruct.message(), "expected tuple struct");
    assert_eq!(
        DeriveError::NotSingleField.message(),
        "expected tuple struct with one field"
    );
    assert_eq!(DeriveError::UnknownType.message(), "unknown type");
    assert_eq!(
        DeriveError::UnknownGroup { attribute: 0, item: 0 }.message(),
        "expected \"arithmetic\", \"bitwise\", \"formatting\", or \"comparison\""
    );
    assert_eq!(
        DeriveError::ExpectedIdentifier { attribute: 0, item: 0 }.message(),
        "expected identifier"
    );
    assert_eq!(
        DeriveError::MalformedAttribute { attribute: 3 }.message(),
        "malformed attribute"
    );
}

#[test]
fn a_descriptor_holds_a_primitive() {
    let desc = TypeDescriptor::new("Int", "u32").ok().unwrap();
    assert_eq!(desc.wrapper_name(), "Int");
    assert_eq!(desc.inner_type(), "u32");
    for inner in ["bool", "f32", "f64", "i128", "usize"] {
        assert!(TypeDescriptor::new("W", inner).is_ok(), "{}", inner);
    }
}

#[test]
fn a_descriptor_of_another_type_is_refused() {
    for inner in ["", "String", "char", "Int", "u24", "Self"] {
        match TypeDescriptor::new("W", inner) {
            Err(error) => assert_eq!(error, DeriveError::UnknownType),
            Ok(_) => panic!("{} was taken", inner),
        }
    }
}

#[test]
fn a_descriptor_plans_as_the_names_do() {
    let desc = TypeDescriptor::new("Int", "i64").ok().unwrap();
    let groups = only(&[Group::Bitwise, Group::Formatting]);
    assert_eq!(desc.generate(&groups), generate("Int", "i64", &groups));
}

#[test]
fn unsigned_with_arithmetic_alone() {
    let decls = generate("Int", "u32", &only(&[Group::Arithmetic]));
    assert_eq!(decls.len(), 30);
    for op in ["Add", "Sub", "Mul", "Div", "Rem"] {
        assert_eq!(count(&decls, &format!("core::ops::{}", op)), 3, "{}", op);
        assert_eq!(count(&decls, &format!("core::ops::{}Assign", op)), 3, "{}", op);
    }
    assert_eq!(count(&decls, "core::ops::Neg"), 0);
    let by_value = decls.iter().filter(|d| d.func.receiver == Receiver::ByValueMut).count();
    let in_place = decls.iter().filter(|d| d.func.receiver == Receiver::ByRefMut).count();
    assert_eq!(by_value, 15);
    assert_eq!(in_place, 15);
    for d in &decls {
        assert!(d.trait_name.starts_with("core::ops::"), "{}", d.trait_name);
    }

    let mut expected = Sink::new();
    Arithmetic::generate_all(&mut expected, "Int", "u32");
    assert_eq!(decls, expected.finish());
}

#[test]
fn arithmetic_alone_has_no_comparison_formatting_or_fold() {
    for inner in ["u8", "i32", "f64", "bool"] {
        let decls = generate("W", inner, &only(&[Group::Arithmetic]));
        for d in &decls {
            assert!(!d.trait_name.starts_with("Partial"), "{}", d.trait_name);
            assert!(!d.trait_name.starts_with("core::fmt::"), "{}", d.trait_name);
            assert!(!d.trait_name.starts_with("core::iter::"), "{}", d.trait_name);
        }
    }
}

#[test]
fn bool_with_bitwise_and_comparison() {
    let decls = generate("Flag", "bool", &only(&[Group::Bitwise, Group::Comparison]));
    assert_eq!(decls.len(), 23);
    for op in ["BitAnd", "BitOr", "BitXor"] {
        assert_eq!(count(&decls, &format!("core::ops::{}", op)), 3, "{}", op);
        assert_eq!(count(&decls, &format!("core::ops::{}Assign", op)), 3, "{}", op);
    }
    assert_eq!(count(&decls, "core::ops::Not"), 1);
    for op in ["Shl", "Shr", "ShlAssign", "ShrAssign"] {
        assert_eq!(count(&decls, &format!("core::ops::{}", op)), 0, "{}", op);
    }
    assert_eq!(count(&decls, "PartialEq"), 2);
    assert_eq!(count(&decls, "PartialOrd"), 2);
    for d in decls.iter().filter(|d| d.trait_name.starts_with("Partial")) {
        let other = d.trait_generic.as_deref().unwrap();
        assert!(
            (d.target == "Flag" && other == "bool") || (d.target == "bool" && other == "Flag"),
            "{} with {}",
            d.target,
            other
        );
    }
    assert_eq!(count(&decls, "core::fmt::Debug"), 0);
    assert_eq!(count(&decls, "core::fmt::Display"), 0);
    for d in &decls {
        assert!(!d.trait_name.starts_with("core::fmt::"), "{}", d.trait_name);
    }
}

#[test]
fn float_with_formatting() {
    let decls = generate("Float", "f32", &only(&[Group::Formatting]));
    assert_eq!(
        traits(&decls),
        ["core::fmt::Debug", "core::fmt::Display", "core::fmt::LowerExp", "core::fmt::UpperExp"]
    );
    for missing in ["Binary", "Octal", "LowerHex", "UpperHex"] {
        assert_eq!(count(&decls, &format!("core::fmt::{}", missing)), 0, "{}", missing);
    }
    for d in &decls {
        assert_eq!(d.target, "Float");
    }
}

#[test]
fn folds_without_arithmetic_are_not_declared() {
    let decls = generate("Int", "i16", &only(&[Group::Accumulation]));
    assert_eq!(decls, vec![]);
    let decls = generate(
        "Int",
        "i16",
        &only(&[Group::Accumulation, Group::Comparison, Group::Formatting, Group::Bitwise]),
    );
    assert_eq!(count(&decls, "core::iter::Sum"), 0);
    assert_eq!(count(&decls, "core::iter::Product"), 0);
}

#[test]
fn folds_with_arithmetic_are_declared() {
    let decls = generate("Int", "i16", &only(&[Group::Accumulation, Group::Arithmetic]));
    assert_eq!(decls.len(), 31 + 6);
    assert_eq!(count(&decls, "core::iter::Sum"), 3);
    assert_eq!(count(&decls, "core::iter::Product"), 3);
}

#[test]
fn no_group_plans_nothing() {
    assert_eq!(generate("Int", "u32", &Groups::none()), vec![]);
}

#[test]
fn all_groups_give_the_groups_one_after_the_other() {
    for inner in ["u32", "i8", "f64", "bool"] {
        let decls = generate("W", inner, &Groups::all());
        let mut expected = Sink::new();
        Arithmetic::generate_all(&mut expected, "W", inner);
        Bit::generate_all(&mut expected, "W", inner);
        Formatting::generate_all(&mut expected, "W", inner);
        Comparison::generate_all(&mut expected, "W", inner);
        Accumulation::generate_all(&mut expected, "W", inner);
        assert_eq!(decls, expected.finish(), "{}", inner);
    }
}

#[test]
fn all_groups_give_the_expected_number() {
    assert_eq!(generate("W", "u32", &Groups::all()).len(), 30 + (18 + 92 + 1) + 8 + 4 + 6);
    assert_eq!(generate("W", "i32", &Groups::all()).len(), 31 + (18 + 92 + 1) + 8 + 4 + 6);
    assert_eq!(generate("W", "f32", &Groups::all()).len(), 31 + 4 + 4 + 6);
    assert_eq!(generate("W", "bool", &Groups::all()).len(), 19 + 2 + 4);
}

#[test]
fn no_declaration_is_planned_twice() {
    for inner in [
        "u8", "u16", "u32", "u64", "u128", "usize", "i8", "i16", "i32", "i64", "i128", "isize",
        "f32", "f64", "bool",
    ] {
        for target in ["W", "Self", "u8", "bool", inner] {
            let decls = generate(target, inner, &Groups::all());
            for i in 0..decls.len() {
                for j in 0..i {
                    assert_ne!(decls[i], decls[j], "{} of {}: {} and {}", target, inner, j, i);
                }
            }
        }
    }
}

#[test]
fn the_order_of_the_request_does_not_count() {
    let one = only(&[Group::Comparison, Group::Arithmetic, Group::Formatting]);
    let other = only(&[Group::Formatting, Group::Comparison, Group::Arithmetic]);
    assert_eq!(generate("Int", "u8", &one), generate("Int", "u8", &other));
}

#[test]
fn by_value_forms_only_delegate() {
    let decls = generate("Int", "i64", &only(&[Group::Arithmetic, Group::Bitwise]));
    let by_value: Vec<&Impl> = decls
        .iter()
        .filter(|d| d.func.receiver == Receiver::ByValueMut && d.func.param.is_some())
        .collect();
    assert_eq!(by_value.len(), 15 + 9 + 46);
    for d in by_value {
        let assign = format!("{}Assign::{}_assign", d.trait_name, d.func.name);
        let on_wrapper = format!("{}(&mut self.0, rhs); self", assign);
        let on_primitive = format!("{}(&mut self, rhs); Int(self)", assign);
        let on_other = format!("{}(&mut self, rhs); Int(self as i64)", assign);
        if d.target == "Int" {
            assert_eq!(d.func.body, on_wrapper);
        } else if d.target == "i64" {
            assert_eq!(d.func.body, on_primitive);
        } else {
            assert_eq!(d.func.body, on_other);
        }
    }
}

#[test]
fn every_by_value_form_has_its_assignment() {
    let decls = generate("Int", "u16", &only(&[Group::Arithmetic, Group::Bitwise]));
    for d in decls.iter().filter(|d| d.func.receiver == Receiver::ByValueMut && d.func.param.is_some()) {
        let assign = format!("{}Assign", d.trait_name);
        let found = decls.iter().filter(|a| {
            a.trait_name == assign
                && a.target == d.target
                && a.trait_generic == d.trait_generic
                && a.func.param == d.func.param
                && a.func.receiver == Receiver::ByRefMut
        });
        assert_eq!(found.count(), 1, "{} for {}", d.trait_name, d.target);
    }
}

#[test]
fn deriving_for_a_wrapper() {
    let decls = primitive_derive("Int", &wrapper_of("u32"), &[tags(&["arithmetic"])]);
    assert_eq!(decls, Ok(generate("Int", "u32", &only(&[Group::Arithmetic]))));
    let decls = primitive_derive("Flag", &wrapper_of("bool"), &[]);
    assert_eq!(decls, Ok(generate("Flag", "bool", &Groups::all())));
}

#[test]
fn deriving_for_another_shape_is_refused() {
    assert_eq!(
        primitive_derive("Int", &Body::Other, &[]),
        Err(DeriveError::NotTupleStruct)
    );
}

#[test]
fn deriving_with_no_field_or_several_is_refused() {
    assert_eq!(
        primitive_derive("Int", &Body::Tuple(vec![]), &[]),
        Err(DeriveError::NotSingleField)
    );
    let two = Body::Tuple(vec![Field::Ident("u8".to_string()), Field::Ident("u8".to_string())]);
    assert_eq!(primitive_derive("Int", &two, &[]), Err(DeriveError::NotSingleField));
}

#[test]
fn deriving_for_a_field_of_another_type_is_refused() {
    assert_eq!(
        primitive_derive("Int", &Body::Tuple(vec![Field::Other]), &[]),
        Err(DeriveError::UnknownType)
    );
    assert_eq!(
        primitive_derive("Int", &wrapper_of("String"), &[]),
        Err(DeriveError::UnknownType)
    );
}

#[test]
fn deriving_reports_the_first_failure() {
    assert_eq!(
        primitive_derive("Int", &Body::Other, &[tags(&["logic"])]),
        Err(DeriveError::NotTupleStruct)
    );
    assert_eq!(
        primitive_derive("Int", &Body::Tuple(vec![]), &[tags(&["logic"])]),
        Err(DeriveError::UnknownGroup { attribute: 0, item: 0 })
    );
    assert_eq!(
        primitive_derive("Int", &Body::Tuple(vec![Field::Other, Field::Other]), &[]),
        Err(DeriveError::NotSingleField)
    );
    assert_eq!(
        primitive_derive("Int", &wrapper_of("Other"), &[Attribute::Malformed]),
        Err(DeriveError::MalformedAttribute { attribute: 0 })
    );
}
