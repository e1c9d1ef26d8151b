use primwrap::ops::names_int;
use primwrap::ops::names_primitive;
use primwrap::ops::Accumulation;
use primwrap::ops::Arithmetic;
use primwrap::ops::Bit;
use primwrap::ops::Comparison;
use primwrap::ops::Formatting;
use primwrap::ops::Op;
use primwrap::ops::OpData;
use primwrap::ops::int_types;

const UNSIGNED: [&str; 6] = ["u8", "u16", "u32", "u64", "u128", "usize"];
const SIGNED: [&str; 6] = ["i8", "i16", "i32", "i64", "i128", "isize"];
const FLOATS: [&str; 2] = ["f32", "f64"];

#[test]
fn arithmetic_of_unsigned_has_no_negation() {
    for inner in UNSIGNED {
        assert_eq!(
            Arithmetic::supported(inner),
            vec![
                Arithmetic::Add,
                Arithmetic::Sub,
                Arithmetic::Mul,
                Arithmetic::Div,
                Arithmetic::Rem
            ],
            "{}",
            inner
        );
    }
}

#[test]
fn arithmetic_of_signed_and_float_has_negation() {
    for inner in SIGNED.iter().chain(FLOATS.iter()) {
        assert_eq!(
            Arithmetic::supported(inner),
            vec![
                Arithmetic::Add,
                Arithmetic::Sub,
                Arithmetic::Mul,
                Arithmetic::Div,
                Arithmetic::Rem,
                Arithmetic::Neg
            ],
            "{}",
            inner
        );
    }
}

#[test]
fn arithmetic_of_bool_is_empty() {
    assert_eq!(Arithmetic::supported("bool"), vec![]);
}

#[test]
fn bitwise_of_float_is_empty() {
    for inner in FLOATS {
        assert_eq!(Bit::supported(inner), vec![], "{}", inner);
    }
}

#[test]
fn bitwise_of_bool_has_no_shift() {
    assert_eq!(
        Bit::supported("bool"),
        vec![Bit::BitAnd, Bit::BitOr, Bit::BitXor, Bit::Not]
    );
}

#[test]
fn bitwise_of_integers_has_all_six() {
    for inner in UNSIGNED.iter().chain(SIGNED.iter()) {
        assert_eq!(
            Bit::supported(inner),
            vec![Bit::BitAnd, Bit::BitOr, Bit::BitXor, Bit::Shl, Bit::Shr, Bit::Not],
            "{}",
            inner
        );
    }
}

#[test]
fn comparison_of_every_type_has_both() {
    for inner in ["bool", "f32", "u8", "i128", "isize"] {
        assert_eq!(
            Comparison::supported(inner),
            vec![Comparison::PartialEq, Comparison::PartialOrd],
            "{}",
            inner
        );
    }
}

#[test]
fn formatting_of_bool_is_debug_and_display() {
    assert_eq!(
        Formatting::supported("bool"),
        vec![Formatting::Debug, Formatting::Display]
    );
}

#[test]
fn formatting_of_float_adds_exponents() {
    for inner in FLOATS {
        assert_eq!(
            Formatting::supported(inner),
            vec![
                Formatting::Debug,
                Formatting::Display,
                Formatting::LowerExp,
                Formatting::UpperExp
            ],
            "{}",
            inner
        );
    }
}

#[test]
fn formatting_of_integers_has_all_eight() {
    for inner in UNSIGNED.iter().chain(SIGNED.iter()) {
        assert_eq!(
            Formatting::supported(inner),
            vec![
                Formatting::Debug,
                Formatting::Display,
                Formatting::Binary,
                Formatting::Octal,
                Formatting::LowerExp,
                Formatting::LowerHex,
                Formatting::UpperExp,
                Formatting::UpperHex
            ],
            "{}",
            inner
        );
    }
}

#[test]
fn accumulation_of_bool_is_empty() {
    assert_eq!(Accumulation::supported("bool"), vec![]);
}

#[test]
fn accumulation_of_numbers_has_both() {
    for inner in ["u8", "i64", "f32", "f64", "usize"] {
        assert_eq!(
            Accumulation::supported(inner),
            vec![Accumulation::Sum, Accumulation::Product],
            "{}",
            inner
        );
    }
}

#[test]
fn arithmetic_names() {
    let expected = [
        (Arithmetic::Add, "core::ops::Add", "add", Some(("core::ops::AddAssign", "add_assign"))),
        (Arithmetic::Sub, "core::ops::Sub", "sub", Some(("core::ops::SubAssign", "sub_assign"))),
        (Arithmetic::Mul, "core::ops::Mul", "mul", Some(("core::ops::MulAssign", "mul_assign"))),
        (Arithmetic::Div, "core::ops::Div", "div", Some(("core::ops::DivAssign", "div_assign"))),
        (Arithmetic::Rem, "core::ops::Rem", "rem", Some(("core::ops::RemAssign", "rem_assign"))),
        (Arithmetic::Neg, "core::ops::Neg", "neg", None),
    ];
    for (op, trait_name, fn_name, assign) in expected {
        assert_eq!(op.trait_name(), trait_name);
        assert_eq!(op.fn_name(), fn_name);
        let found = op.assign().map(|data| (data.trait_name(), data.fn_name()));
        assert_eq!(found, assign);
    }
}

#[test]
fn bitwise_names() {
    let expected = [
        (Bit::BitAnd, "core::ops::BitAnd", "bitand", Some(("core::ops::BitAndAssign", "bitand_assign"))),
        (Bit::BitOr, "core::ops::BitOr", "bitor", Some(("core::ops::BitOrAssign", "bitor_assign"))),
        (Bit::BitXor, "core::ops::BitXor", "bitxor", Some(("core::ops::BitXorAssign", "bitxor_assign"))),
        (Bit::Shl, "core::ops::Shl", "shl", Some(("core::ops::ShlAssign", "shl_assign"))),
        (Bit::Shr, "core::ops::Shr", "shr", Some(("core::ops::ShrAssign", "shr_assign"))),
        (Bit::Not, "core::ops::Not", "not", None),
    ];
    for (op, trait_name, fn_name, assign) in expected {
        assert_eq!(op.trait_name(), trait_name);
        assert_eq!(op.fn_name(), fn_name);
        let found = op.assign().map(|data| (data.trait_name(), data.fn_name()));
        assert_eq!(found, assign);
    }
}

#[test]
fn assignment_follows_the_name_of_its_operator() {
    for op in [Arithmetic::Add, Arithmetic::Sub, Arithmetic::Mul, Arithmetic::Div, Arithmetic::Rem] {
        let data = op.assign().unwrap();
        assert_eq!(data.trait_name(), format!("{}Assign", op.trait_name()));
        assert_eq!(data.fn_name(), format!("{}_assign", op.fn_name()));
    }
    for op in [Bit::BitAnd, Bit::BitOr, Bit::BitXor, Bit::Shl, Bit::Shr] {
        let data = op.assign().unwrap();
        assert_eq!(data.trait_name(), format!("{}Assign", op.trait_name()));
        assert_eq!(data.fn_name(), format!("{}_assign", op.fn_name()));
    }
}

#[test]
fn an_assignment_has_no_assignment_of_its_own() {
    let data = Arithmetic::Add.assign().unwrap();
    assert!(data.assign().is_none());
}

#[test]
fn comparison_names() {
    assert_eq!(Comparison::PartialEq.trait_name(), "PartialEq");
    assert_eq!(Comparison::PartialEq.fn_name(), "eq");
    assert_eq!(Comparison::PartialEq.ret_type(), "bool");
    assert!(Comparison::PartialEq.assign().is_none());
    assert_eq!(Comparison::PartialOrd.trait_name(), "PartialOrd");
    assert_eq!(Comparison::PartialOrd.fn_name(), "partial_cmp");
    assert_eq!(Comparison::PartialOrd.ret_type(), "Option<core::cmp::Ordering>");
    assert!(Comparison::PartialOrd.assign().is_none());
}

#[test]
fn comparison_bodies() {
    assert_eq!(Comparison::PartialEq.impl_body(false), "self.0.eq(other)");
    assert_eq!(Comparison::PartialEq.impl_body(true), "self.eq(other)");
    assert_eq!(Comparison::PartialOrd.impl_body(false), "self.0.partial_cmp(other)");
    assert_eq!(Comparison::PartialOrd.impl_body(true), "self.partial_cmp(other)");
}

#[test]
fn formatting_names() {
    let expected = [
        (Formatting::Debug, "core::fmt::Debug"),
        (Formatting::Display, "core::fmt::Display"),
        (Formatting::Binary, "core::fmt::Binary"),
        (Formatting::Octal, "core::fmt::Octal"),
        (Formatting::LowerExp, "core::fmt::LowerExp"),
        (Formatting::LowerHex, "core::fmt::LowerHex"),
        (Formatting::UpperExp, "core::fmt::UpperExp"),
        (Formatting::UpperHex, "core::fmt::UpperHex"),
    ];
    for (op, trait_name) in expected {
        assert_eq!(op.trait_name(), trait_name);
        assert_eq!(op.fn_name(), "fmt");
        assert!(op.assign().is_none());
    }
}

#[test]
fn accumulation_names() {
    assert_eq!(Accumulation::Sum.trait_name(), "core::iter::Sum");
    assert_eq!(Accumulation::Sum.fn_name(), "sum");
    assert!(Accumulation::Sum.assign().is_none());
    assert_eq!(Accumulation::Product.trait_name(), "core::iter::Product");
    assert_eq!(Accumulation::Product.fn_name(), "product");
    assert!(Accumulation::Product.assign().is_none());
}

#[test]
fn integer_types_in_order() {
    assert_eq!(
        int_types(),
        ["u8", "u16", "u32", "u64", "u128", "usize", "i8", "i16", "i32", "i64", "i128", "isize"]
    );
}

#[test]
fn integer_names_are_told_from_others() {
    for inner in UNSIGNED.iter().chain(SIGNED.iter()) {
        assert!(names_int(inner), "{}", inner);
    }
    for inner in ["f32", "f64", "bool", "", "u", "u9", "Self", "U8", "i8 ", "int"] {
        assert!(!names_int(inner), "{}", inner);
    }
}

#[test]
fn primitive_names_are_told_from_others() {
    for inner in UNSIGNED.iter().chain(SIGNED.iter()).chain(FLOATS.iter()) {
        assert!(names_primitive(inner), "{}", inner);
    }
    assert!(names_primitive("bool"));
    for inner in ["", "f16", "Bool", "char", "String", "Self", "u32x"] {
        assert!(!names_primitive(inner), "{}", inner);
    }
}

#[test]
fn a_name_of_no_primitive_goes_by_its_spelling() {
    assert_eq!(Arithmetic::supported("uint").len(), 5);
    assert_eq!(Arithmetic::supported("Meters").len(), 6);
    assert_eq!(Bit::supported("fixed").len(), 0);
    assert_eq!(Bit::supported("Meters").len(), 6);
    assert_eq!(Formatting::supported("fixed").len(), 4);
    assert_eq!(Accumulation::supported("Meters").len(), 2);
}
