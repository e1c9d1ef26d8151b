use primwrap::accum::generate_accum;
use primwrap::cmp::generate_cmp;
use primwrap::fmt::generate_fmt;
use primwrap::gen::Fn;
use primwrap::gen::Param;
use primwrap::gen::Receiver;
use primwrap::ops::Arithmetic;
use primwrap::ops::Formatting;
use primwrap::ops::Op;
use primwrap::util::Impl;
use primwrap::util::ImplSink;
use primwrap::util::ImplSpec;

fn pair(name: &str, ty: &str) -> Option<Param> {
    Some(Param { name: name.to_string(), ty: ty.to_string() })
}

type Shape<'a> = (
    &'a str,
    Option<&'a str>,
    Receiver,
    bool,
    Option<Param>,
    Option<Param>,
    bool,
    Option<&'a str>,
    &'a str,
);

fn shape_of<'a>(request: &'a Impl<'a>) -> Shape<'a> {
    (
        request.target,
        request.output,
        request.self_arg,
        request.mut_self,
        request.generic.as_ref().map(|p| Param { name: p.name.clone(), ty: p.ty.clone() }),
        request.param.as_ref().map(|p| Param { name: p.name.clone(), ty: p.ty.clone() }),
        request.has_generic,
        request.ret_type,
        request.body.as_str(),
    )
}

fn summary(decl: &primwrap::gen::Impl) -> (String, String, String) {
    (decl.trait_name.clone(), decl.target.clone(), decl.func.body.clone())
}

#[test]
fn a_binary_request_takes_a_mutable_self_by_value() {
    let request = Impl::from(ImplSpec::Binary {
        target: "Int",
        output: Some("Int"),
        operand_bind: "rhs".to_string(),
        operand_type: "u32",
        body: "self.0 += rhs; self".to_string(),
    });
    assert_eq!(
        shape_of(&request),
        (
            "Int",
            Some("Int"),
            Receiver::ByValue,
            true,
            None,
            pair("rhs", "u32"),
            true,
            Some("Int"),
            "self.0 += rhs; self"
        )
    );
}

#[test]
fn a_binary_request_without_output_returns_nothing() {
    let request = Impl::from(ImplSpec::Binary {
        target: "Int",
        output: None,
        operand_bind: "rhs".to_string(),
        operand_type: "Self",
        body: String::new(),
    });
    assert_eq!(request.output, None);
    assert_eq!(request.ret_type, None);
}

#[test]
fn an_assignment_takes_self_by_mutable_reference() {
    let request = Impl::from(ImplSpec::Assign {
        target: "Int",
        operand_bind: "Self(rhs)".to_string(),
        operand_type: "Self",
        expr: "self.0 += rhs;".to_string(),
    });
    assert_eq!(
        shape_of(&request),
        (
            "Int",
            None,
            Receiver::ByRefMut,
            false,
            None,
            pair("Self(rhs)", "Self"),
            true,
            None,
            "self.0 += rhs;"
        )
    );
}

#[test]
fn a_unary_request_returns_self() {
    let request = Impl::from(ImplSpec::Unary { target: "Int", body: "Self(-self.0)".to_string() });
    assert_eq!(
        shape_of(&request),
        (
            "Int",
            Some("Self"),
            Receiver::ByValue,
            false,
            None,
            None,
            true,
            Some("Self"),
            "Self(-self.0)"
        )
    );
}

#[test]
fn a_comparison_request_takes_the_other_side_by_reference() {
    let request = Impl::from(ImplSpec::Comparison {
        target: "Int",
        other_type: "u32",
        ret_type: "bool",
        body: "self.0.eq(other)",
    });
    assert_eq!(
        shape_of(&request),
        (
            "Int",
            None,
            Receiver::ByRef,
            false,
            None,
            pair("other", "&u32"),
            true,
            Some("bool"),
            "self.0.eq(other)"
        )
    );
}

#[test]
fn a_format_request_takes_the_formatter() {
    let request = Impl::from(ImplSpec::Format {
        target: "Int",
        body: "core::fmt::Debug::fmt(&self.0, f)",
    });
    assert_eq!(
        shape_of(&request),
        (
            "Int",
            None,
            Receiver::ByRef,
            false,
            None,
            pair("f", "&mut core::fmt::Formatter<'_>"),
            false,
            Some("core::fmt::Result"),
            "core::fmt::Debug::fmt(&self.0, f)"
        )
    );
}

#[test]
fn a_fold_request_is_an_associated_function() {
    let request = Impl::from(ImplSpec::Accum {
        target: "Int",
        element_type: "u32",
        body: "Self(iter.sum())".to_string(),
    });
    assert_eq!(
        shape_of(&request),
        (
            "Int",
            None,
            Receiver::Absent,
            false,
            pair("I", "Iterator<Item = u32>"),
            pair("iter", "I"),
            false,
            Some("Self"),
            "Self(iter.sum())"
        )
    );
}

#[test]
fn the_trait_is_applied_to_the_type_of_the_operand() {
    let request = Impl::from(ImplSpec::Binary {
        target: "Int",
        output: Some("Int"),
        operand_bind: "rhs".to_string(),
        operand_type: "u32",
        body: String::new(),
    });
    assert_eq!(request.format_trait("core::ops::Add"), "core::ops::Add<u32>");
}

#[test]
fn the_trait_is_not_applied_to_self() {
    let request = Impl::from(ImplSpec::Assign {
        target: "Int",
        operand_bind: "Self(rhs)".to_string(),
        operand_type: "Self",
        expr: String::new(),
    });
    assert_eq!(request.format_trait("core::ops::AddAssign"), "core::ops::AddAssign");
}

#[test]
fn the_trait_is_applied_to_what_a_reference_points_to() {
    let request = Impl::from(ImplSpec::Comparison {
        target: "Int",
        other_type: "u32",
        ret_type: "bool",
        body: "",
    });
    assert_eq!(request.format_trait("PartialEq"), "PartialEq<u32>");
    let to_self = Impl::from(ImplSpec::Comparison {
        target: "Int",
        other_type: "Self",
        ret_type: "bool",
        body: "",
    });
    assert_eq!(to_self.format_trait("PartialEq"), "PartialEq<Self>");
}

#[test]
fn the_trait_of_a_request_without_operand_stands_alone() {
    let unary = Impl::from(ImplSpec::Unary { target: "Int", body: String::new() });
    assert_eq!(unary.format_trait("core::ops::Neg"), "core::ops::Neg");
    let format = Impl::from(ImplSpec::Format { target: "Int", body: "" });
    assert_eq!(format.format_trait("core::fmt::Debug"), "core::fmt::Debug");
    let fold = Impl::from(ImplSpec::Accum { target: "Int", element_type: "u32", body: String::new() });
    assert_eq!(fold.format_trait("core::iter::Sum<u32>"), "core::iter::Sum<u32>");
}

#[test]
fn building_names_the_trait_and_the_function() {
    let decl = Impl::from(ImplSpec::Binary {
        target: "Int",
        output: Some("Int"),
        operand_bind: "rhs".to_string(),
        operand_type: "u32",
        body: "self.0 += rhs; self".to_string(),
    })
    .build("core::ops::Add", "add");
    assert_eq!(
        decl,
        primwrap::gen::Impl {
            trait_name: "core::ops::Add<u32>".to_string(),
            trait_generic: None,
            target: "Int".to_string(),
            output: Some("Int".to_string()),
            func: Fn {
                name: "add".to_string(),
                receiver: Receiver::ByValueMut,
                generic: None,
                param: pair("rhs", "u32"),
                ret: Some("Int".to_string()),
                body: "self.0 += rhs; self".to_string(),
            },
        }
    );
}

#[test]
fn building_keeps_a_self_that_is_not_mutable() {
    let decl = Impl::from(ImplSpec::Unary { target: "Int", body: "Self(!self.0)".to_string() })
        .build("core::ops::Not", "not");
    assert_eq!(decl.func.receiver, Receiver::ByValue);
    assert_eq!(decl.trait_name, "core::ops::Not");
    assert_eq!(decl.output.as_deref(), Some("Self"));
    assert_eq!(decl.func.ret.as_deref(), Some("Self"));
    assert_eq!(decl.func.param, None);
}

#[test]
fn building_a_fold_keeps_its_type_parameter() {
    let decl = Impl::from(ImplSpec::Accum {
        target: "u32",
        element_type: "Int",
        body: "iter.sum::<Int>().0".to_string(),
    })
    .build("core::iter::Sum<Int>", "sum");
    assert_eq!(decl.trait_name, "core::iter::Sum<Int>");
    assert_eq!(decl.func.receiver, Receiver::Absent);
    assert_eq!(decl.func.generic, pair("I", "Iterator<Item = Int>"));
    assert_eq!(decl.func.param, pair("iter", "I"));
    assert_eq!(decl.func.ret.as_deref(), Some("Self"));
}

#[test]
fn a_sink_for_an_operation_declares_under_its_names() {
    let mut sink = ImplSink::new_for(&Arithmetic::Sub);
    sink.push(ImplSpec::Binary {
        target: "Int",
        output: Some("Int"),
        operand_bind: "rhs".to_string(),
        operand_type: "u32",
        body: "a".to_string(),
    });
    sink.push(ImplSpec::Assign {
        target: "Int",
        operand_bind: "rhs".to_string(),
        operand_type: "u32",
        expr: "b".to_string(),
    });
    let decls = sink.finish();
    assert_eq!(decls.len(), 2);
    assert_eq!(decls[0].trait_name, "core::ops::Sub<u32>");
    assert_eq!(decls[0].func.name, "sub");
    assert_eq!(decls[0].func.body, "a");
    assert_eq!(decls[1].trait_name, "core::ops::SubAssign<u32>");
    assert_eq!(decls[1].func.name, "sub_assign");
    assert_eq!(decls[1].func.body, "b");
}

#[test]
fn a_sink_for_a_unary_operation_declares_under_its_names() {
    let mut sink = ImplSink::new_for(&Arithmetic::Neg);
    sink.push(ImplSpec::Unary { target: "Int", body: "Self(-self.0)".to_string() });
    let decls = sink.finish();
    assert_eq!(decls.len(), 1);
    assert_eq!(decls[0].trait_name, "core::ops::Neg");
    assert_eq!(decls[0].func.name, "neg");
}

#[test]
fn a_sink_of_given_names_declares_under_them() {
    let mut sink = ImplSink::new("Plus", Some("PlusAssign"), "plus", Some("plus_assign"));
    sink.push(ImplSpec::Assign {
        target: "Int",
        operand_bind: "Self(rhs)".to_string(),
        operand_type: "Self",
        expr: "x".to_string(),
    });
    sink.push(ImplSpec::Unary { target: "Int", body: "y".to_string() });
    let decls = sink.finish();
    assert_eq!(decls[0].trait_name, "PlusAssign");
    assert_eq!(decls[0].func.name, "plus_assign");
    assert_eq!(decls[1].trait_name, "Plus");
    assert_eq!(decls[1].func.name, "plus");
    assert_eq!(ImplSink::new("Plus", None, "plus", None).finish(), vec![]);
}

#[test]
fn a_sink_takes_requests_of_every_shape() {
    let mut sink = ImplSink::new("Show", None, "show", None);
    sink.push(ImplSpec::Format { target: "Int", body: "a" });
    sink.push(ImplSpec::Comparison {
        target: "Int",
        other_type: "u32",
        ret_type: "bool",
        body: "b",
    });
    sink.push(ImplSpec::Accum { target: "Int", element_type: "u32", body: "c".to_string() });
    sink.push(ImplSpec::Binary {
        target: "Int",
        output: None,
        operand_bind: "rhs".to_string(),
        operand_type: "&&u8",
        body: "d".to_string(),
    });
    let decls = sink.finish();
    let found: Vec<(String, String, String)> = decls.iter().map(summary).collect();
    let expected =
        [("Show", "Int", "a"), ("Show<u32>", "Int", "b"), ("Show", "Int", "c"), ("Show<u8>", "Int", "d")];
    assert_eq!(found.len(), 4);
    for (found, expected) in found.iter().zip(expected) {
        assert_eq!((found.0.as_str(), found.1.as_str(), found.2.as_str()), expected);
    }
    for decl in &decls {
        assert_eq!(decl.func.name, "show");
    }
}

#[test]
fn formatting_requests_are_declared_as_the_sink_does() {
    for inner in ["u8", "f32", "bool"] {
        let mut decls = Vec::new();
        generate_fmt(&mut decls, "Int", inner);
        let mut sink = primwrap::gen::Sink::new();
        Formatting::generate_all(&mut sink, "Int", inner);
        assert_eq!(decls, sink.finish());
    }
}

#[test]
fn formatting_requests_of_an_integer() {
    let mut decls = Vec::new();
    generate_fmt(&mut decls, "Int", "u32");
    let traits: Vec<&str> = decls.iter().map(|d| d.trait_name.as_str()).collect();
    assert_eq!(
        traits,
        [
            "core::fmt::Debug",
            "core::fmt::Display",
            "core::fmt::Binary",
            "core::fmt::Octal",
            "core::fmt::LowerExp",
            "core::fmt::LowerHex",
            "core::fmt::UpperExp",
            "core::fmt::UpperHex"
        ]
    );
    assert_eq!(traits.len(), Formatting::supported("u32").len());
    for decl in &decls {
        assert_eq!(decl.target, "Int");
        assert_eq!(decl.trait_generic, None);
        assert_eq!(decl.output, None);
        assert_eq!(decl.func.name, "fmt");
        assert_eq!(decl.func.receiver, Receiver::ByRef);
        assert_eq!(decl.func.param, pair("f", "&mut core::fmt::Formatter<'_>"));
        assert_eq!(decl.func.ret.as_deref(), Some("core::fmt::Result"));
        assert_eq!(decl.func.body, format!("{}::fmt(&self.0, f)", decl.trait_name));
    }
}

#[test]
fn formatting_requests_of_a_float_and_of_bool() {
    let mut decls = Vec::new();
    generate_fmt(&mut decls, "Float", "f64");
    let traits: Vec<&str> = decls.iter().map(|d| d.trait_name.as_str()).collect();
    assert_eq!(
        traits,
        ["core::fmt::Debug", "core::fmt::Display", "core::fmt::LowerExp", "core::fmt::UpperExp"]
    );
    let mut decls = Vec::new();
    generate_fmt(&mut decls, "Flag", "bool");
    let traits: Vec<&str> = decls.iter().map(|d| d.trait_name.as_str()).collect();
    assert_eq!(traits, ["core::fmt::Debug", "core::fmt::Display"]);
}

#[test]
fn formatting_requests_come_after_what_is_there() {
    let mut decls = Vec::new();
    generate_fmt(&mut decls, "Flag", "bool");
    generate_fmt(&mut decls, "Other", "bool");
    let targets: Vec<&str> = decls.iter().map(|d| d.target.as_str()).collect();
    assert_eq!(targets, ["Flag", "Flag", "Other", "Other"]);
}

#[test]
fn comparison_requests_in_both_directions() {
    let mut decls = Vec::new();
    generate_cmp(&mut decls, "Int", "u32");
    let found: Vec<(String, String, String)> = decls.iter().map(summary).collect();
    let expected = [
        ("PartialEq<u32>", "Int", "self.0.eq(other)"),
        ("PartialEq<Int>", "u32", "self.eq(&other.0)"),
        ("PartialOrd<u32>", "Int", "self.0.partial_cmp(other)"),
        ("PartialOrd<Int>", "u32", "self.partial_cmp(&other.0)"),
    ];
    assert_eq!(found.len(), 4);
    for (found, expected) in found.iter().zip(expected) {
        assert_eq!((found.0.as_str(), found.1.as_str(), found.2.as_str()), expected);
    }
    assert_eq!(decls[0].func.name, "eq");
    assert_eq!(decls[0].func.ret.as_deref(), Some("bool"));
    assert_eq!(decls[0].func.param, pair("other", "&u32"));
    assert_eq!(decls[1].func.param, pair("other", "&Int"));
    assert_eq!(decls[2].func.name, "partial_cmp");
    assert_eq!(decls[3].func.ret.as_deref(), Some("Option<core::cmp::Ordering>"));
    for decl in &decls {
        assert_eq!(decl.func.receiver, Receiver::ByRef);
        assert_eq!(decl.output, None);
    }
}

#[test]
fn fold_requests_need_arithmetic() {
    let mut decls = Vec::new();
    generate_accum(&mut decls, false, "Int", "i16");
    assert_eq!(decls, vec![]);
}

#[test]
fn fold_requests_are_not_made_for_bool() {
    let mut decls = Vec::new();
    generate_accum(&mut decls, true, "Flag", "bool");
    assert_eq!(decls, vec![]);
}

#[test]
fn fold_requests_of_a_number() {
    let mut decls = Vec::new();
    generate_accum(&mut decls, true, "Int", "u32");
    let found: Vec<(String, String, String)> = decls.iter().map(summary).collect();
    let expected = [
        ("core::iter::Sum", "Int", "iter.map(|it| it.0).sum()"),
        ("core::iter::Sum<u32>", "Int", "Self(iter.sum())"),
        ("core::iter::Sum<Int>", "u32", "iter.sum::<Int>().0"),
        ("core::iter::Product", "Int", "iter.map(|it| it.0).product()"),
        ("core::iter::Product<u32>", "Int", "Self(iter.product())"),
        ("core::iter::Product<Int>", "u32", "iter.product::<Int>().0"),
    ];
    assert_eq!(found.len(), 6);
    for (found, expected) in found.iter().zip(expected) {
        assert_eq!((found.0.as_str(), found.1.as_str(), found.2.as_str()), expected);
    }
    let elements: Vec<&str> =
        decls.iter().map(|d| d.func.generic.as_ref().unwrap().ty.as_str()).collect();
    assert_eq!(
        elements,
        [
            "Iterator<Item = Self>",
            "Iterator<Item = u32>",
            "Iterator<Item = Int>",
            "Iterator<Item = Self>",
            "Iterator<Item = u32>",
            "Iterator<Item = Int>"
        ]
    );
    for decl in &decls {
        assert_eq!(decl.func.receiver, Receiver::Absent);
        assert_eq!(decl.func.param, pair("iter", "I"));
        assert_eq!(decl.func.ret.as_deref(), Some("Self"));
    }
    assert_eq!(decls[0].func.name, "sum");
    assert_eq!(decls[5].func.name, "product");
}
