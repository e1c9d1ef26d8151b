use primwrap::emit::emit_all;
use primwrap::generate;
use primwrap::primitive_derive;
use primwrap::text::check_ident;
use primwrap::Attribute;
use primwrap::Body;
use primwrap::DeriveError;
use primwrap::Field;
use primwrap::Group;
use primwrap::Groups;
use primwrap::Item;
use virtue::parse::AttributeLocation;
use virtue::parse::Fields;
use virtue::parse::Parse;
use virtue::parse::StructBody;
use virtue::prelude::TokenStream;
use virtue::utils::parse_tagged_attribute;
use virtue::utils::ParsedAttribute;

fn read(source: &str) -> (String, Body, Vec<Attribute>) {
    let tokens: TokenStream = source.parse().unwrap();
    let (gen, attributes, body) = Parse::new(tokens).unwrap().into_generator();
    let name = gen.target_name().to_string();
    let _ = gen.finish();
    let shape = match &body {
        virtue::parse::Body::Struct(StructBody { fields: Some(Fields::Tuple(fields)) }) => {
            Body::Tuple(
                fields
                    .iter()
                    .map(|field| {
                        let text = field.type_string();
                        if check_ident(&text) {
                            Field::Ident(text)
                        } else {
                            Field::Other
                        }
                    })
                    .collect(),
            )
        }
        _ => Body::Other,
    };
    let attrs = attributes
        .iter()
        .filter(|attribute| matches!(attribute.location, AttributeLocation::Container))
        .map(|attribute| match parse_tagged_attribute(&attribute.tokens, "primwrap") {
            Err(_) => Attribute::Malformed,
            Ok(None) => Attribute::Foreign,
            Ok(Some(entries)) => Attribute::Tagged(
                entries
                    .into_iter()
                    .map(|entry| match entry {
                        ParsedAttribute::Tag(name) => Item::Tag(name.to_string()),
                        ParsedAttribute::Property(..) => Item::Property,
                        _ => Item::Other,
                    })
                    .collect(),
            ),
        })
        .collect();
    (name, shape, attrs)
}

fn derive(source: &str) -> Result<String, DeriveError> {
    let (name, shape, attrs) = read(source);
    let decls = primitive_derive(&name, &shape, &attrs)?;
    let mut gen = virtue::generate::Generator::with_name(&name);
    emit_all(&decls, &mut gen).unwrap();
    Ok(gen.finish().unwrap().to_string().chars().filter(|c| !c.is_whitespace()).collect())
}

fn planned(name: &str, inner: &str, groups: &Groups) -> String {
    let decls = generate(name, inner, groups);
    let mut gen = virtue::generate::Generator::with_name(name);
    emit_all(&decls, &mut gen).unwrap();
    gen.finish().unwrap().to_string().chars().filter(|c| !c.is_whitespace()).collect()
}

#[test]
fn a_wrapper_without_attribute_gets_everything() {
    let text = derive("#[derive(Copy, Clone)] struct Int(u32);").unwrap();
    assert_eq!(text, planned("Int", "u32", &Groups::all()));
    for part in [
        "implcore::ops::Add<u32>forInt{",
        "implcore::ops::Shl<u8>forInt{",
        "implcore::ops::NotforInt{",
        "implPartialOrd<Int>foru32{",
        "implcore::fmt::UpperHexforInt{",
        "implcore::iter::Product<u32>forInt{",
    ] {
        assert!(text.contains(part), "{}", part);
    }
    assert!(!text.contains("core::ops::Neg"));
}

#[test]
fn a_wrapper_with_groups_gets_those() {
    let text = derive("#[primwrap(Arithmetic, comparison)] pub struct Float(pub f64);").unwrap();
    let groups = Groups::none().with(Group::Arithmetic).with(Group::Comparison);
    assert_eq!(text, planned("Float", "f64", &groups));
    assert!(text.contains("implcore::ops::NegforFloat{"));
    assert!(!text.contains("core::fmt::"));
    assert!(!text.contains("core::iter::"));
}

#[test]
fn groups_of_several_attributes_are_taken_together() {
    let text =
        derive("#[primwrap(bitwise)] #[repr(transparent)] #[primwrap(formatting)] struct Flag(bool);")
            .unwrap();
    let groups = Groups::none().with(Group::Bitwise).with(Group::Formatting);
    assert_eq!(text, planned("Flag", "bool", &groups));
}

#[test]
fn a_type_that_is_no_wrapper_is_refused() {
    assert_eq!(derive("struct Unit;"), Err(DeriveError::NotTupleStruct));
    assert_eq!(derive("struct Named { value: u32 }"), Err(DeriveError::NotTupleStruct));
    assert_eq!(derive("enum Either { Left(u32), Right(u32) }"), Err(DeriveError::NotTupleStruct));
    assert_eq!(derive("struct Empty();"), Err(DeriveError::NotSingleField));
    assert_eq!(derive("struct Pair(u32, u32);"), Err(DeriveError::NotSingleField));
    assert_eq!(derive("struct Boxed(Box<u32>);"), Err(DeriveError::UnknownType));
    assert_eq!(derive("struct Path(core::primitive::u32);"), Err(DeriveError::UnknownType));
    assert_eq!(derive("struct Text(String);"), Err(DeriveError::UnknownType));
}

#[test]
fn an_attribute_that_names_no_group_is_refused() {
    assert_eq!(
        derive("#[primwrap(arithmetic, logic)] struct Int(u32);"),
        Err(DeriveError::UnknownGroup { attribute: 0, item: 1 })
    );
    assert_eq!(
        derive("#[repr(C)] #[primwrap(bitwise = \"on\")] struct Int(u32);"),
        Err(DeriveError::ExpectedIdentifier { attribute: 1, item: 0 })
    );
    assert_eq!(
        derive("#[primwrap(\"bitwise\")] struct Int(u32);"),
        Err(DeriveError::MalformedAttribute { attribute: 0 })
    );
}
