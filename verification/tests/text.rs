use primwrap::text::begins_with;
use primwrap::text::check_ident;
use primwrap::text::check_type_text;
use primwrap::text::join;
use primwrap::text::join3;
use primwrap::text::eq_ignore_case;
use primwrap::text::folded;
use primwrap::text::ident_continue;
use primwrap::text::ident_start;
use primwrap::text::str_eq;
use primwrap::text::trim_start;
use primwrap::text::type_char;

#[test]
fn equal_strings_are_equal() {
    assert!(str_eq("", ""));
    assert!(str_eq("bool", "bool"));
    assert!(str_eq("héllo", "héllo"));
}

#[test]
fn different_strings_are_not_equal() {
    assert!(!str_eq("bool", "boo"));
    assert!(!str_eq("boo", "bool"));
    assert!(!str_eq("bool", "boot"));
    assert!(!str_eq("Bool", "bool"));
    assert!(!str_eq("", "x"));
    assert!(!str_eq("é", "e"));
}

#[test]
fn prefix_is_the_first_character() {
    assert!(begins_with("u32", 'u'));
    assert!(begins_with("f", 'f'));
    assert!(!begins_with("", 'u'));
    assert!(!begins_with("iu", 'u'));
    assert!(!begins_with("U8", 'u'));
}

#[test]
fn folding_lowers_ascii_capitals_only() {
    assert_eq!(folded('A'), 'a' as u32);
    assert_eq!(folded('Z'), 'z' as u32);
    assert_eq!(folded('a'), 'a' as u32);
    assert_eq!(folded('@'), '@' as u32);
    assert_eq!(folded('['), '[' as u32);
    assert_eq!(folded('0'), '0' as u32);
    assert_eq!(folded('É'), 'É' as u32);
}

#[test]
fn case_of_ascii_letters_does_not_count() {
    assert!(eq_ignore_case("Arithmetic", "arithmetic"));
    assert!(eq_ignore_case("ARITHMETIC", "arithmetic"));
    assert!(eq_ignore_case("aRiThMeTiC", "ArItHmEtIc"));
    assert!(eq_ignore_case("", ""));
    assert!(!eq_ignore_case("arithmetic", "arithmeti"));
    assert!(!eq_ignore_case("arithmetic", "arithmetics"));
    assert!(!eq_ignore_case("bitwise", "bitwize"));
    assert!(!eq_ignore_case("É", "é"));
    assert!(!eq_ignore_case("@", "`"));
    assert!(!eq_ignore_case("[", "{"));
}

#[test]
fn identifier_characters() {
    for c in ['a', 'z', 'A', 'Z', '_'] {
        assert!(ident_start(c), "{}", c);
        assert!(ident_continue(c), "{}", c);
    }
    for c in ['0', '9'] {
        assert!(!ident_start(c), "{}", c);
        assert!(ident_continue(c), "{}", c);
    }
    for c in [' ', ':', '-', 'é', '@', '[', '`', '{', '/'] {
        assert!(!ident_start(c), "{}", c);
        assert!(!ident_continue(c), "{}", c);
    }
}

#[test]
fn identifiers() {
    for s in ["a", "_", "Int", "u32", "partial_cmp", "_0", "Self"] {
        assert!(check_ident(s), "{}", s);
    }
    for s in ["", "0", "3d", "a b", "a-b", "core::ops", "é", "a.b", "Int ", "r#a"] {
        assert!(!check_ident(s), "{}", s);
    }
}

#[test]
fn type_characters() {
    for c in ['a', 'Z', '_', '7', ':', '<', '>', '&', ',', '=', ' '] {
        assert!(type_char(c), "{}", c);
    }
    for c in ['(', ')', '[', '\'', '"', '#', ';', '.', '|', '-', '+', 'é', '\n'] {
        assert!(!type_char(c), "{}", c);
    }
}

#[test]
fn texts_of_types() {
    for s in [
        "u32",
        "Self",
        "core::ops::Add",
        "core::ops::Add<u32>",
        "Iterator<Item = u8>",
        "&u32",
        "Map<K, V>",
        "a1",
        "_1",
    ] {
        assert!(check_type_text(s), "{}", s);
    }
    for s in [
        "",
        "1",
        "1a",
        "a 1",
        "a<1>",
        "a::1",
        "(u32)",
        "&'a str",
        "[u8]",
        "a;b",
        "a.b",
        "é",
    ] {
        assert!(!check_type_text(s), "{}", s);
    }
}

#[test]
fn trimming_takes_all_leading_marks() {
    assert_eq!(trim_start("&u32", '&'), "u32");
    assert_eq!(trim_start("&&u32", '&'), "u32");
    assert_eq!(trim_start("u32", '&'), "u32");
    assert_eq!(trim_start("u&32&", '&'), "u&32&");
    assert_eq!(trim_start("&&&", '&'), "");
    assert_eq!(trim_start("", '&'), "");
    assert_eq!(trim_start("&mut core::fmt::Formatter<'_>", '&'), "mut core::fmt::Formatter<'_>");
    assert_eq!(trim_start("ééa", 'é'), "a");
}

#[test]
fn joining() {
    assert_eq!(join("Int", "(rhs)"), "Int(rhs)");
    assert_eq!(join("", ""), "");
    assert_eq!(join("a", ""), "a");
    assert_eq!(join3("Self(iter.", "sum", "())"), "Self(iter.sum())");
    assert_eq!(join3("", "b", ""), "b");
}
