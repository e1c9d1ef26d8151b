//! Operations on strings that the planner needs: comparison, prefixes and
//! concatenation, each stated over the sequence of characters of a string.

use vstd::prelude::*;
use vstd::string::*;

verus! {

/// Whether `s` begins with the character `c`.
pub open spec fn starts_with(s: Seq<char>, c: char) -> bool {
    s.len() > 0 && s[0] == c
}

/// The code point of `c`, with an ASCII upper-case letter taken to its
/// lower-case form.
pub open spec fn fold_case(c: char) -> u32 {
    if 'A' as u32 <= c as u32 && c as u32 <= 'Z' as u32 {
        (c as u32 + ('a' as u32 - 'A' as u32)) as u32
    } else {
        c as u32
    }
}

/// Whether `a` and `b` are the same but for the case of ASCII letters.
pub open spec fn same_ignoring_case(a: Seq<char>, b: Seq<char>) -> bool {
    &&& a.len() == b.len()
    &&& forall|i: int| 0 <= i < a.len() ==> fold_case(#[trigger] a[i]) == fold_case(b[i])
}

/// Whether `c` can begin an identifier: an ASCII letter or an underscore.
pub open spec fn is_ident_start(c: char) -> bool {
    ||| c == '_'
    ||| ('a' as u32 <= c as u32 && c as u32 <= 'z' as u32)
    ||| ('A' as u32 <= c as u32 && c as u32 <= 'Z' as u32)
}

/// Whether `c` is an ASCII digit.
pub open spec fn is_digit(c: char) -> bool {
    '0' as u32 <= c as u32 && c as u32 <= '9' as u32
}

/// Whether `c` can stand inside an identifier: an ASCII letter, an ASCII digit
/// or an underscore.
pub open spec fn is_ident_continue(c: char) -> bool {
    is_ident_start(c) || is_digit(c)
}

/// Whether `s` is an identifier of ASCII characters: not empty, begun by a
/// letter or an underscore, and continued by letters, digits and underscores.
pub open spec fn is_ident(s: Seq<char>) -> bool {
    &&& s.len() > 0
    &&& is_ident_start(s[0])
    &&& forall|i: int| 0 < i < s.len() ==> is_ident_continue(#[trigger] s[i])
}

/// Whether `c` can stand in the text of a type or of a path: an identifier
/// character, a blank, or one of `:`, `<`, `>`, `&`, `,` and `=`.
pub open spec fn is_type_char(c: char) -> bool {
    ||| is_ident_continue(c)
    ||| c == ':'
    ||| c == '<'
    ||| c == '>'
    ||| c == '&'
    ||| c == ','
    ||| c == '='
    ||| c == ' '
}

/// Whether `s` is the text of a type or of a path, such as `core::ops::Add` or
/// `Iterator<Item = u8>`: not empty, made of identifiers, blanks and the
/// punctuation of `is_type_char`, with every digit inside an identifier.
pub open spec fn is_type_text(s: Seq<char>) -> bool {
    &&& s.len() > 0
    &&& forall|i: int| 0 <= i < s.len() ==> is_type_char(#[trigger] s[i])
    &&& forall|i: int|
        0 <= i < s.len() && is_digit(#[trigger] s[i]) ==> i > 0 && is_ident_continue(s[i - 1])
}

/// `s` without the characters `c` that it begins with.
pub open spec fn trimmed_start(s: Seq<char>, c: char) -> Seq<char>
    decreases s.len(),
{
    if s.len() > 0 && s[0] == c {
        trimmed_start(s.drop_first(), c)
    } else {
        s
    }
}

/// Compares two strings character by character.
pub fn str_eq(a: &str, b: &str) -> (same: bool)
    ensures
        same == (a@ == b@),
{
    let n: usize = a.unicode_len();
    if n != b.unicode_len() {
        return false;
    }
    let mut i: usize = 0;
    while i < n
        invariant
            n == a@.len(),
            n == b@.len(),
            i <= n,
            forall|j: int| 0 <= j < i ==> a@[j] == b@[j],
        decreases n - i,
    {
        if a.get_char(i) != b.get_char(i) {
            return false;
        }
        i = i + 1;
    }
    assert(a@ =~= b@);
    true
}

/// Tests whether `s` begins with `c`.
pub fn begins_with(s: &str, c: char) -> (found: bool)
    ensures
        found == starts_with(s@, c),
{
    s.unicode_len() > 0 && s.get_char(0) == c
}

/// Computes `fold_case`.
pub fn folded(c: char) -> (code: u32)
    ensures
        code == fold_case(c),
{
    let code: u32 = c as u32;
    if 'A' as u32 <= code && code <= 'Z' as u32 {
        code + ('a' as u32 - 'A' as u32)
    } else {
        code
    }
}

/// Compares two strings without regard to the case of ASCII letters.
pub fn eq_ignore_case(a: &str, b: &str) -> (same: bool)
    ensures
        same == same_ignoring_case(a@, b@),
{
    let n: usize = a.unicode_len();
    if n != b.unicode_len() {
        return false;
    }
    let mut i: usize = 0;
    while i < n
        invariant
            n == a@.len(),
            n == b@.len(),
            i <= n,
            forall|j: int| 0 <= j < i ==> fold_case(#[trigger] a@[j]) == fold_case(b@[j]),
        decreases n - i,
    {
        if folded(a.get_char(i)) != folded(b.get_char(i)) {
            return false;
        }
        i = i + 1;
    }
    true
}

/// Tests whether `c` can begin an identifier.
pub fn ident_start(c: char) -> (ok: bool)
    ensures
        ok == is_ident_start(c),
{
    let code: u32 = c as u32;
    c == '_' || ('a' as u32 <= code && code <= 'z' as u32) || ('A' as u32 <= code && code
        <= 'Z' as u32)
}

/// Tests whether `c` is an ASCII digit.
pub fn digit(c: char) -> (ok: bool)
    ensures
        ok == is_digit(c),
{
    let code: u32 = c as u32;
    '0' as u32 <= code && code <= '9' as u32
}

/// Tests whether `c` can stand inside an identifier.
pub fn ident_continue(c: char) -> (ok: bool)
    ensures
        ok == is_ident_continue(c),
{
    ident_start(c) || digit(c)
}

/// Tests whether `s` is an identifier of ASCII characters.
pub fn check_ident(s: &str) -> (ok: bool)
    ensures
        ok == is_ident(s@),
{
    let n: usize = s.unicode_len();
    if n == 0 {
        return false;
    }
    if !ident_start(s.get_char(0)) {
        return false;
    }
    let mut i: usize = 1;
    while i < n
        invariant
            n == s@.len(),
            1 <= i <= n,
            forall|j: int| 0 < j < i ==> is_ident_continue(#[trigger] s@[j]),
        decreases n - i,
    {
        if !ident_continue(s.get_char(i)) {
            return false;
        }
        i = i + 1;
    }
    true
}

/// Tests whether `c` can stand in the text of a type or of a path.
pub fn type_char(c: char) -> (ok: bool)
    ensures
        ok == is_type_char(c),
{
    ident_continue(c) || c == ':' || c == '<' || c == '>' || c == '&' || c == ',' || c == '='
        || c == ' '
}

/// Tests whether `s` is the text of a type or of a path.
pub fn check_type_text(s: &str) -> (ok: bool)
    ensures
        ok == is_type_text(s@),
{
    let n: usize = s.unicode_len();
    if n == 0 {
        return false;
    }
    let mut after_ident: bool = false;
    let mut i: usize = 0;
    while i < n
        invariant
            n == s@.len(),
            i <= n,
            after_ident == (i > 0 && is_ident_continue(s@[i - 1])),
            forall|j: int| 0 <= j < i ==> is_type_char(#[trigger] s@[j]),
            forall|j: int|
                0 <= j < i && is_digit(#[trigger] s@[j]) ==> j > 0 && is_ident_continue(
                    s@[j - 1],
                ),
        decreases n - i,
    {
        let c: char = s.get_char(i);
        if !type_char(c) {
            return false;
        }
        if digit(c) && !after_ident {
            return false;
        }
        after_ident = ident_continue(c);
        i = i + 1;
    }
    true
}

/// Returns `s` without the characters `c` that it begins with.
pub fn trim_start<'a>(s: &'a str, c: char) -> (rest: &'a str)
    ensures
        rest@ == trimmed_start(s@, c),
{
    let n: usize = s.unicode_len();
    let mut i: usize = 0;
    assert(s@.subrange(0, n as int) =~= s@);
    while i < n && s.get_char(i) == c
        invariant
            n == s@.len(),
            i <= n,
            trimmed_start(s@, c) == trimmed_start(s@.subrange(i as int, n as int), c),
        decreases n - i,
    {
        proof {
            let here = s@.subrange(i as int, n as int);
            assert(here.drop_first() =~= s@.subrange(i + 1, n as int));
        }
        i = i + 1;
    }
    s.substring_char(i, n)
}

/// Joins two strings.
pub fn join(a: &str, b: &str) -> (joined: String)
    ensures
        joined@ == a@ + b@,
{
    let mut joined = String::from_str(a);
    joined.append(b);
    joined
}

/// Joins three strings.
pub fn join3(a: &str, b: &str, c: &str) -> (joined: String)
    ensures
        joined@ == a@ + b@ + c@,
{
    let mut joined = String::from_str(a);
    joined.append(b);
    joined.append(c);
    joined
}

} // verus!
