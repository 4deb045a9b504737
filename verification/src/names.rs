use vstd::prelude::*;
use vstd::string::*;
use crate::error::{NameError, SvdError};

verus! {

/// Letters, digits and the underscore.
pub open spec fn is_name_char(c: char) -> bool {
    c == '_' || ('a' <= c && c <= 'z') || ('A' <= c && c <= 'Z') || ('0' <= c && c <= '9')
}

/// Whether the placeholder token `%s` starts at index `i`.
pub open spec fn placeholder_at(s: Seq<char>, i: int) -> bool {
    0 <= i && i + 1 < s.len() && s[i] == '%' && s[i + 1] == 's'
}

/// Whether the bracketed placeholder `[%s]` starts at index `i`.
pub open spec fn bracketed_at(s: Seq<char>, i: int) -> bool {
    0 <= i && i + 3 < s.len() && s[i] == '[' && placeholder_at(s, i + 1) && s[i + 3] == ']'
}

/// Whether `s` from index `i` on is made of name characters and placeholder
/// tokens (`%s` or `[%s]`) only.
pub open spec fn dimable_from(s: Seq<char>, i: int) -> bool
    decreases s.len() - i,
{
    if i < 0 || i >= s.len() {
        true
    } else if is_name_char(s[i]) {
        dimable_from(s, i + 1)
    } else if placeholder_at(s, i) {
        dimable_from(s, i + 2)
    } else if bracketed_at(s, i) {
        dimable_from(s, i + 4)
    } else {
        false
    }
}

/// The dimensioned-name pattern: a non-empty run of name characters and
/// placeholder tokens.
pub open spec fn is_dimable_name(s: Seq<char>) -> bool {
    s.len() > 0 && dimable_from(s, 0)
}

/// The plain-name pattern of a derivation reference: non-empty, made of name
/// characters and dots that separate the levels of a path.
pub open spec fn is_plain_name(s: Seq<char>) -> bool {
    s.len() > 0 && forall|i: int| 0 <= i < s.len() ==> is_name_char(#[trigger] s[i]) || s[i] == '.'
}

/// Whether the placeholder token `%s` occurs in `s`.
pub open spec fn has_placeholder(s: Seq<char>) -> bool {
    exists|i: int| placeholder_at(s, i)
}

fn name_char(c: char) -> (res: bool)
    ensures
        res == is_name_char(c),
{
    c == '_' || ('a' <= c && c <= 'z') || ('A' <= c && c <= 'Z') || ('0' <= c && c <= '9')
}

/// Decides the dimensioned-name pattern.
pub fn matches_dimable_name(name: &str) -> (res: bool)
    ensures
        res == is_dimable_name(name@),
{
    let cs: Vec<char> = crate::text::chars_of(name);
    let n: usize = cs.len();
    if n == 0 {
        return false;
    }
    let mut i: usize = 0;
    while i < n
        invariant
            cs@ == name@,
            n == cs@.len(),
            i <= n,
            dimable_from(name@, 0) == dimable_from(name@, i as int),
        decreases n - i,
    {
        if name_char(cs[i]) {
            i += 1;
        } else if n - i >= 2 && cs[i] == '%' && cs[i + 1] == 's' {
            i += 2;
        } else if n - i >= 4 && cs[i] == '[' && cs[i + 1] == '%' && cs[i + 2] == 's' && cs[i + 3]
            == ']' {
            i += 4;
        } else {
            return false;
        }
    }
    true
}

/// Decides the plain-name pattern.
pub fn matches_plain_name(name: &str) -> (res: bool)
    ensures
        res == is_plain_name(name@),
{
    let cs: Vec<char> = crate::text::chars_of(name);
    let n: usize = cs.len();
    if n == 0 {
        return false;
    }
    let mut i: usize = 0;
    while i < n
        invariant
            cs@ == name@,
            n == cs@.len(),
            i <= n,
            forall|j: int| 0 <= j < i ==> is_name_char(#[trigger] name@[j]) || name@[j] == '.',
        decreases n - i,
    {
        if !(name_char(cs[i]) || cs[i] == '.') {
            return false;
        }
        i += 1;
    }
    true
}

/// Decides whether the placeholder token occurs in a name.
pub fn contains_placeholder(name: &str) -> (res: bool)
    ensures
        res == has_placeholder(name@),
{
    let cs: Vec<char> = crate::text::chars_of(name);
    let n: usize = cs.len();
    let mut i: usize = 0;
    while i < n
        invariant
            cs@ == name@,
            n == cs@.len(),
            i <= n,
            forall|j: int| 0 <= j < i ==> !placeholder_at(name@, j),
        decreases n - i,
    {
        if n - i >= 2 && cs[i] == '%' && cs[i + 1] == 's' {
            assert(placeholder_at(name@, i as int));
            return true;
        }
        i += 1;
    }
    false
}

/// Checks a name that may stand for an array against the dimensioned-name
/// pattern; the error names the offending name and the tag it was given for.
pub fn check_dimable_name(name: &str, tag: &str) -> (res: Result<(), SvdError>)
    ensures
        is_dimable_name(name@) ==> res is Ok,
        !is_dimable_name(name@) ==> res is Err && res->Err_0.is_invalid_name(name@, tag@),
{
    if matches_dimable_name(name) {
        Ok(())
    } else {
        Err(SvdError::Name(NameError::Invalid(name.to_owned(), tag.to_owned())))
    }
}

/// Checks a derivation reference against the plain-name pattern.
pub fn check_derived_name(name: &str, tag: &str) -> (res: Result<(), SvdError>)
    ensures
        is_plain_name(name@) ==> res is Ok,
        !is_plain_name(name@) ==> res is Err && res->Err_0.is_invalid_name(name@, tag@),
{
    if matches_plain_name(name) {
        Ok(())
    } else {
        Err(SvdError::Name(NameError::Invalid(name.to_owned(), tag.to_owned())))
    }
}

/// Checks that the name of an array entity holds the placeholder token.
pub fn check_has_placeholder(name: &str, tag: &str) -> (res: Result<(), SvdError>)
    ensures
        has_placeholder(name@) ==> res is Ok,
        !has_placeholder(name@) ==> res is Err && res->Err_0.is_missing_placeholder(name@, tag@),
{
    if contains_placeholder(name) {
        Ok(())
    } else {
        Err(SvdError::Name(NameError::MissingPlaceholder(name.to_owned(), tag.to_owned())))
    }
}

} // verus!
