//! Text operations of std that the model relies on, each with the
//! behaviour that std documents.
use vstd::prelude::*;

verus! {

/// The characters that remain once leading and trailing whitespace is removed.
pub uninterp spec fn trim_of(s: Seq<char>) -> Seq<char>;

pub open spec fn is_ascii_upper(c: char) -> bool {
    'A' <= c && c <= 'Z'
}

/// Two characters that are equal once ASCII letters are lowercased.
pub open spec fn char_eq_ignore_ascii_case(a: char, b: char) -> bool {
    a == b || (is_ascii_upper(a) && a as u32 + 32 == b as u32) || (is_ascii_upper(b) && b as u32
        + 32 == a as u32)
}

pub open spec fn seq_eq_ignore_ascii_case(a: Seq<char>, b: Seq<char>) -> bool {
    a.len() == b.len() && forall|i: int| 0 <= i < a.len() ==> char_eq_ignore_ascii_case(a[i], b[i])
}

/// Relies on `str::strip_prefix` with a `char` pattern: the rest of the text
/// when it begins with `c`.
#[verifier::external_body]
pub(crate) fn strip_prefix_char<'a>(s: &'a str, c: char) -> (r: Option<&'a str>)
    ensures
        r is Some <==> (s@.len() > 0 && s@[0] == c),
        r is Some ==> r->0@ == s@.drop_first(),
{
    s.strip_prefix(c)
}

/// Relies on `str::strip_suffix` with a `char` pattern: the text before a
/// trailing `c`.
#[verifier::external_body]
pub(crate) fn strip_suffix_char<'a>(s: &'a str, c: char) -> (r: Option<&'a str>)
    ensures
        r is Some <==> (s@.len() > 0 && s@.last() == c),
        r is Some ==> r->0@ == s@.drop_last(),
{
    s.strip_suffix(c)
}

/// Relies on `str::split_once` with a `char` pattern: the text before and
/// after the first `c`.
#[verifier::external_body]
pub(crate) fn split_once_char<'a>(s: &'a str, c: char) -> (r: Option<(&'a str, &'a str)>)
    ensures
        match s@.index_of_first(c) {
            None => r is None,
            Some(i) => r is Some && (r->0).0@ == s@.take(i) && (r->0).1@ == s@.skip(i + 1),
        },
{
    s.split_once(c)
}

/// Relies on `str::trim`: leading and trailing whitespace removed.
#[verifier::external_body]
pub(crate) fn trim<'a>(s: &'a str) -> (r: &'a str)
    ensures
        r@ == trim_of(s@),
{
    s.trim()
}

/// Relies on `str::eq_ignore_ascii_case`: equality once ASCII letters of
/// both are lowercased.
#[verifier::external_body]
pub(crate) fn eq_ignore_ascii_case(a: &str, b: &str) -> (r: bool)
    ensures
        r == seq_eq_ignore_ascii_case(a@, b@),
{
    a.eq_ignore_ascii_case(b)
}

/// Relies on `Iterator::count` over `str::chars`: the number of characters.
#[verifier::external_body]
pub(crate) fn char_count(s: &str) -> (r: usize)
    ensures
        r == s@.len(),
{
    s.chars().count()
}

/// Relies on `==` on `str`: the same characters in the same order.
#[verifier::external_body]
pub(crate) fn str_eq(a: &str, b: &str) -> (r: bool)
    ensures
        r == (a@ == b@),
{
    a == b
}

} // verus!
