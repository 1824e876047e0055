//! The few operations on `String` that the editor needs and that have no
//! specification of their own.

use vstd::prelude::*;

verus! {

/// Whether `text` ends with `suffix`.
pub open spec fn has_suffix(text: Seq<char>, suffix: Seq<char>) -> bool {
    text.len() >= suffix.len() && text.subrange(text.len() - suffix.len(), text.len() as int)
        == suffix
}

/// `String::push`: the character is appended at the end and nothing else
/// changes. Believed of std, not proved.
#[verifier::external_body]
pub(crate) fn push_char(text: &mut String, c: char)
    ensures
        final(text)@ == old(text)@.push(c),
{
    text.push(c)
}

/// `String::pop`: takes the last character off and returns it; on the empty
/// string it returns `None` and changes nothing. Believed of std, not proved.
#[verifier::external_body]
pub(crate) fn pop_char(text: &mut String) -> (last: Option<char>)
    ensures
        old(text)@.len() == 0 ==> last is None && final(text)@ == old(text)@,
        old(text)@.len() > 0 ==> last == Some(old(text)@.last()) && final(text)@ == old(
            text,
        )@.drop_last(),
{
    text.pop()
}

/// `str::ends_with` with a string as the pattern: true exactly when the last
/// characters of `text` are those of `suffix`. Believed of std, not proved.
#[verifier::external_body]
pub(crate) fn ends_with(text: &str, suffix: &str) -> (yes: bool)
    ensures
        yes == has_suffix(text@, suffix@),
{
    text.ends_with(suffix)
}

/// `==` on two string slices: true exactly when they hold the same
/// characters. Believed of std, not proved.
#[verifier::external_body]
pub(crate) fn same_text(a: &str, b: &str) -> (yes: bool)
    ensures
        yes == (a@ == b@),
{
    a == b
}

} // verus!
