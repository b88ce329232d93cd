//! Calls into the standard library's text handling that the library makes,
//! each under a contract of its own.

use vstd::prelude::*;

verus! {

/// An optional text as a mathematical value.
pub open spec fn opt_text(text: Option<String>) -> Option<Seq<char>> {
    match text {
        Some(t) => Some(t@),
        None => None,
    }
}

/// The texts of a map of strings.
pub open spec fn texts_of(fields: Map<Seq<char>, String>) -> Map<Seq<char>, Seq<char>> {
    Map::new(|name: Seq<char>| fields.contains_key(name), |name: Seq<char>| fields[name]@)
}

/// What `str::to_lowercase` makes of a text.
pub uninterp spec fn lowercase_of(text: Seq<char>) -> Seq<char>;

/// What `{:?}` writes for a text: the text in quotes, with escapes.
pub uninterp spec fn quoted(text: Seq<char>) -> Seq<char>;

/// What `{}` writes for a number: its decimal digits.
pub uninterp spec fn decimal(number: usize) -> Seq<char>;

/// `str::to_lowercase` of the standard library: the lowercase equivalent of
/// the text as a new `String`. The contract gives the result a name and says
/// no more of it.
#[verifier::external_body]
pub(crate) fn to_lowercase(text: &str) -> (lowered: String)
    ensures
        lowered@ == lowercase_of(text@),
{
    text.to_lowercase()
}

/// `String::push` of the standard library: appends the character to the end
/// of the text.
#[verifier::external_body]
pub(crate) fn push_char(text: &mut String, c: char)
    ensures
        final(text)@ == old(text)@.push(c),
{
    text.push(c)
}

/// `format!` of a text with `{:?}`.
#[verifier::external_body]
pub(crate) fn quote(text: &str) -> (res: String)
    ensures
        res@ == quoted(text@),
{
    format!("{text:?}")
}

/// `format!` of a number with `{}`.
#[verifier::external_body]
pub(crate) fn digits(number: usize) -> (res: String)
    ensures
        res@ == decimal(number),
{
    format!("{number}")
}

/// `std::path::Path::join`, from text to text: the path of the file in the
/// directory, as the platform writes it. Nothing is claimed of the text.
#[verifier::external_body]
pub(crate) fn join_path(directory: &str, filename: &str) -> (path: String) {
    std::path::Path::new(directory).join(filename).to_string_lossy().into_owned()
}

} // verus!
