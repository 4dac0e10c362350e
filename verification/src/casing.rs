//! Case conversion of names, done by the `convert_case` crate.

use convert_case::{Case, Casing};
use vstd::prelude::*;
use vstd::utf8::is_ascii_chars;

verus! {

/// The case styles that names are converted to.
#[derive(Clone, Copy, Debug, PartialEq, Eq)]
pub enum CaseStyle {
    /// Lower-case words joined by underscores.
    Snake,
    /// Capitalised words joined by nothing.
    Pascal,
}

/// The text that `convert_case` makes of `s` in the given style. Nothing is
/// stated of it but that it depends on `s` and the style alone.
pub uninterp spec fn cased(s: Seq<char>, style: CaseStyle) -> Seq<char>;

/// `convert_case::Casing::to_case` on a string slice, with `Case::Snake` or
/// `Case::Pascal`. It is taken on trust, not proved, that the result depends on
/// nothing but the text and the style: the crate splits the text into words at
/// separators and changes of case and joins them again. The call is made on
/// ASCII text only: on other text the crate may cut a word inside a character
/// and panic.
#[verifier::external_body]
pub(crate) fn recase(s: &str, style: CaseStyle) -> (r: String)
    requires
        is_ascii_chars(s@),
    ensures
        r@ == cased(s@, style),
{
    match style {
        CaseStyle::Snake => s.to_case(Case::Snake),
        CaseStyle::Pascal => s.to_case(Case::Pascal),
    }
}

} // verus!
