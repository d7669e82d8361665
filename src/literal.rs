use vstd::prelude::*;

verus! {

/// The value that syn reads from the text of an integer literal, when it
/// parses as one and its value fits in an `isize`.
pub uninterp spec fn int_literal_value(s: Seq<char>) -> Option<isize>;

/// Whether syn accepts the text as a single identifier.
pub uninterp spec fn is_ident(s: Seq<char>) -> bool;

/// A nonempty run of ASCII decimal digits.
pub open spec fn is_decimal(s: Seq<char>) -> bool {
    s.len() > 0 && forall|i: int| 0 <= i < s.len() ==> '0' <= #[trigger] s[i] && s[i] <= '9'
}

/// The number that a run of decimal digits spells.
pub open spec fn decimal_value(s: Seq<char>) -> int
    decreases s.len(),
{
    if s.len() == 0 {
        0
    } else {
        10 * decimal_value(s.drop_last()) + (s.last() as int - '0' as int)
    }
}

/// Relies on `syn::parse_str::<syn::LitInt>` to read an integer literal and on
/// `syn::LitInt::base10_parse::<isize>` for its value: `None` where the text is
/// no integer literal or its value does not fit. A run of decimal digits is read
/// as the number it spells.
#[verifier::external_body]
pub(crate) fn parse_int_literal(text: &str) -> (r: Option<isize>)
    ensures
        r == int_literal_value(text@),
        is_decimal(text@) ==> r == (if decimal_value(text@) <= isize::MAX {
            Some(decimal_value(text@) as isize)
        } else {
            None::<isize>
        }),
{
    syn::parse_str::<syn::LitInt>(text).ok().and_then(|lit| lit.base10_parse::<isize>().ok())
}

/// Relies on `syn::parse_str::<syn::Ident>`: whether the text is one
/// identifier. Empty text is none.
#[verifier::external_body]
pub(crate) fn parse_ident(text: &str) -> (r: bool)
    ensures
        r == is_ident(text@),
        text@.len() == 0 ==> !r,
{
    syn::parse_str::<syn::Ident>(text).is_ok()
}

} // verus!
