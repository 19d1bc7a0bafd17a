//! Opaque random identifiers, used as account id and as bearer session key.

use vstd::prelude::*;

use crate::text::is_digit;

verus! {

/// A lower-case hexadecimal digit.
pub open spec fn is_hex(c: char) -> bool {
    is_digit(c) || 'a' <= c <= 'f'
}

/// The canonical rendering of a random 128-bit identifier: 32 lower-case
/// hexadecimal digits in groups of 8, 4, 4, 4 and 12, with a hyphen between
/// two groups. The third group starts with the version, 4, and the fourth
/// with the variant, one of 8, 9, a and b.
pub open spec fn is_token(text: Seq<char>) -> bool {
    &&& text.len() == 36
    &&& forall|i: int|
        0 <= i < 36 ==> if i == 8 || i == 13 || i == 18 || i == 23 {
            #[trigger] text[i] == '-'
        } else {
            is_hex(text[i])
        }
    &&& text[14] == '4'
    &&& text[19] == '8' || text[19] == '9' || text[19] == 'a' || text[19] == 'b'
}

/// Renders the outcome of `uuid::Uuid::new_v4` through its `Display` impl.
/// The identifier is random, so only its shape is claimed: the hyphenated
/// lower-case form, with the version and variant that `new_v4` sets. The
/// call panics where the operating system gives no randomness.
#[verifier::external_body]
fn random_uuid() -> (text: String)
    ensures
        is_token(text@),
{
    uuid::Uuid::new_v4().to_string()
}

/// Issues a fresh token.
pub fn issue_token() -> (token: String)
    ensures
        is_token(token@),
{
    random_uuid()
}

} // verus!
