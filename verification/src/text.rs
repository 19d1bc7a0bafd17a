//! Character-level helpers on text.

use vstd::prelude::*;

verus! {

/// The characters of `text`, in order.
pub fn chars_of(text: &str) -> (chars: Vec<char>)
    ensures
        chars@ == text@,
{
    broadcast use vstd::string::group_string_axioms;

    let mut chars: Vec<char> = Vec::new();
    for c in it: text.chars()
        invariant
            it.seq() == text@,
            chars@ == it.seq().take(it.index()),
    {
        chars.push(c);
    }
    chars
}

pub open spec fn is_digit(c: char) -> bool {
    '0' <= c <= '9'
}

pub open spec fn is_uppercase(c: char) -> bool {
    'A' <= c <= 'Z'
}

pub open spec fn is_lowercase(c: char) -> bool {
    'a' <= c <= 'z'
}

pub open spec fn is_letter(c: char) -> bool {
    is_uppercase(c) || is_lowercase(c)
}

pub open spec fn is_alphanumeric(c: char) -> bool {
    is_letter(c) || is_digit(c)
}

#[verifier::when_used_as_spec(is_digit)]
pub fn digit(c: char) -> (b: bool)
    ensures
        b == is_digit(c),
{
    '0' <= c && c <= '9'
}

#[verifier::when_used_as_spec(is_uppercase)]
pub fn uppercase(c: char) -> (b: bool)
    ensures
        b == is_uppercase(c),
{
    'A' <= c && c <= 'Z'
}

#[verifier::when_used_as_spec(is_lowercase)]
pub fn lowercase(c: char) -> (b: bool)
    ensures
        b == is_lowercase(c),
{
    'a' <= c && c <= 'z'
}

#[verifier::when_used_as_spec(is_letter)]
pub fn letter(c: char) -> (b: bool)
    ensures
        b == is_letter(c),
{
    uppercase(c) || lowercase(c)
}

#[verifier::when_used_as_spec(is_alphanumeric)]
pub fn alphanumeric(c: char) -> (b: bool)
    ensures
        b == is_alphanumeric(c),
{
    letter(c) || digit(c)
}

} // verus!
