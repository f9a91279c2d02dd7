//! Trusted boundary around the two `String` growth operations that the
//! renderer uses; vstd gives them no specification of its own.

use vstd::prelude::*;

verus! {

/// Relies on `String::push`: appends the one character at the end.
#[verifier::external_body]
pub(crate) fn push_char(s: &mut String, c: char)
    ensures
        final(s)@ == old(s)@.push(c),
{
    s.push(c)
}

/// Relies on `String::push_str`: appends the slice's characters at the end.
#[verifier::external_body]
pub(crate) fn push_str_onto(s: &mut String, t: &str)
    ensures
        final(s)@ == old(s)@ + t@,
{
    s.push_str(t)
}

} // verus!
