//! Trusted boundary: the few outside calls the library's logic needs.

use vstd::prelude::*;

verus! {

/// The percent-encoded form of a string, as the `urlencoding` crate
/// computes it; a function of the input characters alone.
pub uninterp spec fn url_encoded(s: Seq<char>) -> Seq<char>;

/// Relies on `urlencoding::encode`: percent-encodes the UTF-8 bytes of
/// the input, leaving ASCII alphanumerics and `-`, `_`, `.`, `~` as
/// they are. The result depends on the input characters alone, so it is
/// only named here, not spelled out.
#[verifier::external_body]
pub(crate) fn encode_component(s: &str) -> (r: String)
    ensures
        r@ == url_encoded(s@),
{
    urlencoding::encode(s).into_owned()
}

/// Relies on `chrono::Local::now` and `chrono::DateTime::format`: the
/// local wall-clock time rendered as `HH:MM:SS`. The result depends on
/// the clock, so nothing is promised of it.
#[verifier::external_body]
pub(crate) fn now_hms() -> (r: String) {
    chrono::Local::now().format("%H:%M:%S").to_string()
}

/// Relies on `String::push`: appends the character to the end of the
/// string, for which vstd gives no specification.
#[verifier::external_body]
pub(crate) fn push_char(s: &mut String, c: char)
    ensures
        final(s)@ == old(s)@.push(c),
{
    s.push(c);
}

} // verus!
