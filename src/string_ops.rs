//! The two `String` mutations that the editor needs and that vstd leaves
//! without a specification.
use vstd::prelude::*;
use vstd::utf8::*;
use crate::utf8::utf8_len;

verus! {

/// Relies on `String::insert`: the UTF-8 bytes of `ch` are placed at byte
/// offset `idx`, which must be a character boundary (else it panics). No
/// `String` holds more than `isize::MAX` bytes.
#[verifier::external_body]
pub(crate) fn string_insert(s: &mut String, idx: usize, ch: char)
    requires
        is_char_boundary(encode_utf8(old(s)@), idx as int),
    ensures
        encode_utf8(final(s)@) == encode_utf8(old(s)@).take(idx as int) + encode_utf8(seq![ch])
            + encode_utf8(old(s)@).skip(idx as int),
        utf8_len(final(s)@) <= isize::MAX,
{
    s.insert(idx, ch)
}

/// Relies on `String::push`: `ch` is appended at the end. No `String` holds
/// more than `isize::MAX` bytes.
#[verifier::external_body]
pub(crate) fn string_push(s: &mut String, ch: char)
    ensures
        final(s)@ == old(s)@.push(ch),
        utf8_len(final(s)@) <= isize::MAX,
{
    s.push(ch)
}

} // verus!
