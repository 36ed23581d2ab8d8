//! ASCII classification of wide characters, with the calling convention the
//! parser engine expects: a nonzero `i32` means true.
use vstd::prelude::*;

verus! {

/// Space, horizontal tab or line feed.
pub open spec fn is_space_point(c: u32) -> bool {
    c == 0x20 || c == 0x09 || c == 0x0A
}

/// A decimal digit, `'0'` to `'9'`.
pub open spec fn is_digit_point(c: u32) -> bool {
    0x30 <= c <= 0x39
}

/// An ASCII letter, lower or upper case.
pub open spec fn is_letter_point(c: u32) -> bool {
    (0x61 <= c <= 0x7A) || (0x41 <= c <= 0x5A)
}

/// A decimal digit or an ASCII letter.
pub open spec fn is_alnum_point(c: u32) -> bool {
    is_digit_point(c) || is_letter_point(c)
}

/// The `i32` with which a predicate answers.
pub open spec fn flag(b: bool) -> i32 {
    if b { 1 } else { 0 }
}

/// Whether `wc` is whitespace: space, tab or newline. Any other code point,
/// inside ASCII or not, is not.
pub fn iswspace(wc: u32) -> (r: i32)
    ensures
        r == flag(is_space_point(wc)),
        (r != 0) <==> is_space_point(wc),
{
    if wc == ' ' as u32 || wc == '\t' as u32 || wc == '\n' as u32 {
        1
    } else {
        0
    }
}

/// Whether `wc` is a decimal digit.
pub fn iswdigit(wc: u32) -> (r: i32)
    ensures
        r == flag(is_digit_point(wc)),
        (r != 0) <==> is_digit_point(wc),
{
    if wc >= '0' as u32 && wc <= '9' as u32 {
        1
    } else {
        0
    }
}

/// Whether `wc` is a decimal digit or an ASCII letter of either case.
pub fn iswalnum(wc: u32) -> (r: i32)
    ensures
        r == flag(is_alnum_point(wc)),
        (r != 0) <==> is_alnum_point(wc),
{
    if (wc >= '0' as u32 && wc <= '9' as u32) || (wc >= 'a' as u32 && wc <= 'z' as u32) || (wc
        >= 'A' as u32 && wc <= 'Z' as u32) {
        1
    } else {
        0
    }
}

} // verus!
