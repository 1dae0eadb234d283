//! Reading the command-line arguments of the `via` tool.
use crate::engine::WindowInfo;
use crate::listing::{push_window_listing, window_listing};
use crate::number::{
    int_from_str_radix, is_decimal_char, lemma_hex_text_parses, lemma_signed_decimal_text_parses,
    parse_int, IntErrorKind,
};
use crate::text::{
    chars_of, has_hex_prefix, hex_text, signed_decimal_text, skip_hex_prefixes, starts_with_hex_prefix,
    strip_hex_prefixes,
};
use vstd::prelude::*;

verus! {

/// The window handle that an argument names: hexadecimal after `0x` or
/// `0X`, decimal otherwise.
pub open spec fn hwnd_arg(s: Seq<char>) -> Result<int, IntErrorKind> {
    if has_hex_prefix(s) {
        int_from_str_radix(s.skip(2), 16, isize::MIN as int, isize::MAX as int)
    } else {
        int_from_str_radix(s, 10, isize::MIN as int, isize::MAX as int)
    }
}

/// `r` is the outcome `s`.
pub open spec fn same_isize_result(r: Result<isize, IntErrorKind>, s: Result<int, IntErrorKind>) -> bool {
    match r {
        Ok(v) => s == Ok::<int, IntErrorKind>(v as int),
        Err(e) => s == Err::<int, IntErrorKind>(e),
    }
}

/// Reads a window handle argument (see [`hwnd_arg`]).
pub fn parse_hwnd(s: &str) -> (r: Result<isize, IntErrorKind>)
    ensures
        same_isize_result(r, hwnd_arg(s@)),
{
    let chars = chars_of(s);
    let start: usize = if starts_with_hex_prefix(&chars) {
        assert(chars@.subrange(2, chars@.len() as int) =~= s@.skip(2));
        2
    } else {
        assert(chars@.subrange(0, chars@.len() as int) =~= s@);
        0
    };
    let radix: u32 = if start == 2 {
        16
    } else {
        10
    };
    match parse_int(&chars, start, radix, isize::MIN as i128, isize::MAX as i128) {
        Ok(v) => Ok(v as isize),
        Err(e) => Err(e),
    }
}

/// Reads a decimal `i32` argument.
pub fn parse_i32_arg(s: &str) -> (r: Result<i32, IntErrorKind>)
    ensures
        match r {
            Ok(v) => int_from_str_radix(s@, 10, i32::MIN as int, i32::MAX as int) == Ok::<
                int,
                IntErrorKind,
            >(v as int),
            Err(e) => int_from_str_radix(s@, 10, i32::MIN as int, i32::MAX as int) == Err::<
                int,
                IntErrorKind,
            >(e),
        },
{
    let chars = chars_of(s);
    assert(chars@.subrange(0, chars@.len() as int) =~= s@);
    match parse_int(&chars, 0, 10, i32::MIN as i128, i32::MAX as i128) {
        Ok(v) => Ok(v as i32),
        Err(e) => Err(e),
    }
}

/// The key code an argument names: hexadecimal digits after any number of
/// leading `0x`, or 0 when they do not form a `u16`.
pub open spec fn key_arg(s: Seq<char>) -> u16 {
    match int_from_str_radix(strip_hex_prefixes(s), 16, 0, u16::MAX as int) {
        Ok(v) => v as u16,
        Err(_) => 0,
    }
}

/// Reads a key code argument (see [`key_arg`]).
pub fn parse_key_arg(s: &str) -> (r: u16)
    ensures
        r == key_arg(s@),
{
    let chars = chars_of(s);
    let start = skip_hex_prefixes(&chars, 0);
    assert(chars@.subrange(0, chars@.len() as int) =~= s@);
    match parse_int(&chars, start, 16, 0, u16::MAX as i128) {
        Ok(v) => v as u16,
        Err(_) => 0,
    }
}

/// The line that lists window `w` in the tool's `windows` listing.
pub open spec fn window_row(w: WindowInfo) -> Seq<char> {
    window_listing(w, " visible="@, " rect="@, " "@)
}

/// Writes the line that lists window `w` (see [`window_row`]).
pub fn window_row_text(w: &WindowInfo) -> (r: String)
    ensures
        r@ == window_row(*w),
{
    let mut out = String::new();
    push_window_listing(&mut out, w, " visible=", " rect=", " ");
    assert(out@ =~= window_row(*w));
    out
}

// ---------------------------------------------------------------------------
// Reading back what is printed
// ---------------------------------------------------------------------------

/// A window handle printed as `0x` and lower-case hexadecimal, as the
/// command answers print it, reads back as the same handle, for every
/// non-negative handle.
pub proof fn lemma_printed_hwnd_reads_back(h: isize)
    requires
        h >= 0,
    ensures
        hwnd_arg("0x"@ + hex_text(h as nat)) == Ok::<int, IntErrorKind>(h as int),
{
    reveal_strlit("0x");
    let s = "0x"@ + hex_text(h as nat);
    lemma_hex_text_parses(h as nat, isize::MIN as int, isize::MAX as int);
    assert(s.skip(2) =~= hex_text(h as nat));
    assert(has_hex_prefix(s));
}

/// Every window handle printed in decimal (as `{}` prints it, with `-` when
/// negative) reads back as the same handle.
pub proof fn lemma_decimal_hwnd_reads_back(h: isize)
    ensures
        hwnd_arg(signed_decimal_text(h as int)) == Ok::<int, IntErrorKind>(h as int),
{
    let s = signed_decimal_text(h as int);
    lemma_signed_decimal_text_parses(h as int, isize::MIN as int, isize::MAX as int);
    if s.len() >= 2 {
        assert(is_decimal_char(s[1]));
    }
    assert(!has_hex_prefix(s));
}

} // verus!
