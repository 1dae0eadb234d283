//! Integer parsing with the semantics of `from_str_radix`: an optional sign
//! (a `-` only where negative values are allowed) followed by digits of the
//! radix, scanned left to right; the first problem met decides the error.
use crate::text::{decimal_text, digit_char, hex_text, signed_decimal_text};
use vstd::prelude::*;

verus! {

/// Why a text is not an integer of the requested range.
#[derive(Clone, Copy, Debug, PartialEq, Eq, Structural)]
pub enum IntErrorKind {
    Empty,
    InvalidDigit,
    PosOverflow,
    NegOverflow,
}

/// The value of `c` as a digit of `radix`, if it is one (`char::to_digit`).
pub open spec fn digit_value(c: char, radix: nat) -> Option<nat> {
    let u = c as int;
    let v: int = if '0' as int <= u <= '9' as int {
        u - '0' as int
    } else if 'a' as int <= u <= 'z' as int {
        u - 'a' as int + 10
    } else if 'A' as int <= u <= 'Z' as int {
        u - 'A' as int + 10
    } else {
        36
    };
    if v < radix {
        Some(v as nat)
    } else {
        None
    }
}

/// Scans `digits` onto the accumulated value `acc`, adding (or, for a negative
/// number, subtracting) each digit after multiplying by the radix.
pub open spec fn scan_digits(
    digits: Seq<char>,
    radix: nat,
    negative: bool,
    acc: int,
    lo: int,
    hi: int,
) -> Result<int, IntErrorKind>
    decreases digits.len(),
{
    if digits.len() == 0 {
        Ok(acc)
    } else {
        match digit_value(digits[0], radix) {
            None => Err(IntErrorKind::InvalidDigit),
            Some(d) => {
                let next = if negative {
                    acc * radix - d
                } else {
                    acc * radix + d
                };
                if next > hi {
                    Err(IntErrorKind::PosOverflow)
                } else if next < lo {
                    Err(IntErrorKind::NegOverflow)
                } else {
                    scan_digits(digits.drop_first(), radix, negative, next, lo, hi)
                }
            },
        }
    }
}

/// The integer that `s` denotes in `radix` within `lo..=hi`, or why there is none.
/// A leading `-` is a sign only when `lo` is negative.
pub open spec fn int_from_str_radix(s: Seq<char>, radix: nat, lo: int, hi: int) -> Result<
    int,
    IntErrorKind,
> {
    if s.len() == 0 {
        Err(IntErrorKind::Empty)
    } else if s.len() == 1 && (s[0] == '+' || s[0] == '-') {
        Err(IntErrorKind::InvalidDigit)
    } else if s[0] == '+' {
        scan_digits(s.drop_first(), radix, false, 0, lo, hi)
    } else if s[0] == '-' && lo < 0 {
        scan_digits(s.drop_first(), radix, true, 0, lo, hi)
    } else {
        scan_digits(s, radix, false, 0, lo, hi)
    }
}

/// `r` and `s` are the same outcome.
pub open spec fn same_int_result(r: Result<i128, IntErrorKind>, s: Result<int, IntErrorKind>) -> bool {
    match r {
        Ok(v) => s == Ok::<int, IntErrorKind>(v as int),
        Err(e) => s == Err::<int, IntErrorKind>(e),
    }
}

/// The value of `c` as a digit of `radix`.
pub fn digit_of(c: char, radix: u32) -> (r: Option<u32>)
    requires
        2 <= radix <= 36,
    ensures
        match digit_value(c, radix as nat) {
            Some(d) => r == Some(d as u32),
            None => r is None,
        },
{
    let u = c as u32;
    let v: u32 = if '0' as u32 <= u && u <= '9' as u32 {
        u - '0' as u32
    } else if 'a' as u32 <= u && u <= 'z' as u32 {
        u - 'a' as u32 + 10
    } else if 'A' as u32 <= u && u <= 'Z' as u32 {
        u - 'A' as u32 + 10
    } else {
        36
    };
    if v < radix {
        Some(v)
    } else {
        None
    }
}

/// Parses `s[start..]` as an integer of `radix` within `lo..=hi`.
pub fn parse_int(s: &Vec<char>, start: usize, radix: u32, lo: i128, hi: i128) -> (r: Result<
    i128,
    IntErrorKind,
>)
    requires
        start <= s.len(),
        2 <= radix <= 36,
        -0x1_0000_0000_0000_0000 <= lo <= 0 <= hi <= 0x1_0000_0000_0000_0000,
    ensures
        same_int_result(
            r,
            int_from_str_radix(s@.subrange(start as int, s@.len() as int), radix as nat, lo as int, hi as int),
        ),
        r matches Ok(v) ==> lo <= v <= hi,
{
    let n = s.len();
    let ghost text = s@.subrange(start as int, n as int);
    if start == n {
        return Err(IntErrorKind::Empty);
    }
    let first = s[start];
    if start + 1 == n && (first == '+' || first == '-') {
        return Err(IntErrorKind::InvalidDigit);
    }
    let mut negative = false;
    let mut i = start;
    if first == '+' {
        i = start + 1;
    } else if first == '-' && lo < 0 {
        negative = true;
        i = start + 1;
    }
    proof {
        assert(text[0] == first);
        if i == start + 1 {
            assert(text.drop_first() =~= s@.subrange(i as int, n as int));
        } else {
            assert(text =~= s@.subrange(i as int, n as int));
        }
    }
    let mut acc: i128 = 0;
    while i < n
        invariant
            start <= i <= n,
            n == s.len(),
            text == s@.subrange(start as int, n as int),
            2 <= radix <= 36,
            -0x1_0000_0000_0000_0000 <= lo <= acc <= hi <= 0x1_0000_0000_0000_0000,
            int_from_str_radix(text, radix as nat, lo as int, hi as int) == scan_digits(
                s@.subrange(i as int, n as int),
                radix as nat,
                negative,
                acc as int,
                lo as int,
                hi as int,
            ),
        decreases n - i,
    {
        let ghost rest = s@.subrange(i as int, n as int);
        let c = s[i];
        assert(rest.len() > 0 && rest[0] == c);
        match digit_of(c, radix) {
            None => {
                assert(scan_digits(rest, radix as nat, negative, acc as int, lo as int, hi as int)
                    == Err::<int, IntErrorKind>(IntErrorKind::InvalidDigit));
                return Err(IntErrorKind::InvalidDigit);
            },
            Some(d) => {
                assert(-0x1_0000_0000_0000_0000 * 36 <= acc * (radix as int) <= 0x1_0000_0000_0000_0000 * 36)
                    by (nonlinear_arith)
                    requires
                        -0x1_0000_0000_0000_0000 <= acc <= 0x1_0000_0000_0000_0000,
                        2 <= radix <= 36,
                ;
                let scaled = acc * (radix as i128);
                let next = if negative {
                    scaled - (d as i128)
                } else {
                    scaled + (d as i128)
                };
                assert(next == if negative {
                    acc * (radix as int) - d
                } else {
                    acc * (radix as int) + d
                });
                if next > hi {
                    return Err(IntErrorKind::PosOverflow);
                }
                if next < lo {
                    return Err(IntErrorKind::NegOverflow);
                }
                assert(rest.drop_first() =~= s@.subrange(i + 1, n as int));
                acc = next;
                i = i + 1;
            },
        }
    }
    Ok(acc)
}

/// The message that the standard library gives for each kind of failure.
pub open spec fn int_error_text(kind: IntErrorKind) -> Seq<char> {
    match kind {
        IntErrorKind::Empty => "cannot parse integer from empty string"@,
        IntErrorKind::InvalidDigit => "invalid digit found in string"@,
        IntErrorKind::PosOverflow => "number too large to fit in target type"@,
        IntErrorKind::NegOverflow => "number too small to fit in target type"@,
    }
}

/// The message for a failed integer parse.
pub fn int_error_message(kind: IntErrorKind) -> (r: String)
    ensures
        r@ == int_error_text(kind),
{
    match kind {
        IntErrorKind::Empty => String::from_str("cannot parse integer from empty string"),
        IntErrorKind::InvalidDigit => String::from_str("invalid digit found in string"),
        IntErrorKind::PosOverflow => String::from_str("number too large to fit in target type"),
        IntErrorKind::NegOverflow => String::from_str("number too small to fit in target type"),
    }
}

// ---------------------------------------------------------------------------
// Reading back what is printed
// ---------------------------------------------------------------------------

/// Scanning `s` followed by one more character is scanning `s`, then that
/// character.
pub(crate) proof fn lemma_scan_push(
    s: Seq<char>,
    c: char,
    radix: nat,
    negative: bool,
    acc: int,
    lo: int,
    hi: int,
)
    ensures
        scan_digits(s.push(c), radix, negative, acc, lo, hi) == match scan_digits(
            s,
            radix,
            negative,
            acc,
            lo,
            hi,
        ) {
            Ok(v) => scan_digits(seq![c], radix, negative, v, lo, hi),
            Err(e) => Err(e),
        },
    decreases s.len(),
{
    if s.len() == 0 {
        assert(s.push(c) =~= seq![c]);
    } else {
        assert(s.push(c).drop_first() =~= s.drop_first().push(c));
        assert(s.push(c)[0] == s[0]);
        match digit_value(s[0], radix) {
            None => {},
            Some(d) => {
                let next = if negative {
                    acc * radix - d
                } else {
                    acc * radix + d
                };
                if lo <= next <= hi {
                    lemma_scan_push(s.drop_first(), c, radix, negative, next, lo, hi);
                }
            },
        }
    }
}

/// Each hexadecimal digit character reads back as its value.
pub(crate) proof fn lemma_digit_char_value(d: nat)
    requires
        d < 16,
    ensures
        digit_value(digit_char(d), 16) == Some(d),
{
    if d < 10 {
        assert((((d + '0' as nat) as char) as int) == d + '0' as int);
    } else {
        assert((((d - 10 + 'a' as nat) as char) as int) == d - 10 + 'a' as int);
    }
}

/// The lower-case hexadecimal text of `n` reads back as `n`.
proof fn lemma_hex_text_reads_back(n: nat, lo: int, hi: int)
    requires
        lo <= 0,
        n <= hi,
    ensures
        scan_digits(hex_text(n), 16, false, 0, lo, hi) == Ok::<int, IntErrorKind>(n as int),
        hex_text(n).len() > 0,
        hex_text(n)[0] != '+' && hex_text(n)[0] != '-',
    decreases n,
{
    if n < 16 {
        lemma_digit_char_value(n);
        assert(hex_text(n) =~= seq![digit_char(n)]);
        assert(seq![digit_char(n)].drop_first() =~= Seq::<char>::empty());
        if n < 10 {
            assert((((n + '0' as nat) as char) as int) == n + '0' as int);
        } else {
            assert((((n - 10 + 'a' as nat) as char) as int) == n - 10 + 'a' as int);
        }
    } else {
        let q = n / 16;
        let d = n % 16;
        lemma_hex_text_reads_back(q, lo, hi);
        lemma_scan_push(hex_text(q), digit_char(d), 16, false, 0, lo, hi);
        lemma_digit_char_value(d);
        assert(seq![digit_char(d)].drop_first() =~= Seq::<char>::empty());
        assert(hex_text(n) == hex_text(q).push(digit_char(d)));
        assert(q * 16 + d == n);
        assert(seq![digit_char(d)][0] == digit_char(d));
        assert(scan_digits(Seq::<char>::empty(), 16, false, n as int, lo, hi) == Ok::<int, IntErrorKind>(n as int));
        assert(scan_digits(seq![digit_char(d)], 16, false, q as int, lo, hi) == Ok::<int, IntErrorKind>(n as int));
        assert(hex_text(n)[0] == hex_text(q)[0]);
    }
}

/// The lower-case hexadecimal text of `n` (as `{:x}` prints it) is read
/// back by `from_str_radix(_, 16)` as `n`, whatever the target range, as long
/// as it holds `n`.
pub proof fn lemma_hex_text_parses(n: nat, lo: int, hi: int)
    requires
        lo <= 0,
        n <= hi,
    ensures
        int_from_str_radix(hex_text(n), 16, lo, hi) == Ok::<int, IntErrorKind>(n as int),
{
    lemma_hex_text_reads_back(n, lo, hi);
    let t = hex_text(n);
    if t.len() == 1 {
        assert(t[0] != '+' && t[0] != '-');
    }
}

/// A decimal digit character.
pub open spec fn is_decimal_char(c: char) -> bool {
    '0' as int <= c as int <= '9' as int
}

/// The decimal text of `n` is made of decimal digits and is read back as `n`
/// (or as `-n`, scanned as the digits of a negative number).
proof fn lemma_decimal_text_reads_back(n: nat, negative: bool, lo: int, hi: int)
    requires
        lo <= 0 <= hi,
        negative ==> lo <= -n,
        !negative ==> n <= hi,
    ensures
        scan_digits(decimal_text(n), 10, negative, 0, lo, hi) == Ok::<int, IntErrorKind>(
            if negative {
                -n
            } else {
                n as int
            },
        ),
        decimal_text(n).len() > 0,
        forall|i: int| 0 <= i < decimal_text(n).len() ==> is_decimal_char(#[trigger] decimal_text(n)[i]),
    decreases n,
{
    let q = n / 10;
    let d = n % 10;
    lemma_digit_char_value(d);
    assert((((d + '0' as nat) as char) as int) == d + '0' as int);
    assert(digit_value(digit_char(d), 10) == Some(d));
    assert(seq![digit_char(d)].drop_first() =~= Seq::<char>::empty());
    assert(seq![digit_char(d)][0] == digit_char(d));
    if n < 10 {
        assert(decimal_text(n) =~= seq![digit_char(n)]);
    } else {
        lemma_decimal_text_reads_back(q, negative, lo, hi);
        let init = decimal_text(q);
        assert(decimal_text(n) == init.push(digit_char(d)));
        lemma_scan_push(init, digit_char(d), 10, negative, 0, lo, hi);
        assert(q * 10 + d == n);
        if negative {
            assert(scan_digits(Seq::<char>::empty(), 10, true, -n, lo, hi) == Ok::<int, IntErrorKind>(-n));
            assert(scan_digits(seq![digit_char(d)], 10, true, -q, lo, hi) == Ok::<int, IntErrorKind>(-n));
        } else {
            assert(scan_digits(Seq::<char>::empty(), 10, false, n as int, lo, hi) == Ok::<int, IntErrorKind>(n as int));
            assert(scan_digits(seq![digit_char(d)], 10, false, q as int, lo, hi) == Ok::<int, IntErrorKind>(n as int));
        }
        assert forall|i: int| 0 <= i < decimal_text(n).len() implies is_decimal_char(#[trigger] decimal_text(n)[i]) by {
            if i < init.len() {
                assert(decimal_text(n)[i] == init[i]);
            }
        }
    }
}

/// The decimal text of `i` (as `{}` prints it, with `-` when negative) is
/// read back by `from_str_radix(_, 10)` as `i`, in every range that holds it.
pub proof fn lemma_signed_decimal_text_parses(i: int, lo: int, hi: int)
    requires
        lo <= 0 <= hi,
        lo <= i <= hi,
    ensures
        int_from_str_radix(signed_decimal_text(i), 10, lo, hi) == Ok::<int, IntErrorKind>(i),
        forall|k: int| 1 <= k < signed_decimal_text(i).len() ==> is_decimal_char(
            #[trigger] signed_decimal_text(i)[k],
        ),
        signed_decimal_text(i)[0] == '-' || is_decimal_char(signed_decimal_text(i)[0]),
{
    let s = signed_decimal_text(i);
    if i < 0 {
        let m = (-i) as nat;
        lemma_decimal_text_reads_back(m, true, lo, hi);
        assert(s.drop_first() =~= decimal_text(m));
        assert forall|k: int| 1 <= k < s.len() implies is_decimal_char(#[trigger] s[k]) by {
            assert(s[k] == decimal_text(m)[k - 1]);
        }
    } else {
        lemma_decimal_text_reads_back(i as nat, false, lo, hi);
        assert(is_decimal_char(s[0]));
    }
}

} // verus!
