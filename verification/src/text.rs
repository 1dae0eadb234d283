//! Character-level helpers shared by the parsers and formatters: trimming,
//! decimal and hexadecimal rendering, and lossy UTF-16 decoding.
use vstd::prelude::*;

verus! {

// ---------------------------------------------------------------------------
// Standard-library calls that vstd leaves unspecified
// ---------------------------------------------------------------------------

/// Appends one character to a string (`String::push`).
#[verifier::external_body]
pub(crate) fn push_char(s: &mut String, c: char)
    ensures
        final(s)@ == old(s)@.push(c),
{
    s.push(c);
}

/// Whether `u` is a Unicode scalar value, that is, the code of a `char`.
pub open spec fn is_scalar_value(u: u32) -> bool {
    u <= 0xD7FF || (0xE000 <= u && u <= 0x10FFFF)
}

/// `char::from_u32`: the character with code `u`, or `None` where `u` is not a
/// Unicode scalar value (a surrogate or above `0x10FFFF`).
#[verifier::external_body]
pub(crate) fn char_from_u32(u: u32) -> (r: Option<char>)
    ensures
        is_scalar_value(u) ==> r == Some(u as char),
        !is_scalar_value(u) ==> r is None,
{
    char::from_u32(u)
}

/// What `{:?}` prints for a string slice: the text quoted and escaped.
pub uninterp spec fn str_debug(s: Seq<char>) -> Seq<char>;

/// What `{:?}` prints for a character: the character quoted and escaped.
pub uninterp spec fn char_debug(c: char) -> Seq<char>;

/// The `Debug` rendering of a string slice (`format!("{:?}", s)`). Its result
/// depends on `s` alone; nothing further about the escaping is stated here.
#[verifier::external_body]
pub(crate) fn debug_str(s: &str) -> (r: String)
    ensures
        r@ == str_debug(s@),
{
    format!("{:?}", s)
}

/// The `Debug` rendering of a character (`format!("{:?}", c)`). Its result
/// depends on `c` alone; nothing further about the escaping is stated here.
#[verifier::external_body]
pub(crate) fn debug_char(c: char) -> (r: String)
    ensures
        r@ == char_debug(c),
{
    format!("{:?}", c)
}

// ---------------------------------------------------------------------------
// From string slices to character vectors
// ---------------------------------------------------------------------------

/// The characters of a string slice, in order.
pub fn chars_of(s: &str) -> (v: Vec<char>)
    ensures
        v@ == s@,
{
    let mut v: Vec<char> = Vec::new();
    for c in it: s.chars()
        invariant
            v@ == it.seq().take(it.index() as int),
    {
        v.push(c);
    }
    v
}

/// Whether two string slices hold the same characters (`str == str`).
pub fn str_eq(a: &str, b: &str) -> (r: bool)
    ensures
        r == (a@ == b@),
{
    let x = chars_of(a);
    let y = chars_of(b);
    if x.len() != y.len() {
        return false;
    }
    let mut i: usize = 0;
    while i < x.len()
        invariant
            x@ == a@,
            y@ == b@,
            x.len() == y.len(),
            i <= x.len(),
            forall|j: int| 0 <= j < i ==> x@[j] == y@[j],
        decreases x.len() - i,
    {
        if x[i] != y[i] {
            return false;
        }
        i = i + 1;
    }
    assert(x@ =~= y@);
    true
}

// ---------------------------------------------------------------------------
// Trimming
// ---------------------------------------------------------------------------

/// `char::is_whitespace`: the characters with the Unicode `White_Space` property.
pub open spec fn is_whitespace(c: char) -> bool {
    let u = c as u32;
    ||| 0x9 <= u <= 0xD
    ||| u == 0x20
    ||| u == 0x85
    ||| u == 0xA0
    ||| u == 0x1680
    ||| 0x2000 <= u <= 0x200A
    ||| u == 0x2028
    ||| u == 0x2029
    ||| u == 0x202F
    ||| u == 0x205F
    ||| u == 0x3000
}

/// `s` without its leading characters that satisfy `p`.
pub open spec fn trim_start_by(s: Seq<char>, p: spec_fn(char) -> bool) -> Seq<char>
    decreases s.len(),
{
    if s.len() > 0 && p(s[0]) {
        trim_start_by(s.drop_first(), p)
    } else {
        s
    }
}

/// `s` without its trailing characters that satisfy `p`.
pub open spec fn trim_end_by(s: Seq<char>, p: spec_fn(char) -> bool) -> Seq<char>
    decreases s.len(),
{
    if s.len() > 0 && p(s.last()) {
        trim_end_by(s.drop_last(), p)
    } else {
        s
    }
}

/// `str::trim`: `s` without leading and trailing whitespace.
pub open spec fn trim_ws(s: Seq<char>) -> Seq<char> {
    trim_end_by(trim_start_by(s, |c: char| is_whitespace(c)), |c: char| is_whitespace(c))
}

/// Whether `c` is whitespace.
pub fn char_is_whitespace(c: char) -> (r: bool)
    ensures
        r == is_whitespace(c),
{
    let u = c as u32;
    (0x9 <= u && u <= 0xD) || u == 0x20 || u == 0x85 || u == 0xA0 || u == 0x1680 || (0x2000 <= u
        && u <= 0x200A) || u == 0x2028 || u == 0x2029 || u == 0x202F || u == 0x205F || u == 0x3000
}

/// Removing a prefix of elements that satisfy `p` does not change where the
/// trimmed text begins.
proof fn lemma_trim_start_skip(s: Seq<char>, i: int, p: spec_fn(char) -> bool)
    requires
        0 <= i <= s.len(),
        forall|k: int| 0 <= k < i ==> p(#[trigger] s[k]),
    ensures
        trim_start_by(s, p) == trim_start_by(s.subrange(i, s.len() as int), p),
    decreases i,
{
    if i > 0 {
        assert(s.drop_first().subrange(i - 1, s.drop_first().len() as int) =~= s.subrange(
            i,
            s.len() as int,
        ));
        assert forall|k: int| 0 <= k < i - 1 implies p(#[trigger] s.drop_first()[k]) by {
            assert(s.drop_first()[k] == s[k + 1]);
        }
        lemma_trim_start_skip(s.drop_first(), i - 1, p);
    } else {
        assert(s.subrange(0, s.len() as int) =~= s);
    }
}

/// Removing a suffix of elements that satisfy `p` does not change where the
/// trimmed text ends.
proof fn lemma_trim_end_skip(s: Seq<char>, j: int, p: spec_fn(char) -> bool)
    requires
        0 <= j <= s.len(),
        forall|k: int| j <= k < s.len() ==> p(#[trigger] s[k]),
    ensures
        trim_end_by(s, p) == trim_end_by(s.subrange(0, j), p),
    decreases s.len() - j,
{
    if j < s.len() {
        assert(s.drop_last().subrange(0, j) =~= s.subrange(0, j));
        lemma_trim_end_skip(s.drop_last(), j, p);
    } else {
        assert(s.subrange(0, j) =~= s);
    }
}

/// The bounds `(a, b)` of `str::trim` applied to `s[from..]`.
pub fn trim_ws_bounds(s: &Vec<char>, from: usize) -> (r: (usize, usize))
    requires
        from <= s.len(),
    ensures
        from <= r.0 <= r.1 <= s.len(),
        s@.subrange(r.0 as int, r.1 as int) == trim_ws(s@.subrange(from as int, s@.len() as int)),
{
    let n = s.len();
    let ghost p = |c: char| is_whitespace(c);
    let ghost whole = s@.subrange(from as int, n as int);
    let mut a = from;
    while a < n && char_is_whitespace(s[a])
        invariant
            from <= a <= n == s.len(),
            forall|k: int| from <= k < a ==> is_whitespace(#[trigger] s@[k]),
        decreases n - a,
    {
        a = a + 1;
    }
    proof {
        assert forall|k: int| 0 <= k < a - from implies p(#[trigger] whole[k]) by {
            assert(whole[k] == s@[from + k]);
        }
        lemma_trim_start_skip(whole, a - from, p);
        assert(whole.subrange(a - from, whole.len() as int) =~= s@.subrange(a as int, n as int));
        if a < n {
            assert(s@.subrange(a as int, n as int)[0] == s@[a as int]);
        }
    }
    let mut b = n;
    while b > a && char_is_whitespace(s[b - 1])
        invariant
            a <= b <= n == s.len(),
            forall|k: int| b <= k < n ==> is_whitespace(#[trigger] s@[k]),
        decreases b - a,
    {
        b = b - 1;
    }
    proof {
        let mid = s@.subrange(a as int, n as int);
        assert forall|k: int| b - a <= k < mid.len() implies p(#[trigger] mid[k]) by {
            assert(mid[k] == s@[a + k]);
        }
        lemma_trim_end_skip(mid, b - a, p);
        assert(mid.subrange(0, b - a) =~= s@.subrange(a as int, b as int));
        if b > a {
            assert(s@.subrange(a as int, b as int).last() == s@[b - 1]);
        }
    }
    (a, b)
}

/// The bounds `(a, b)` of `s[from..to]` with every leading `lead` and then
/// every trailing `trail` removed (`trim_start_matches` and `trim_end_matches`).
pub fn strip_bounds(s: &Vec<char>, from: usize, to: usize, lead: char, trail: char) -> (r: (
    usize,
    usize,
))
    requires
        from <= to <= s.len(),
    ensures
        from <= r.0 <= r.1 <= to,
        s@.subrange(r.0 as int, r.1 as int) == trim_end_by(
            trim_start_by(s@.subrange(from as int, to as int), |c: char| c == lead),
            |c: char| c == trail,
        ),
{
    let ghost p = |c: char| c == lead;
    let ghost q = |c: char| c == trail;
    let ghost whole = s@.subrange(from as int, to as int);
    let mut a = from;
    while a < to && s[a] == lead
        invariant
            from <= a <= to <= s.len(),
            forall|k: int| from <= k < a ==> #[trigger] s@[k] == lead,
        decreases to - a,
    {
        a = a + 1;
    }
    proof {
        assert forall|k: int| 0 <= k < a - from implies p(#[trigger] whole[k]) by {
            assert(whole[k] == s@[from + k]);
        }
        lemma_trim_start_skip(whole, a - from, p);
        assert(whole.subrange(a - from, whole.len() as int) =~= s@.subrange(a as int, to as int));
        if a < to {
            assert(s@.subrange(a as int, to as int)[0] == s@[a as int]);
        }
    }
    let mut b = to;
    while b > a && s[b - 1] == trail
        invariant
            a <= b <= to <= s.len(),
            forall|k: int| b <= k < to ==> #[trigger] s@[k] == trail,
        decreases b - a,
    {
        b = b - 1;
    }
    proof {
        let mid = s@.subrange(a as int, to as int);
        assert forall|k: int| b - a <= k < mid.len() implies q(#[trigger] mid[k]) by {
            assert(mid[k] == s@[a + k]);
        }
        lemma_trim_end_skip(mid, b - a, q);
        assert(mid.subrange(0, b - a) =~= s@.subrange(a as int, b as int));
        if b > a {
            assert(s@.subrange(a as int, b as int).last() == s@[b - 1]);
        }
    }
    (a, b)
}

// ---------------------------------------------------------------------------
// Rendering integers
// ---------------------------------------------------------------------------

/// The digit character for `d` (`0`-`9`, then lower-case `a`-`f`).
pub open spec fn digit_char(d: nat) -> char {
    if d < 10 {
        (d + '0' as nat) as char
    } else {
        (d - 10 + 'a' as nat) as char
    }
}

/// `n` in decimal, without leading zeros.
pub open spec fn decimal_text(n: nat) -> Seq<char>
    decreases n,
{
    if n < 10 {
        seq![digit_char(n)]
    } else {
        decimal_text(n / 10).push(digit_char(n % 10))
    }
}

/// `i` in decimal, with a leading `-` when negative (`Display` of an integer).
pub open spec fn signed_decimal_text(i: int) -> Seq<char> {
    if i < 0 {
        seq!['-'] + decimal_text((-i) as nat)
    } else {
        decimal_text(i as nat)
    }
}

/// `n` in lower-case hexadecimal, without leading zeros (`{:x}`).
pub open spec fn hex_text(n: nat) -> Seq<char>
    decreases n,
{
    if n < 16 {
        seq![digit_char(n)]
    } else {
        hex_text(n / 16).push(digit_char(n % 16))
    }
}

/// The digits of a hexadecimal text are `0`-`9` and `a`-`f`: never an `x`.
pub proof fn lemma_hex_text_has_no_x(n: nat)
    ensures
        forall|i: int| 0 <= i < hex_text(n).len() ==> #[trigger] hex_text(n)[i] != 'x',
    decreases n,
{
    let d = n % 16;
    if d < 10 {
        assert((((d + '0' as nat) as char) as int) == d + '0' as int);
    } else {
        assert((((d - 10 + 'a' as nat) as char) as int) == d - 10 + 'a' as int);
    }
    if n >= 16 {
        lemma_hex_text_has_no_x(n / 16);
        assert forall|i: int| 0 <= i < hex_text(n).len() implies #[trigger] hex_text(n)[i] != 'x' by {
            if i < hex_text(n / 16).len() {
                assert(hex_text(n)[i] == hex_text(n / 16)[i]);
            }
        }
    }
}

/// What `{:x}` prints for an `isize`: the bits of its two's complement.
pub open spec fn isize_hex_text(v: isize) -> Seq<char> {
    hex_text((v as usize) as nat)
}

/// `true` or `false` (`Display` of a `bool`).
pub open spec fn bool_text(b: bool) -> Seq<char> {
    if b {
        "true"@
    } else {
        "false"@
    }
}

/// The character of digit `d`.
pub fn digit_to_char(d: u64) -> (c: char)
    requires
        d < 16,
    ensures
        c == digit_char(d as nat),
{
    if d < 10 {
        ((d as u8) + 48u8) as char
    } else {
        ((d as u8) - 10 + 97u8) as char
    }
}

/// Appends `n` in decimal.
pub fn push_decimal(out: &mut String, n: u64)
    ensures
        final(out)@ == old(out)@ + decimal_text(n as nat),
    decreases n,
{
    if n >= 10 {
        push_decimal(out, n / 10);
    }
    push_char(out, digit_to_char(n % 10));
    proof {
        if n < 10 {
            assert(n % 10 == n);
        }
    }
}

/// Appends `i` in decimal, with a leading `-` when negative.
pub fn push_signed_decimal(out: &mut String, i: i64)
    ensures
        final(out)@ == old(out)@ + signed_decimal_text(i as int),
{
    if i < 0 {
        push_char(out, '-');
        let m: u64 = (0i128 - (i as i128)) as u64;
        push_decimal(out, m);
        assert(out@ =~= old(out)@ + signed_decimal_text(i as int));
    } else {
        push_decimal(out, i as u64);
    }
}

/// Appends `n` in lower-case hexadecimal.
pub fn push_hex(out: &mut String, n: u64)
    ensures
        final(out)@ == old(out)@ + hex_text(n as nat),
    decreases n,
{
    if n >= 16 {
        push_hex(out, n / 16);
    }
    push_char(out, digit_to_char(n % 16));
    proof {
        if n < 16 {
            assert(n % 16 == n);
        }
    }
}

/// Appends the `{:x}` rendering of an `isize`.
pub fn push_isize_hex(out: &mut String, v: isize)
    ensures
        final(out)@ == old(out)@ + isize_hex_text(v),
{
    let bits = v as usize;
    push_hex(out, bits as u64);
}

/// Appends `true` or `false`.
pub fn push_bool(out: &mut String, b: bool)
    ensures
        final(out)@ == old(out)@ + bool_text(b),
{
    if b {
        out.append("true");
    } else {
        out.append("false");
    }
}

// ---------------------------------------------------------------------------
// Lossy UTF-16 decoding
// ---------------------------------------------------------------------------

/// A leading (high) surrogate code unit.
pub open spec fn is_high_surrogate(u: u16) -> bool {
    0xD800 <= u <= 0xDBFF
}

/// A trailing (low) surrogate code unit.
pub open spec fn is_low_surrogate(u: u16) -> bool {
    0xDC00 <= u <= 0xDFFF
}

/// The code point of a surrogate pair.
pub open spec fn pair_code(hi: u16, lo: u16) -> int {
    0x10000 + (hi - 0xD800) * 0x400 + (lo - 0xDC00)
}

/// `String::from_utf16_lossy`: each well-formed unit or surrogate pair becomes
/// its character, and each unpaired surrogate becomes U+FFFD.
pub open spec fn utf16_lossy(units: Seq<u16>) -> Seq<char>
    decreases units.len(),
{
    if units.len() == 0 {
        seq![]
    } else if units.len() > 1 && is_high_surrogate(units[0]) && is_low_surrogate(units[1]) {
        seq![pair_code(units[0], units[1]) as char] + utf16_lossy(units.skip(2))
    } else if is_high_surrogate(units[0]) || is_low_surrogate(units[0]) {
        seq!['\u{FFFD}'] + utf16_lossy(units.drop_first())
    } else {
        seq![units[0] as char] + utf16_lossy(units.drop_first())
    }
}

/// Decodes `units[..len]` as UTF-16, replacing unpaired surrogates with U+FFFD.
pub fn decode_utf16_lossy(units: &Vec<u16>, len: usize) -> (r: String)
    requires
        len <= units.len(),
    ensures
        r@ == utf16_lossy(units@.subrange(0, len as int)),
{
    let mut r = String::new();
    let ghost whole = units@.subrange(0, len as int);
    let mut i: usize = 0;
    while i < len
        invariant
            i <= len <= units.len(),
            whole == units@.subrange(0, len as int),
            utf16_lossy(whole) == r@ + utf16_lossy(units@.subrange(i as int, len as int)),
        decreases len - i,
    {
        let ghost rest = units@.subrange(i as int, len as int);
        let u = units[i];
        assert(rest[0] == u);
        if i + 1 < len && 0xD800 <= u && u <= 0xDBFF && 0xDC00 <= units[i + 1] && units[i + 1]
            <= 0xDFFF {
            let lo = units[i + 1];
            assert(rest[1] == lo);
            let code: u32 = 0x10000 + ((u as u32) - 0xD800) * 0x400 + ((lo as u32) - 0xDC00);
            assert(code == pair_code(u, lo));
            let c = char_from_u32(code);
            match c {
                Some(ch) => push_char(&mut r, ch),
                None => {},
            }
            assert(rest.skip(2) =~= units@.subrange(i + 2, len as int));
            i = i + 2;
        } else if 0xD800 <= u && u <= 0xDFFF {
            push_char(&mut r, '\u{FFFD}');
            assert(rest.drop_first() =~= units@.subrange(i + 1, len as int));
            i = i + 1;
        } else {
            let c = char_from_u32(u as u32);
            match c {
                Some(ch) => push_char(&mut r, ch),
                None => {},
            }
            assert(rest.drop_first() =~= units@.subrange(i + 1, len as int));
            i = i + 1;
        }
    }
    assert(units@.subrange(len as int, len as int) =~= Seq::<u16>::empty());
    r
}

// ---------------------------------------------------------------------------
// Prefixes
// ---------------------------------------------------------------------------

/// `s` with every leading repetition of `0x` removed (`trim_start_matches("0x")`).
pub open spec fn strip_hex_prefixes(s: Seq<char>) -> Seq<char>
    decreases s.len(),
{
    if s.len() >= 2 && s[0] == '0' && s[1] == 'x' {
        strip_hex_prefixes(s.skip(2))
    } else {
        s
    }
}

/// Where `s[from..]` begins once every leading `0x` is removed.
pub fn skip_hex_prefixes(s: &Vec<char>, from: usize) -> (r: usize)
    requires
        from <= s.len(),
    ensures
        from <= r <= s.len(),
        s@.subrange(r as int, s@.len() as int) == strip_hex_prefixes(
            s@.subrange(from as int, s@.len() as int),
        ),
{
    let n = s.len();
    let mut i = from;
    while i < n && n - i >= 2 && s[i] == '0' && s[i + 1] == 'x'
        invariant
            from <= i <= n == s.len(),
            strip_hex_prefixes(s@.subrange(from as int, n as int)) == strip_hex_prefixes(
                s@.subrange(i as int, n as int),
            ),
        decreases n - i,
    {
        let ghost rest = s@.subrange(i as int, n as int);
        assert(rest[0] == s@[i as int] && rest[1] == s@[i + 1]);
        assert(rest.skip(2) =~= s@.subrange(i + 2, n as int));
        i = i + 2;
    }
    proof {
        let rest = s@.subrange(i as int, n as int);
        if rest.len() >= 2 {
            assert(rest[0] == s@[i as int] && rest[1] == s@[i + 1]);
        }
    }
    i
}

/// Whether `s` begins with `0x` or `0X`.
pub open spec fn has_hex_prefix(s: Seq<char>) -> bool {
    s.len() >= 2 && s[0] == '0' && (s[1] == 'x' || s[1] == 'X')
}

/// Whether `s` begins with `0x` or `0X`.
pub fn starts_with_hex_prefix(s: &Vec<char>) -> (r: bool)
    ensures
        r == has_hex_prefix(s@),
{
    s.len() >= 2 && s[0] == '0' && (s[1] == 'x' || s[1] == 'X')
}

} // verus!
