//! Parsing of virtual-desktop identifiers written as GUIDs,
//! `{XXXXXXXX-XXXX-XXXX-XXXX-XXXXXXXXXXXX}` with the braces optional.
use crate::number::{
    digit_value, int_from_str_radix, lemma_digit_char_value, lemma_scan_push, parse_int, scan_digits,
    IntErrorKind,
};
use crate::text::{
    chars_of, digit_char, is_whitespace, strip_bounds, trim_end_by, trim_start_by, trim_ws,
    trim_ws_bounds,
};
use vstd::prelude::*;

verus! {

/// A GUID in the layout of the Windows `GUID` structure.
#[derive(Clone, Copy, Debug, PartialEq, Eq)]
pub struct Guid {
    pub data1: u32,
    pub data2: u16,
    pub data3: u16,
    pub data4: [u8; 8],
}

/// `str::split` on one character: the pieces between occurrences of `sep`
/// (one more piece than there are separators).
pub open spec fn split_on(s: Seq<char>, sep: char) -> Seq<Seq<char>>
    decreases s.len(),
{
    if s.len() == 0 {
        seq![Seq::<char>::empty()]
    } else {
        let init = split_on(s.drop_last(), sep);
        if s.last() == sep {
            init.push(Seq::<char>::empty())
        } else {
            init.update(init.len() - 1, init.last().push(s.last()))
        }
    }
}

/// There is always at least one piece.
pub proof fn lemma_split_on_nonempty(s: Seq<char>, sep: char)
    ensures
        split_on(s, sep).len() >= 1,
    decreases s.len(),
{
    if s.len() > 0 {
        lemma_split_on_nonempty(s.drop_last(), sep);
    }
}

/// The text between the braces: trimmed of whitespace, then of every leading
/// `{` and every trailing `}`.
pub open spec fn guid_core(s: Seq<char>) -> Seq<char> {
    trim_end_by(trim_start_by(trim_ws(s), |c: char| c == '{'), |c: char| c == '}')
}

/// A hexadecimal field no greater than `max`, as `from_str_radix(_, 16)` reads it.
pub open spec fn hex_field(s: Seq<char>, max: int) -> Option<int> {
    match int_from_str_radix(s, 16, 0, max) {
        Ok(v) => Some(v),
        Err(_) => None,
    }
}

/// The eight bytes of the last two groups: sixteen ASCII characters read two
/// at a time as hexadecimal bytes.
pub open spec fn node_bytes(tail: Seq<char>) -> Option<Seq<u8>> {
    if tail.len() == 16 && (forall|i: int| 0 <= i < 16 ==> (tail[i] as u32) < 128) && (forall|k: int|
        0 <= k < 8 ==> (#[trigger] hex_field(tail.subrange(2 * k, 2 * k + 2), 255)) is Some) {
        Some(Seq::new(8, |k: int| hex_field(tail.subrange(2 * k, 2 * k + 2), 255)->0 as u8))
    } else {
        None
    }
}

/// The GUID that `s` denotes, if any.
pub open spec fn guid_of(s: Seq<char>) -> Option<(u32, u16, u16, Seq<u8>)> {
    let parts = split_on(guid_core(s), '-');
    if parts.len() != 5 {
        None
    } else {
        match (
            hex_field(parts[0], 0xFFFF_FFFF),
            hex_field(parts[1], 0xFFFF),
            hex_field(parts[2], 0xFFFF),
            node_bytes(parts[3] + parts[4]),
        ) {
            (Some(d1), Some(d2), Some(d3), Some(d4)) => Some((d1 as u32, d2 as u16, d3 as u16, d4)),
            _ => None,
        }
    }
}

/// The pieces of `s[from..to]` split on `sep`.
fn split_pieces(s: &Vec<char>, from: usize, to: usize, sep: char) -> (r: Vec<Vec<char>>)
    requires
        from <= to <= s.len(),
    ensures
        r@.map_values(|p: Vec<char>| p@) == split_on(s@.subrange(from as int, to as int), sep),
{
    let mut done: Vec<Vec<char>> = Vec::new();
    let mut cur: Vec<char> = Vec::new();
    let mut i = from;
    assert(s@.subrange(from as int, from as int) =~= Seq::<char>::empty());
    while i < to
        invariant
            from <= i <= to <= s.len(),
            split_on(s@.subrange(from as int, i as int), sep) == done@.map_values(
                |p: Vec<char>| p@,
            ).push(cur@),
        decreases to - i,
    {
        let c = s[i];
        let ghost prefix = s@.subrange(from as int, i as int);
        let ghost next = s@.subrange(from as int, i + 1);
        assert(next.drop_last() =~= prefix);
        assert(next.last() == c);
        let ghost before = done@.map_values(|p: Vec<char>| p@);
        if c == sep {
            let finished = cur;
            done.push(finished);
            cur = Vec::new();
            assert(done@.map_values(|p: Vec<char>| p@) =~= before.push(finished@));
            assert(split_on(next, sep) =~= before.push(finished@).push(Seq::<char>::empty()));
        } else {
            let ghost old_cur = cur@;
            cur.push(c);
            assert(split_on(next, sep) =~= before.push(cur@));
        }
        i = i + 1;
    }
    let ghost before = done@.map_values(|p: Vec<char>| p@);
    let last = cur;
    done.push(last);
    assert(done@.map_values(|p: Vec<char>| p@) =~= before.push(last@));
    done
}

/// Parses one hexadecimal field no greater than `max`.
fn parse_hex_field(s: &Vec<char>, max: u32) -> (r: Option<u32>)
    ensures
        r matches Some(v) ==> hex_field(s@, max as int) == Some(v as int),
        r is None ==> hex_field(s@, max as int) is None,
{
    let res = parse_int(s, 0, 16, 0, max as i128);
    assert(s@.subrange(0, s@.len() as int) =~= s@);
    match res {
        Ok(v) => Some(v as u32),
        Err(_) => None,
    }
}

/// Parses the sixteen characters of the last two groups as eight bytes.
fn parse_node(tail: &Vec<char>) -> (r: Option<[u8; 8]>)
    ensures
        r matches Some(b) ==> node_bytes(tail@) == Some(b@),
        r is None ==> node_bytes(tail@) is None,
{
    if tail.len() != 16 {
        return None;
    }
    let mut i: usize = 0;
    while i < 16
        invariant
            tail.len() == 16,
            i <= 16,
            forall|j: int| 0 <= j < i ==> (tail@[j] as u32) < 128,
        decreases 16 - i,
    {
        if (tail[i] as u32) >= 128 {
            return None;
        }
        i = i + 1;
    }
    let mut bytes: Vec<u8> = Vec::new();
    let mut k: usize = 0;
    while k < 8
        invariant
            tail.len() == 16,
            k <= 8,
            bytes.len() == k,
            forall|j: int|
                0 <= j < k ==> ((#[trigger] hex_field(tail@.subrange(2 * j, 2 * j + 2), 255)) is Some
                    && bytes@[j] == hex_field(tail@.subrange(2 * j, 2 * j + 2), 255)->0 as u8),
        decreases 8 - k,
    {
        let mut chunk: Vec<char> = Vec::new();
        chunk.push(tail[2 * k]);
        chunk.push(tail[2 * k + 1]);
        assert(chunk@ =~= tail@.subrange(2 * k as int, 2 * k + 2));
        match parse_hex_field(&chunk, 255) {
            Some(v) => {
                bytes.push(v as u8);
            },
            None => {
                return None;
            },
        }
        k = k + 1;
    }
    let out: [u8; 8] = [
        bytes[0],
        bytes[1],
        bytes[2],
        bytes[3],
        bytes[4],
        bytes[5],
        bytes[6],
        bytes[7],
    ];
    proof {
        assert forall|j: int| 0 <= j < 8 implies (#[trigger] hex_field(
            tail@.subrange(2 * j, 2 * j + 2),
            255,
        )) is Some by {}
        assert(out@ =~= Seq::new(
            8,
            |j: int| hex_field(tail@.subrange(2 * j, 2 * j + 2), 255)->0 as u8,
        ));
    }
    Some(out)
}

/// Parses a desktop identifier such as `{AA509086-5CA9-4C0C-9B8C-8F6D5A1B9D4E}`:
/// surrounding whitespace and any number of leading `{` and trailing `}` are
/// ignored, the rest must be five `-`-separated hexadecimal groups, the first
/// three fitting 32, 16 and 16 bits, the last two together sixteen digits.
pub fn parse_guid(s: &str) -> (r: Option<Guid>)
    ensures
        r matches Some(g) ==> guid_of(s@) == Some((g.data1, g.data2, g.data3, g.data4@)),
        r is None ==> guid_of(s@) is None,
{
    let chars = chars_of(s);
    let (a, b) = trim_ws_bounds(&chars, 0);
    assert(chars@.subrange(0, chars@.len() as int) =~= s@);
    let (c, d) = strip_bounds(&chars, a, b, '{', '}');
    let parts = split_pieces(&chars, c, d, '-');
    let ghost views = parts@.map_values(|p: Vec<char>| p@);
    assert(chars@.subrange(c as int, d as int) == guid_core(s@));
    if parts.len() != 5 {
        return None;
    }
    assert(views[0] == parts@[0]@ && views[1] == parts@[1]@ && views[2] == parts@[2]@);
    assert(views[3] == parts@[3]@ && views[4] == parts@[4]@);
    let data1 = parse_hex_field(&parts[0], 0xFFFF_FFFF);
    let data2 = parse_hex_field(&parts[1], 0xFFFF);
    let data3 = parse_hex_field(&parts[2], 0xFFFF);
    let mut tail: Vec<char> = Vec::new();
    let mut i: usize = 0;
    while i < parts[3].len()
        invariant
            parts.len() == 5,
            i <= parts@[3].len(),
            tail@ == parts@[3]@.subrange(0, i as int),
        decreases parts@[3].len() - i,
    {
        tail.push(parts[3][i]);
        assert(tail@ =~= parts@[3]@.subrange(0, i + 1));
        i = i + 1;
    }
    let mut j: usize = 0;
    while j < parts[4].len()
        invariant
            parts.len() == 5,
            i == parts@[3].len(),
            j <= parts@[4].len(),
            tail@ == parts@[3]@ + parts@[4]@.subrange(0, j as int),
        decreases parts@[4].len() - j,
    {
        tail.push(parts[4][j]);
        assert(tail@ =~= parts@[3]@ + parts@[4]@.subrange(0, j + 1));
        j = j + 1;
    }
    assert(parts@[3]@.subrange(0, i as int) =~= parts@[3]@);
    assert(parts@[4]@.subrange(0, j as int) =~= parts@[4]@);
    let node = parse_node(&tail);
    match (data1, data2, data3, node) {
        (Some(d1), Some(d2), Some(d3), Some(d4)) => Some(
            Guid { data1: d1, data2: d2 as u16, data3: d3 as u16, data4: d4 },
        ),
        _ => None,
    }
}

// ---------------------------------------------------------------------------
// The documented form reads back
// ---------------------------------------------------------------------------

/// `16` to the power `w`.
pub open spec fn pow16(w: nat) -> nat
    decreases w,
{
    if w == 0 {
        1
    } else {
        16 * pow16((w - 1) as nat)
    }
}

/// The last `w` hexadecimal digits of `n`, lower case, with leading zeros.
pub open spec fn hex_digits(n: nat, w: nat) -> Seq<char>
    decreases w,
{
    if w == 0 {
        seq![]
    } else {
        hex_digits(n / 16, (w - 1) as nat).push(digit_char(n % 16))
    }
}

/// A lower-case hexadecimal digit character.
pub open spec fn is_hex_char(c: char) -> bool {
    ('0' as int <= c as int <= '9' as int) || ('a' as int <= c as int <= 'f' as int)
}

proof fn lemma_digit_char_is_hex(d: nat)
    requires
        d < 16,
    ensures
        is_hex_char(digit_char(d)),
        digit_value(digit_char(d), 16) == Some(d),
{
    lemma_digit_char_value(d);
    if d < 10 {
        assert((((d + '0' as nat) as char) as int) == d + '0' as int);
    } else {
        assert((((d - 10 + 'a' as nat) as char) as int) == d - 10 + 'a' as int);
    }
}

/// `w` fixed-width digits: their number, their kind, and the value they are
/// read back as.
proof fn lemma_hex_digits(n: nat, w: nat, lo: int, hi: int)
    requires
        w >= 1,
        n < pow16(w),
        lo <= 0,
        n <= hi,
    ensures
        hex_digits(n, w).len() == w,
        forall|i: int| 0 <= i < w ==> is_hex_char(#[trigger] hex_digits(n, w)[i]),
        scan_digits(hex_digits(n, w), 16, false, 0, lo, hi) == Ok::<int, IntErrorKind>(n as int),
    decreases w,
{
    let q = n / 16;
    let d = n % 16;
    lemma_digit_char_is_hex(d);
    if w == 1 {
        assert(pow16(1) == 16 * pow16(0));
        assert(hex_digits(q, 0) =~= Seq::<char>::empty());
        assert(hex_digits(n, w) =~= seq![digit_char(d)]);
        assert(q == 0);
        assert(seq![digit_char(d)].drop_first() =~= Seq::<char>::empty());
    } else {
        assert(q < pow16((w - 1) as nat));
        lemma_hex_digits(q, (w - 1) as nat, lo, hi);
        let init = hex_digits(q, (w - 1) as nat);
        assert(hex_digits(n, w) == init.push(digit_char(d)));
        lemma_scan_push(init, digit_char(d), 16, false, 0, lo, hi);
        assert(seq![digit_char(d)].drop_first() =~= Seq::<char>::empty());
        assert(q * 16 + d == n);
        assert(seq![digit_char(d)][0] == digit_char(d));
        assert(scan_digits(Seq::<char>::empty(), 16, false, n as int, lo, hi) == Ok::<int, IntErrorKind>(n as int));
        assert(scan_digits(seq![digit_char(d)], 16, false, q as int, lo, hi) == Ok::<int, IntErrorKind>(n as int));
        assert forall|i: int| 0 <= i < w implies is_hex_char(#[trigger] hex_digits(n, w)[i]) by {
            if i < w - 1 {
                assert(hex_digits(n, w)[i] == init[i]);
            }
        }
    }
}

/// Fixed-width digits are read back as their value by `from_str_radix`.
proof fn lemma_hex_field_of_digits(n: nat, w: nat, max: int)
    requires
        w >= 1,
        n < pow16(w),
        n <= max,
    ensures
        hex_field(hex_digits(n, w), max) == Some(n as int),
        hex_digits(n, w).len() == w,
        forall|i: int| 0 <= i < w ==> is_hex_char(#[trigger] hex_digits(n, w)[i]),
{
    lemma_hex_digits(n, w, 0, max);
    let t = hex_digits(n, w);
    assert(is_hex_char(t[0]));
}

/// A text without separators is one piece.
pub(crate) proof fn lemma_split_plain(b: Seq<char>, sep: char)
    requires
        forall|i: int| 0 <= i < b.len() ==> #[trigger] b[i] != sep,
    ensures
        split_on(b, sep) == seq![b],
    decreases b.len(),
{
    if b.len() > 0 {
        let init = b.drop_last();
        lemma_split_plain(init, sep);
        assert(b.last() == b[b.len() - 1]);
        assert(init.push(b.last()) =~= b);
    } else {
        assert(b =~= Seq::<char>::empty());
    }
}

/// A separator followed by a text without separators adds that text as one
/// more piece.
pub(crate) proof fn lemma_split_append(a: Seq<char>, b: Seq<char>, sep: char)
    requires
        forall|i: int| 0 <= i < b.len() ==> #[trigger] b[i] != sep,
    ensures
        split_on(a + seq![sep] + b, sep) == split_on(a, sep).push(b),
    decreases b.len(),
{
    let x = a + seq![sep] + b;
    if b.len() == 0 {
        assert(x.drop_last() =~= a);
        assert(x.last() == sep);
        assert(b =~= Seq::<char>::empty());
    } else {
        let init = b.drop_last();
        lemma_split_append(a, init, sep);
        assert(x.drop_last() =~= a + seq![sep] + init);
        assert(x.last() == b[b.len() - 1]);
        assert(init.push(b.last()) =~= b);
        lemma_split_on_nonempty(a, sep);
    }
}

/// The sixteen digits of the last eight bytes, two per byte.
pub open spec fn node_digits(d4: Seq<u8>) -> Seq<char> {
    Seq::new(16, |i: int| if i % 2 == 0 { digit_char((d4[i / 2] / 16) as nat) } else { digit_char((d4[i / 2] % 16) as nat) })
}

/// The documented form of a GUID without its braces:
/// `XXXXXXXX-XXXX-XXXX-XXXX-XXXXXXXXXXXX` in lower-case hexadecimal.
pub open spec fn guid_body(d1: u32, d2: u16, d3: u16, d4: Seq<u8>) -> Seq<char> {
    hex_digits(d1 as nat, 8) + seq!['-'] + hex_digits(d2 as nat, 4) + seq!['-'] + hex_digits(d3 as nat, 4)
        + seq!['-'] + node_digits(d4).take(4) + seq!['-'] + node_digits(d4).skip(4)
}

/// The documented form of a GUID: `{XXXXXXXX-XXXX-XXXX-XXXX-XXXXXXXXXXXX}`.
pub open spec fn guid_text(d1: u32, d2: u16, d3: u16, d4: Seq<u8>) -> Seq<char> {
    seq!['{'] + guid_body(d1, d2, d3, d4) + seq!['}']
}

proof fn lemma_node_digits(d4: Seq<u8>)
    requires
        d4.len() == 8,
    ensures
        forall|i: int| 0 <= i < 16 ==> is_hex_char(#[trigger] node_digits(d4)[i]),
        node_bytes(node_digits(d4)) == Some(d4),
{
    let t = node_digits(d4);
    assert forall|i: int| 0 <= i < 16 implies is_hex_char(#[trigger] t[i]) by {
        lemma_digit_char_is_hex((d4[i / 2] / 16) as nat);
        lemma_digit_char_is_hex((d4[i / 2] % 16) as nat);
    }
    assert forall|i: int| 0 <= i < 16 implies (t[i] as u32) < 128 by {
        assert(is_hex_char(t[i]));
    }
    assert forall|k: int| 0 <= k < 8 implies #[trigger] hex_field(t.subrange(2 * k, 2 * k + 2), 255)
        == Some(d4[k] as int) by {
        let b = d4[k] as nat;
        assert(pow16(2) == 256) by {
            assert(pow16(1) == 16 * pow16(0));
            assert(pow16(2) == 16 * pow16(1));
        }
        lemma_hex_field_of_digits(b, 2, 255);
        assert(hex_digits(b, 2) == hex_digits(b / 16, 1).push(digit_char(b % 16)));
        assert(hex_digits(b / 16, 1) == hex_digits(b / 16 / 16, 0).push(digit_char((b / 16) % 16)));
        assert(hex_digits(b / 16 / 16, 0) =~= Seq::<char>::empty());
        assert((b / 16) % 16 == b / 16);
        assert(t[2 * k] == digit_char(b / 16));
        assert(t[2 * k + 1] == digit_char(b % 16));
        assert(t.subrange(2 * k, 2 * k + 2) =~= hex_digits(b, 2));
    }
    assert(Seq::new(8, |k: int| hex_field(t.subrange(2 * k, 2 * k + 2), 255)->0 as u8) =~= d4);
}

/// A GUID written in the documented form, `{XXXXXXXX-XXXX-XXXX-XXXX-XXXXXXXXXXXX}`
/// (lower-case digits, leading zeros kept), is read back as that GUID.
pub proof fn lemma_documented_form_is_read(d1: u32, d2: u16, d3: u16, d4: Seq<u8>)
    requires
        d4.len() == 8,
    ensures
        guid_of(guid_text(d1, d2, d3, d4)) == Some((d1, d2, d3, d4)),
{
    assert(pow16(1) == 16 * pow16(0));
    assert(pow16(2) == 16 * pow16(1));
    assert(pow16(3) == 16 * pow16(2));
    assert(pow16(4) == 16 * pow16(3));
    assert(pow16(5) == 16 * pow16(4));
    assert(pow16(6) == 16 * pow16(5));
    assert(pow16(7) == 16 * pow16(6));
    assert(pow16(8) == 16 * pow16(7));
    lemma_hex_field_of_digits(d1 as nat, 8, 0xFFFF_FFFF);
    lemma_hex_field_of_digits(d2 as nat, 4, 0xFFFF);
    lemma_hex_field_of_digits(d3 as nat, 4, 0xFFFF);
    lemma_node_digits(d4);
    let p0 = hex_digits(d1 as nat, 8);
    let p1 = hex_digits(d2 as nat, 4);
    let p2 = hex_digits(d3 as nat, 4);
    let node = node_digits(d4);
    let p3 = node.take(4);
    let p4 = node.skip(4);
    assert forall|i: int| 0 <= i < p0.len() implies #[trigger] p0[i] != '-' by {
        assert(is_hex_char(p0[i]));
    }
    assert forall|i: int| 0 <= i < p1.len() implies #[trigger] p1[i] != '-' by {
        assert(is_hex_char(p1[i]));
    }
    assert forall|i: int| 0 <= i < p2.len() implies #[trigger] p2[i] != '-' by {
        assert(is_hex_char(p2[i]));
    }
    assert forall|i: int| 0 <= i < p3.len() implies #[trigger] p3[i] != '-' by {
        assert(is_hex_char(node[i]));
    }
    assert forall|i: int| 0 <= i < p4.len() implies #[trigger] p4[i] != '-' by {
        assert(is_hex_char(node[i + 4]));
    }
    lemma_split_plain(p0, '-');
    lemma_split_append(p0, p1, '-');
    lemma_split_append(p0 + seq!['-'] + p1, p2, '-');
    lemma_split_append(p0 + seq!['-'] + p1 + seq!['-'] + p2, p3, '-');
    lemma_split_append(p0 + seq!['-'] + p1 + seq!['-'] + p2 + seq!['-'] + p3, p4, '-');
    let body = guid_body(d1, d2, d3, d4);
    let parts = split_on(body, '-');
    assert(parts =~= seq![p0, p1, p2, p3, p4]);
    assert(p3 + p4 =~= node);
    // The braces and nothing else are trimmed away.
    let text = guid_text(d1, d2, d3, d4);
    let ws = |c: char| is_whitespace(c);
    assert(body[0] == p0[0]);
    assert(is_hex_char(p0[0]));
    assert(body.last() == node[15]);
    assert(is_hex_char(node[15]));
    assert(text[0] == '{');
    assert(text.last() == '}');
    assert(trim_start_by(text, ws) == text);
    assert(trim_end_by(text, ws) == text);
    assert(trim_ws(text) == text);
    let open_brace = |c: char| c == '{';
    let close_brace = |c: char| c == '}';
    assert(text.drop_first() =~= body + seq!['}']);
    assert((body + seq!['}'])[0] == body[0]);
    assert(trim_start_by(body + seq!['}'], open_brace) == body + seq!['}']);
    assert(trim_start_by(text, open_brace) == body + seq!['}']);
    assert((body + seq!['}']).drop_last() =~= body);
    assert(trim_end_by(body, close_brace) == body);
    assert(trim_end_by(body + seq!['}'], close_brace) == body);
    assert(guid_core(text) == body);
}

} // verus!
