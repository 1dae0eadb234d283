use via_engine::cli::{parse_hwnd, parse_i32_arg, parse_key_arg};
use via_engine::guid::{parse_guid, Guid};
use via_engine::number::{int_error_message, parse_int, IntErrorKind};
use via_engine::text::chars_of;

fn kind_of(e: &std::num::ParseIntError) -> IntErrorKind {
    match e.kind() {
        std::num::IntErrorKind::Empty => IntErrorKind::Empty,
        std::num::IntErrorKind::InvalidDigit => IntErrorKind::InvalidDigit,
        std::num::IntErrorKind::PosOverflow => IntErrorKind::PosOverflow,
        std::num::IntErrorKind::NegOverflow => IntErrorKind::NegOverflow,
        _ => panic!("unexpected kind"),
    }
}

fn samples() -> Vec<&'static str> {
    vec![
        "", "+", "-", "0", "00", "+0", "-0", "1", "+1", "-1", "ff", "FF", "fF", "+ff", "-ff", "10",
        "7fffffff", "80000000", "ffffffff", "100000000", "-80000000", "-80000001", "7fff", "8000",
        "ffff", "10000", "12z", "z12", " 1", "1 ", "0x10", "++1", "+-1", "--1", "é", "1é",
        "9223372036854775807", "9223372036854775808", "-9223372036854775808",
        "-9223372036854775809", "18446744073709551615", "18446744073709551616",
        "7fffffffffffffff", "8000000000000000", "ffffffffffffffffz", "0000000000000000000001",
        "2147483647", "2147483648", "-2147483648", "-2147483649", "65535", "65536", "255", "256",
    ]
}

fn check_radix(radix: u32) {
    for s in samples() {
        let chars = chars_of(s);
        let mine = parse_int(&chars, 0, radix, i32::MIN as i128, i32::MAX as i128);
        match i32::from_str_radix(s, radix) {
            Ok(v) => assert_eq!(mine, Ok(v as i128), "i32 {:?} radix {}", s, radix),
            Err(e) => assert_eq!(mine, Err(kind_of(&e)), "i32 {:?} radix {}", s, radix),
        }
        let mine = parse_int(&chars, 0, radix, 0, u32::MAX as i128);
        match u32::from_str_radix(s, radix) {
            Ok(v) => assert_eq!(mine, Ok(v as i128), "u32 {:?} radix {}", s, radix),
            Err(e) => assert_eq!(mine, Err(kind_of(&e)), "u32 {:?} radix {}", s, radix),
        }
        let mine = parse_int(&chars, 0, radix, i64::MIN as i128, i64::MAX as i128);
        match i64::from_str_radix(s, radix) {
            Ok(v) => assert_eq!(mine, Ok(v as i128), "i64 {:?} radix {}", s, radix),
            Err(e) => assert_eq!(mine, Err(kind_of(&e)), "i64 {:?} radix {}", s, radix),
        }
        let mine = parse_int(&chars, 0, radix, 0, u64::MAX as i128);
        match u64::from_str_radix(s, radix) {
            Ok(v) => assert_eq!(mine, Ok(v as i128), "u64 {:?} radix {}", s, radix),
            Err(e) => assert_eq!(mine, Err(kind_of(&e)), "u64 {:?} radix {}", s, radix),
        }
        let mine = parse_int(&chars, 0, radix, 0, u8::MAX as i128);
        match u8::from_str_radix(s, radix) {
            Ok(v) => assert_eq!(mine, Ok(v as i128), "u8 {:?} radix {}", s, radix),
            Err(e) => assert_eq!(mine, Err(kind_of(&e)), "u8 {:?} radix {}", s, radix),
        }
    }
}

#[test]
fn parse_int_matches_std_hex() {
    check_radix(16);
}

#[test]
fn parse_int_matches_std_decimal() {
    check_radix(10);
}

#[test]
fn parse_int_starts_at_offset() {
    let chars = chars_of("0x1f");
    assert_eq!(parse_int(&chars, 2, 16, 0, 255), Ok(31));
    assert_eq!(parse_int(&chars, 4, 16, 0, 255), Err(IntErrorKind::Empty));
}

#[test]
fn error_messages_match_std() {
    let cases = ["", "x", "99999999999", "-99999999999"];
    let kinds = [
        IntErrorKind::Empty,
        IntErrorKind::InvalidDigit,
        IntErrorKind::PosOverflow,
        IntErrorKind::NegOverflow,
    ];
    for (s, k) in cases.iter().zip(kinds.iter()) {
        let e = s.parse::<i32>().unwrap_err();
        assert_eq!(int_error_message(*k), e.to_string());
    }
}

/// The parser of the engine, written with the standard library, to compare with.
fn reference_guid(s: &str) -> Option<Guid> {
    let s = s.trim().trim_start_matches('{').trim_end_matches('}');
    let parts: Vec<&str> = s.split('-').collect();
    if parts.len() != 5 {
        return None;
    }
    let data1 = u32::from_str_radix(parts[0], 16).ok()?;
    let data2 = u16::from_str_radix(parts[1], 16).ok()?;
    let data3 = u16::from_str_radix(parts[2], 16).ok()?;
    let combined = format!("{}{}", parts[3], parts[4]);
    let bytes = combined.as_bytes();
    if bytes.len() != 16 {
        return None;
    }
    let mut data4 = [0u8; 8];
    for i in 0..8 {
        let hex = std::str::from_utf8(&bytes[i * 2..i * 2 + 2]).ok()?;
        data4[i] = u8::from_str_radix(hex, 16).ok()?;
    }
    Some(Guid { data1, data2, data3, data4 })
}

#[test]
fn parse_guid_reads_the_canonical_form() {
    let g = parse_guid("{AA509086-5CA9-4C0C-9B8C-8F6D5A1B9D4E}").unwrap();
    assert_eq!(
        g,
        Guid {
            data1: 0xAA509086,
            data2: 0x5CA9,
            data3: 0x4C0C,
            data4: [0x9B, 0x8C, 0x8F, 0x6D, 0x5A, 0x1B, 0x9D, 0x4E],
        }
    );
    assert_eq!(parse_guid("aa509086-5ca9-4c0c-9b8c-8f6d5a1b9d4e"), Some(g));
    assert_eq!(parse_guid("  {{aa509086-5ca9-4c0c-9b8c-8f6d5a1b9d4e}}\t\n"), Some(g));
}

#[test]
fn parse_guid_matches_reference() {
    let cases = [
        "{AA509086-5CA9-4C0C-9B8C-8F6D5A1B9D4E}",
        "AA509086-5CA9-4C0C-9B8C-8F6D5A1B9D4E",
        "{AA509086-5CA9-4C0C-9B8C8F6D-5A1B9D4E}",
        "{AA509086-5CA9-4C0C-9B8C-8F6D5A1B9D4}",
        "{AA509086-5CA9-4C0C-9B8C-8F6D5A1B9D4EE}",
        "{AA509086-5CA9-4C0C-9B8C}",
        "{AA509086-5CA9-4C0C-9B8C-8F6D-5A1B9D4E}",
        "{1AA509086-5CA9-4C0C-9B8C-8F6D5A1B9D4E}",
        "{+A509086-+CA9-+C0C-+B8C-+F6D5A1B9D4E}",
        "{-A509086-5CA9-4C0C-9B8C-8F6D5A1B9D4E}",
        "{AA509086-5CA9-4C0C-9B8C-8F6D5A1B9D4G}",
        "{AA509086-5CA9-4C0C-9B8C-8F6D5A1B9Dé}",
        "{AA509086-5CA9-4C0C-9B8C-8F6D5A1B9éé}",
        "{AA509086-5CA9-4C0C-9B8C-8F6D5A1B9é}",
        "{AA509086-5CA9-4C0C-éé-8F6D5A1B9D4E}",
        "{0-0-0-0000-000000000000}",
        "{--5CA9-4C0C-9B8C-8F6D5A1B9D4E}",
        "",
        "{}",
        "    ",
        "\u{3000}{0-0-0-0000-000000000000}\u{2028}",
        "x{0-0-0-0000-000000000000}",
    ];
    for c in cases.iter() {
        assert_eq!(parse_guid(c), reference_guid(c), "case {:?}", c);
    }
}

#[test]
fn parse_hwnd_reads_hex_and_decimal() {
    assert_eq!(parse_hwnd("0x1000c"), Ok(0x1000c));
    assert_eq!(parse_hwnd("0X1000C"), Ok(0x1000c));
    assert_eq!(parse_hwnd("268435468"), Ok(268435468));
    assert_eq!(parse_hwnd("-5"), Ok(-5));
    assert_eq!(parse_hwnd("0x"), Err(IntErrorKind::Empty));
    assert_eq!(parse_hwnd("0xzz"), Err(IntErrorKind::InvalidDigit));
    assert_eq!(parse_hwnd("1000c"), Err(IntErrorKind::InvalidDigit));
    assert_eq!(parse_hwnd(""), Err(IntErrorKind::Empty));
    assert_eq!(parse_hwnd("0xffffffffffffffff"), Err(IntErrorKind::PosOverflow));
}

#[test]
fn printed_hwnd_reads_back() {
    for h in [0isize, 1, 0x1000c, 268435468, isize::MAX] {
        assert_eq!(parse_hwnd(&format!("0x{:x}", h)), Ok(h));
    }
}

#[test]
fn parse_key_arg_reads_hex_with_prefixes() {
    assert_eq!(parse_key_arg("0x1B"), 0x1B);
    assert_eq!(parse_key_arg("1b"), 0x1B);
    assert_eq!(parse_key_arg("0x0x41"), 0x41);
    assert_eq!(parse_key_arg("0X41"), 0);
    assert_eq!(parse_key_arg("zz"), 0);
    assert_eq!(parse_key_arg("10000"), 0);
}

#[test]
fn parse_i32_arg_is_decimal() {
    assert_eq!(parse_i32_arg("800"), Ok(800));
    assert_eq!(parse_i32_arg("-20"), Ok(-20));
    assert_eq!(parse_i32_arg("2147483648"), Err(IntErrorKind::PosOverflow));
    assert_eq!(parse_i32_arg("0x10"), Err(IntErrorKind::InvalidDigit));
}

#[test]
fn documented_guid_form_reads_back_with_leading_zeros() {
    let g = Guid { data1: 0xa, data2: 0xb0, data3: 0xc00, data4: [1, 2, 3, 4, 5, 6, 0xab, 0xff] };
    let text = format!(
        "{{{:08x}-{:04x}-{:04x}-{:02x}{:02x}-{:02x}{:02x}{:02x}{:02x}{:02x}{:02x}}}",
        g.data1, g.data2, g.data3, g.data4[0], g.data4[1], g.data4[2], g.data4[3], g.data4[4],
        g.data4[5], g.data4[6], g.data4[7]
    );
    assert_eq!(text, "{0000000a-00b0-0c00-0102-03040506abff}");
    assert_eq!(parse_guid(&text), Some(g));
}

#[test]
fn decimal_handles_read_back() {
    for h in [0isize, 1, -1, 42, -42, 268435468, isize::MIN, isize::MAX] {
        assert_eq!(parse_hwnd(&h.to_string()), Ok(h));
    }
}
