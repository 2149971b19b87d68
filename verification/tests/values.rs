use mujina_miner::text::decimal_string;
use mujina_miner::values::{
    normalized_word, parse_bool, parse_decimal, parse_optional_u32, parse_u16_auto, parse_u32_auto,
    ValueError,
};

#[test]
fn parse_bool_ignores_case_and_surrounding_whitespace() {
    assert_eq!(parse_bool("  On\t"), Ok(true));
    assert_eq!(parse_bool("No\n"), Ok(false));
    assert_eq!(parse_bool("TRUE"), Ok(true));
    assert_eq!(parse_bool("yes"), Ok(true));
    assert_eq!(parse_bool("OFF"), Ok(false));
    assert_eq!(parse_bool("\u{3000}false\u{a0}"), Ok(false));
    assert_eq!(parse_bool(""), Err(ValueError::NotABoolean));
    assert_eq!(parse_bool("2"), Err(ValueError::NotABoolean));
    assert_eq!(parse_bool("t rue"), Err(ValueError::NotABoolean));
    assert_eq!(parse_bool("enabled"), Err(ValueError::NotABoolean));
}

#[test]
fn normalized_word_trims_and_lowers() {
    let w: String = normalized_word("  MaYbE ").into_iter().collect();
    assert_eq!(w, "maybe");
    let w: String = normalized_word("ÄBC").into_iter().collect();
    assert_eq!(w, "Äbc");
}

#[test]
fn parse_u32_auto_reads_decimal_and_hex() {
    assert_eq!(parse_u32_auto("437"), Ok(437));
    assert_eq!(parse_u32_auto(" 0x00001446 "), Ok(0x1446));
    assert_eq!(parse_u32_auto("0XfF"), Ok(255));
    assert_eq!(parse_u32_auto("0x+10"), Ok(16));
    assert_eq!(parse_u32_auto("+12"), Ok(12));
    assert_eq!(parse_u32_auto("4294967295"), Ok(u32::MAX));
    assert_eq!(parse_u32_auto("0xffffffff"), Ok(u32::MAX));
    assert_eq!(parse_u32_auto("0"), Ok(0));
    assert_eq!(parse_u32_auto("012"), Ok(12));
}

#[test]
fn parse_u32_auto_refusals() {
    assert_eq!(parse_u32_auto(""), Err(ValueError::Empty));
    assert_eq!(parse_u32_auto("   "), Err(ValueError::Empty));
    assert_eq!(parse_u32_auto("0x"), Err(ValueError::Empty));
    assert_eq!(parse_u32_auto("+"), Err(ValueError::InvalidDigit));
    assert_eq!(parse_u32_auto("-1"), Err(ValueError::InvalidDigit));
    assert_eq!(parse_u32_auto("12a"), Err(ValueError::InvalidDigit));
    assert_eq!(parse_u32_auto("0x1g"), Err(ValueError::InvalidDigit));
    assert_eq!(parse_u32_auto("+0x10"), Err(ValueError::InvalidDigit));
    assert_eq!(parse_u32_auto("4294967296"), Err(ValueError::Overflow));
    assert_eq!(parse_u32_auto("0x100000000"), Err(ValueError::Overflow));
    assert_eq!(parse_u32_auto("99999999999x"), Err(ValueError::Overflow));
}

#[test]
fn parse_u32_auto_agrees_with_std() {
    for s in ["0", "17", "+17", "-17", "", "+", "4294967295", "4294967296", "1_000", "٣"] {
        let ours = parse_u32_auto(s);
        let std_result = s.trim().parse::<u32>();
        assert_eq!(ours.is_ok(), std_result.is_ok(), "{s:?}");
        if let Ok(v) = std_result {
            assert_eq!(ours, Ok(v));
        }
    }
    for s in ["ff", "+ff", "FFFFFFFF", "100000000", "g", ""] {
        let ours = parse_u32_auto(&format!("0x{s}"));
        let std_result = u32::from_str_radix(s, 16);
        assert_eq!(ours.is_ok(), std_result.is_ok(), "{s:?}");
        if let Ok(v) = std_result {
            assert_eq!(ours, Ok(v));
        }
    }
}

#[test]
fn parse_u16_auto_refuses_wide_values() {
    assert_eq!(parse_u16_auto("0x10"), Ok(0x10));
    assert_eq!(parse_u16_auto("65535"), Ok(u16::MAX));
    assert_eq!(parse_u16_auto("65536"), Err(ValueError::OutOfRange));
    assert_eq!(parse_u16_auto("0x10000"), Err(ValueError::OutOfRange));
    assert_eq!(parse_u16_auto("zz"), Err(ValueError::InvalidDigit));
}

#[test]
fn parse_decimal_is_strict_like_str_parse() {
    assert_eq!(parse_decimal("115200", u32::MAX as u64), Ok(115_200));
    assert_eq!(parse_decimal("+3000000", u32::MAX as u64), Ok(3_000_000));
    assert_eq!(parse_decimal(" 1", u32::MAX as u64), Err(ValueError::InvalidDigit));
    assert_eq!(parse_decimal("0x10", u32::MAX as u64), Err(ValueError::InvalidDigit));
    assert_eq!(parse_decimal("", u64::MAX), Err(ValueError::Empty));
    assert_eq!(parse_decimal("18446744073709551615", u64::MAX), Ok(u64::MAX));
    assert_eq!(parse_decimal("18446744073709551616", u64::MAX), Err(ValueError::Overflow));
    assert_eq!(parse_decimal("256", 255), Err(ValueError::Overflow));
}

#[test]
fn parse_optional_u32_switches_off() {
    assert_eq!(parse_optional_u32(""), Ok(None));
    assert_eq!(parse_optional_u32("  "), Ok(None));
    assert_eq!(parse_optional_u32("None"), Ok(None));
    assert_eq!(parse_optional_u32(" DISABLE "), Ok(None));
    assert_eq!(parse_optional_u32("disabled"), Ok(None));
    assert_eq!(parse_optional_u32(" 437 "), Ok(Some(437)));
    assert_eq!(parse_optional_u32("0x1c8"), Ok(Some(456)));
    assert_eq!(parse_optional_u32("off"), Err(ValueError::InvalidDigit));
}

#[test]
fn decimal_rendering_reads_back() {
    for n in [0u32, 7, 10, 99, 437, 456, 65535, 1_000_000, u32::MAX] {
        let text = decimal_string(n as u64);
        assert_eq!(text, n.to_string());
        assert_eq!(parse_u32_auto(&text), Ok(n));
        assert_eq!(parse_decimal(&text, u32::MAX as u64), Ok(n as u64));
    }
    assert_eq!(decimal_string(u64::MAX), u64::MAX.to_string());
}
