//! Parsing of setting values: booleans in their usual spellings and
//! unsigned integers in decimal or `0x` hexadecimal.
use vstd::prelude::*;

use crate::text::{
    lemma_case_blind, same_but_case, same_letter, lemma_trimmed_ignores_padding, lemma_white_space_set, chars_are, chars_of, decimal, digit_char, is_white, lower_chars, lowered, trim_back,
    trim_chars, trim_front, trimmed,
};

verus! {

/// Why a setting's text was refused.
#[derive(Debug, Clone, Copy, PartialEq, Eq, Structural)]
pub enum ValueError {
    /// No digits at all.
    Empty,
    /// A character that is not a digit of the radix.
    InvalidDigit,
    /// The number does not fit the target integer type.
    Overflow,
    /// The number does not fit a 16-bit address.
    OutOfRange,
    /// Not one of the accepted boolean words.
    NotABoolean,
    /// Not a floating-point number.
    InvalidFloat,
}

/// The value of the digit `c` in any radix up to 36; 36 for a character
/// that is a digit in none.
pub open spec fn digit_val(c: char) -> int {
    let v = c as u32;
    if 0x30 <= v <= 0x39 {
        v - 0x30
    } else if 0x61 <= v <= 0x7a {
        v - 0x61 + 10
    } else if 0x41 <= v <= 0x5a {
        v - 0x41 + 10
    } else {
        36
    }
}

/// Reading the digits `s` in `radix` after the value `acc` read so far,
/// refusing a non-digit or a value above `max` at the first place where it
/// shows, as `from_str_radix` does.
pub open spec fn scan_digits(s: Seq<char>, radix: int, max: int, acc: int) -> Result<int, ValueError>
    decreases s.len(),
{
    if s.len() == 0 {
        Ok(acc)
    } else if digit_val(s[0]) >= radix {
        Err(ValueError::InvalidDigit)
    } else if acc * radix + digit_val(s[0]) > max {
        Err(ValueError::Overflow)
    } else {
        scan_digits(s.drop_first(), radix, max, acc * radix + digit_val(s[0]))
    }
}

/// An unsigned integer of at most `max` written in `radix` with an optional
/// leading `+`: what `from_str_radix` (and `str::parse` for radix 10)
/// accepts for an unsigned type.
pub open spec fn spec_parse_unsigned(s: Seq<char>, radix: int, max: int) -> Result<int, ValueError> {
    if s.len() == 0 {
        Err(ValueError::Empty)
    } else if s[0] == '+' {
        if s.len() == 1 {
            Err(ValueError::InvalidDigit)
        } else {
            scan_digits(s.drop_first(), radix, max, 0)
        }
    } else {
        scan_digits(s, radix, max, 0)
    }
}

/// Whether `t` starts with `0x` or `0X`.
pub open spec fn has_hex_prefix(t: Seq<char>) -> bool {
    t.len() >= 2 && t[0] == '0' && (t[1] == 'x' || t[1] == 'X')
}

/// A 32-bit value written in decimal or, after `0x`/`0X`, in hexadecimal,
/// with surrounding whitespace ignored.
pub open spec fn spec_parse_u32_auto(s: Seq<char>) -> Result<int, ValueError> {
    let t = trimmed(s);
    if has_hex_prefix(t) {
        spec_parse_unsigned(t.skip(2), 16, u32::MAX as int)
    } else {
        spec_parse_unsigned(t, 10, u32::MAX as int)
    }
}

/// The word that a setting's text stands for: trimmed, ASCII lower-case.
pub open spec fn normalized(s: Seq<char>) -> Seq<char> {
    lowered(trimmed(s))
}

/// The boolean that the text `s` spells, if any.
pub open spec fn spec_parse_bool(s: Seq<char>) -> Result<bool, ValueError> {
    let w = normalized(s);
    if w == "1"@ || w == "true"@ || w == "yes"@ || w == "on"@ {
        Ok(true)
    } else if w == "0"@ || w == "false"@ || w == "no"@ || w == "off"@ {
        Ok(false)
    } else {
        Err(ValueError::NotABoolean)
    }
}

/// Whether the text `s` switches an optional GPIO off: blank, or one of
/// `none`, `disable`, `disabled` in any ASCII case.
pub open spec fn spec_is_disabled_word(s: Seq<char>) -> bool {
    let t = trimmed(s);
    t.len() == 0 || normalized(s) == "none"@ || normalized(s) == "disable"@ || normalized(s)
        == "disabled"@
}

/// The value of an optional GPIO number written as `s`.
pub open spec fn spec_parse_optional_u32(s: Seq<char>) -> Result<Option<int>, ValueError> {
    if spec_is_disabled_word(s) {
        Ok(None)
    } else {
        match spec_parse_u32_auto(s) {
            Ok(v) => Ok(Some(v)),
            Err(e) => Err(e),
        }
    }
}

/// The value of a digit character, as `digit_val` states it.
fn digit_value(c: char) -> (res: u32)
    ensures
        res == digit_val(c),
{
    let v = c as u32;
    if 0x30 <= v && v <= 0x39 {
        v - 0x30
    } else if 0x61 <= v && v <= 0x7a {
        v - 0x61 + 10
    } else if 0x41 <= v && v <= 0x5a {
        v - 0x41 + 10
    } else {
        36
    }
}

/// Reads the digits `s[from..]` in `radix`, refusing any value above `max`.
fn scan_unsigned(s: &Vec<char>, from: usize, radix: u32, max: u64) -> (res: Result<u64, ValueError>)
    requires
        from <= s.len(),
        2 <= radix <= 36,
    ensures
        res matches Ok(v) ==> scan_digits(s@.skip(from as int), radix as int, max as int, 0) == Ok::<
            int,
            ValueError,
        >(v as int),
        res matches Err(e) ==> scan_digits(s@.skip(from as int), radix as int, max as int, 0)
            == Err::<int, ValueError>(e),
{
    let mut acc: u64 = 0;
    let mut i = from;
    while i < s.len()
        invariant
            from <= i <= s.len(),
            2 <= radix <= 36,
            acc <= max,
            scan_digits(s@.skip(from as int), radix as int, max as int, 0) == scan_digits(
                s@.skip(i as int),
                radix as int,
                max as int,
                acc as int,
            ),
        decreases s.len() - i,
    {
        let d = digit_value(s[i]);
        assert(s@.skip(i as int)[0] == s@[i as int]);
        if d >= radix {
            return Err(ValueError::InvalidDigit);
        }
        assert((acc as int) * (radix as int) <= (u64::MAX as int) * 36) by (nonlinear_arith)
            requires
                acc <= u64::MAX,
                radix <= 36,
        ;
        let next: u128 = (acc as u128) * (radix as u128) + (d as u128);
        if next > max as u128 {
            return Err(ValueError::Overflow);
        }
        assert(s@.skip(i as int).drop_first() =~= s@.skip(i + 1));
        acc = next as u64;
        i += 1;
    }
    assert(s@.skip(i as int).len() == 0);
    Ok(acc)
}

/// Reads an unsigned integer of at most `max` in `radix` from `s[from..]`,
/// with an optional leading `+`, as `from_str_radix` does.
fn parse_unsigned(s: &Vec<char>, from: usize, radix: u32, max: u64) -> (res: Result<u64, ValueError>)
    requires
        from <= s.len(),
        2 <= radix <= 36,
    ensures
        res matches Ok(v) ==> spec_parse_unsigned(s@.skip(from as int), radix as int, max as int)
            == Ok::<int, ValueError>(v as int),
        res matches Err(e) ==> spec_parse_unsigned(s@.skip(from as int), radix as int, max as int)
            == Err::<int, ValueError>(e),
{
    if from == s.len() {
        return Err(ValueError::Empty);
    }
    assert(s@.skip(from as int)[0] == s@[from as int]);
    if s[from] == '+' {
        if from + 1 == s.len() {
            return Err(ValueError::InvalidDigit);
        }
        assert(s@.skip(from as int).drop_first() =~= s@.skip(from + 1));
        scan_unsigned(s, from + 1, radix, max)
    } else {
        scan_unsigned(s, from, radix, max)
    }
}

/// Reads a decimal unsigned integer of at most `max` from `s`, as
/// `str::parse` does for an unsigned type: no surrounding whitespace, an
/// optional leading `+`.
pub fn parse_decimal(s: &str, max: u64) -> (res: Result<u64, ValueError>)
    ensures
        res matches Ok(v) ==> v <= max && spec_parse_unsigned(s@, 10, max as int) == Ok::<
            int,
            ValueError,
        >(v as int),
        res matches Err(e) ==> spec_parse_unsigned(s@, 10, max as int) == Err::<int, ValueError>(e),
{
    let c = chars_of(s);
    assert(c@.skip(0) =~= c@);
    let r = parse_unsigned(&c, 0, 10, max);
    proof {
        if r is Ok {
            lemma_parse_unsigned_bound(s@, 10, max as int);
        }
    }
    r
}

/// Reads a 32-bit value from already trimmed characters.
fn parse_u32_trimmed(t: &Vec<char>) -> (res: Result<u32, ValueError>)
    ensures
        res matches Ok(v) ==> (if has_hex_prefix(t@) {
            spec_parse_unsigned(t@.skip(2), 16, u32::MAX as int)
        } else {
            spec_parse_unsigned(t@, 10, u32::MAX as int)
        }) == Ok::<int, ValueError>(v as int),
        res matches Err(e) ==> (if has_hex_prefix(t@) {
            spec_parse_unsigned(t@.skip(2), 16, u32::MAX as int)
        } else {
            spec_parse_unsigned(t@, 10, u32::MAX as int)
        }) == Err::<int, ValueError>(e),
{
    let hex = t.len() >= 2 && t[0] == '0' && (t[1] == 'x' || t[1] == 'X');
    let r = if hex {
        parse_unsigned(t, 2, 16, 0xffff_ffff)
    } else {
        assert(t@.skip(0) =~= t@);
        parse_unsigned(t, 0, 10, 0xffff_ffff)
    };
    match r {
        Ok(v) => {
            proof {
                if hex {
                    lemma_parse_unsigned_bound(t@.skip(2), 16, u32::MAX as int);
                } else {
                    lemma_parse_unsigned_bound(t@, 10, u32::MAX as int);
                }
            }
            Ok(v as u32)
        },
        Err(e) => Err(e),
    }
}

/// Parses a 32-bit value written in decimal, or in hexadecimal after a
/// `0x`/`0X` prefix, ignoring surrounding whitespace.
pub fn parse_u32_auto(raw: &str) -> (res: Result<u32, ValueError>)
    ensures
        res matches Ok(v) ==> spec_parse_u32_auto(raw@) == Ok::<int, ValueError>(v as int),
        res matches Err(e) ==> spec_parse_u32_auto(raw@) == Err::<int, ValueError>(e),
{
    let c = chars_of(raw);
    let t = trim_chars(&c);
    parse_u32_trimmed(&t)
}

/// Parses a 16-bit value written as `parse_u32_auto` reads it; a value that
/// reads but does not fit 16 bits is out of range.
pub fn parse_u16_auto(raw: &str) -> (res: Result<u16, ValueError>)
    ensures
        res matches Ok(v) ==> spec_parse_u32_auto(raw@) == Ok::<int, ValueError>(v as int),
        res matches Err(e) ==> match spec_parse_u32_auto(raw@) {
            Ok(v) => v > u16::MAX && e == ValueError::OutOfRange,
            Err(e2) => e == e2,
        },
{
    let value = parse_u32_auto(raw)?;
    if value > 0xffff {
        Err(ValueError::OutOfRange)
    } else {
        Ok(value as u16)
    }
}

/// The word that `raw` stands for: trimmed and made ASCII lower-case.
pub fn normalized_word(raw: &str) -> (res: Vec<char>)
    ensures
        res@ == normalized(raw@),
{
    let c = chars_of(raw);
    let t = trim_chars(&c);
    lower_chars(&t)
}

/// Parses a boolean: `1`, `true`, `yes`, `on` and `0`, `false`, `no`, `off`,
/// in any ASCII case, with surrounding whitespace ignored.
pub fn parse_bool(raw: &str) -> (res: Result<bool, ValueError>)
    ensures
        res == spec_parse_bool(raw@),
{
    let w = normalized_word(raw);
    if chars_are(&w, "1") || chars_are(&w, "true") || chars_are(&w, "yes") || chars_are(&w, "on") {
        Ok(true)
    } else if chars_are(&w, "0") || chars_are(&w, "false") || chars_are(&w, "no") || chars_are(
        &w,
        "off",
    ) {
        Ok(false)
    } else {
        Err(ValueError::NotABoolean)
    }
}

/// Parses an optional GPIO number: blank, `none`, `disable` or `disabled`
/// (any ASCII case) turn it off; anything else is read as `parse_u32_auto`
/// reads it.
pub fn parse_optional_u32(raw: &str) -> (res: Result<Option<u32>, ValueError>)
    ensures
        res matches Ok(None) ==> spec_parse_optional_u32(raw@) == Ok::<Option<int>, ValueError>(
            None,
        ),
        res matches Ok(Some(v)) ==> spec_parse_optional_u32(raw@) == Ok::<Option<int>, ValueError>(
            Some(v as int),
        ),
        res matches Err(e) ==> spec_parse_optional_u32(raw@) == Err::<Option<int>, ValueError>(e),
{
    let c = chars_of(raw);
    let t = trim_chars(&c);
    let w = lower_chars(&t);
    if t.len() == 0 || chars_are(&w, "none") || chars_are(&w, "disable") || chars_are(
        &w,
        "disabled",
    ) {
        return Ok(None);
    }
    match parse_u32_trimmed(&t) {
        Ok(v) => Ok(Some(v)),
        Err(e) => Err(e),
    }
}

/// A value that `spec_parse_unsigned` accepts is at most `max`.
pub proof fn lemma_parse_unsigned_bound(s: Seq<char>, radix: int, max: int)
    requires
        spec_parse_unsigned(s, radix, max) is Ok,
        0 <= max,
        radix >= 2,
    ensures
        0 <= spec_parse_unsigned(s, radix, max)->Ok_0 <= max,
{
    if s.len() > 0 && s[0] == '+' {
        lemma_scan_bound(s.drop_first(), radix, max, 0);
    } else {
        lemma_scan_bound(s, radix, max, 0);
    }
}

/// Scanning from an accumulated value within `0..=max` stays within it.
pub proof fn lemma_scan_bound(s: Seq<char>, radix: int, max: int, acc: int)
    requires
        scan_digits(s, radix, max, acc) is Ok,
        0 <= acc <= max,
        radix >= 2,
    ensures
        0 <= scan_digits(s, radix, max, acc)->Ok_0 <= max,
    decreases s.len(),
{
    if s.len() > 0 {
        let next = acc * radix + digit_val(s[0]);
        assert(acc * radix >= 0) by (nonlinear_arith)
            requires
                acc >= 0,
                radix >= 2,
        ;
        assert(digit_val(s[0]) >= 0);
        lemma_scan_bound(s.drop_first(), radix, max, next);
    }
}


/// The number that the digits `s` stand for in `radix`, read after `acc`.
pub open spec fn digits_value(acc: int, s: Seq<char>, radix: int) -> int
    decreases s.len(),
{
    if s.len() == 0 {
        acc
    } else {
        digits_value(acc * radix + digit_val(s[0]), s.drop_first(), radix)
    }
}

/// Whether every character of `s` is a digit of `radix`.
pub open spec fn all_digits(s: Seq<char>, radix: int) -> bool {
    forall|i: int| 0 <= i < s.len() ==> #[trigger] digit_val(s[i]) < radix
}

proof fn lemma_digits_value_grows(acc: int, s: Seq<char>, radix: int)
    requires
        acc >= 0,
        radix >= 1,
    ensures
        digits_value(acc, s, radix) >= acc,
    decreases s.len(),
{
    if s.len() > 0 {
        let next = acc * radix + digit_val(s[0]);
        assert(acc * radix >= acc) by (nonlinear_arith)
            requires
                acc >= 0,
                radix >= 1,
        ;
        lemma_digits_value_grows(next, s.drop_first(), radix);
    }
}

proof fn lemma_scan_digits_value(s: Seq<char>, radix: int, max: int, acc: int)
    requires
        acc >= 0,
        radix >= 2,
        all_digits(s, radix),
        digits_value(acc, s, radix) <= max,
    ensures
        scan_digits(s, radix, max, acc) == Ok::<int, ValueError>(digits_value(acc, s, radix)),
    decreases s.len(),
{
    if s.len() > 0 {
        let next = acc * radix + digit_val(s[0]);
        assert(digit_val(s[0]) < radix);
        assert(acc * radix >= 0) by (nonlinear_arith)
            requires
                acc >= 0,
                radix >= 2,
        ;
        lemma_digits_value_grows(next, s.drop_first(), radix);
        assert forall|i: int| 0 <= i < s.drop_first().len() implies #[trigger] digit_val(
            s.drop_first()[i],
        ) < radix by {
            assert(s.drop_first()[i] == s[i + 1]);
        }
        lemma_scan_digits_value(s.drop_first(), radix, max, next);
    }
}

proof fn lemma_digits_value_push(acc: int, s: Seq<char>, c: char, radix: int)
    ensures
        digits_value(acc, s.push(c), radix) == digits_value(acc, s, radix) * radix + digit_val(c),
    decreases s.len(),
{
    assert(s.push(c)[0] == if s.len() == 0 { c } else { s[0] });
    if s.len() == 0 {
        assert(s.push(c).drop_first() =~= Seq::<char>::empty());
        assert(digits_value(acc * radix + digit_val(c), Seq::<char>::empty(), radix) == acc * radix
            + digit_val(c));
    } else {
        assert(s.push(c).drop_first() =~= s.drop_first().push(c));
        lemma_digits_value_push(acc * radix + digit_val(s[0]), s.drop_first(), c, radix);
    }
}

proof fn lemma_decimal_digits(n: nat)
    ensures
        decimal(n).len() >= 1,
        all_digits(decimal(n), 10),
        forall|i: int| 0 <= i < decimal(n).len() ==> 0x30 <= #[trigger] (decimal(n)[i] as int) <= 0x39,
        digits_value(0, decimal(n), 10) == n,
    decreases n,
{
    if n < 10 {
        let c = digit_char(n as int);
        assert(c as u32 == n + 0x30);
        assert(digit_val(c) == n);
        assert(decimal(n) =~= seq![c]);
        assert(decimal(n).drop_first() =~= Seq::<char>::empty());
        assert(digits_value(0, decimal(n), 10) == digits_value(0 * 10 + digit_val(c), Seq::<char>::empty(), 10));
    } else {
        lemma_decimal_digits(n / 10);
        let c = digit_char((n % 10) as int);
        assert(c as u32 == (n % 10) + 0x30);
        assert(digit_val(c) == n % 10);
        lemma_digits_value_push(0, decimal(n / 10), c, 10);
        assert(decimal(n) == decimal(n / 10).push(c));
        assert((n / 10) * 10 + n % 10 == n);
        assert(digits_value(0, decimal(n), 10) == digits_value(0, decimal(n / 10), 10) * 10 + (n % 10));
        assert forall|i: int| 0 <= i < decimal(n).len() implies 0x30 <= #[trigger] (decimal(n)[i] as int) <= 0x39
            && digit_val(decimal(n)[i]) < 10 by {
            if i < decimal(n / 10).len() {
                assert(decimal(n)[i] == decimal(n / 10)[i]);
            }
        }
    }
}

/// Reading back the decimal rendering of a number gives the number: the
/// text written for a GPIO number is the number again to any reader that
/// parses it the way these settings are parsed.
pub proof fn lemma_decimal_reads_back(n: nat, max: int)
    requires
        n <= max,
    ensures
        spec_parse_unsigned(decimal(n), 10, max) == Ok::<int, ValueError>(n as int),
        n <= u32::MAX ==> spec_parse_u32_auto(decimal(n)) == Ok::<int, ValueError>(n as int),
{
    lemma_decimal_digits(n);
    let d = decimal(n);
    assert(0x30 <= (d[0] as u32) <= 0x39);
    lemma_scan_digits_value(d, 10, max, 0);
    if n <= u32::MAX {
        lemma_scan_digits_value(d, 10, u32::MAX as int, 0);
        assert(!is_white(d[0]));
        assert(trim_front(d) == d);
        assert(!is_white(d.last())) by {
            assert(0x30 <= (d[d.len() - 1] as u32) <= 0x39);
        }
        assert(trimmed(d) == d);
        if d.len() >= 2 {
            assert(0x30 <= (d[1] as u32) <= 0x39);
        }
        assert(!has_hex_prefix(d));
    }
}

/// The hexadecimal digit character of `d` (0..=15), in upper or lower case.
pub open spec fn hex_digit_char(d: int, upper: bool) -> char {
    if d < 10 {
        (d + 0x30) as char
    } else if upper {
        (d - 10 + 0x41) as char
    } else {
        (d - 10 + 0x61) as char
    }
}

/// The hexadecimal rendering of `n`, most significant digit first, without
/// leading zeros, in upper or lower case.
pub open spec fn hex(n: nat, upper: bool) -> Seq<char>
    decreases n,
{
    if n < 16 {
        seq![hex_digit_char(n as int, upper)]
    } else {
        hex(n / 16, upper).push(hex_digit_char((n % 16) as int, upper))
    }
}

/// Whether `c` is an ASCII digit or letter.
pub open spec fn is_ascii_alnum(c: char) -> bool {
    ||| 0x30 <= (c as int) <= 0x39
    ||| 0x41 <= (c as int) <= 0x5a
    ||| 0x61 <= (c as int) <= 0x7a
}

proof fn lemma_hex_digits(n: nat, upper: bool)
    ensures
        hex(n, upper).len() >= 1,
        all_digits(hex(n, upper), 16),
        forall|i: int| 0 <= i < hex(n, upper).len() ==> is_ascii_alnum(#[trigger] hex(n, upper)[i]),
        digits_value(0, hex(n, upper), 16) == n,
    decreases n,
{
    if n < 16 {
        let c = hex_digit_char(n as int, upper);
        assert(digit_val(c) == n);
        assert(hex(n, upper) =~= seq![c]);
        assert(hex(n, upper).drop_first() =~= Seq::<char>::empty());
        assert(digits_value(0, hex(n, upper), 16) == digits_value(
            0 * 16 + digit_val(c),
            Seq::<char>::empty(),
            16,
        ));
    } else {
        lemma_hex_digits(n / 16, upper);
        let c = hex_digit_char((n % 16) as int, upper);
        assert(digit_val(c) == n % 16);
        lemma_digits_value_push(0, hex(n / 16, upper), c, 16);
        assert(hex(n, upper) == hex(n / 16, upper).push(c));
        assert((n / 16) * 16 + n % 16 == n);
        assert(digits_value(0, hex(n, upper), 16) == digits_value(0, hex(n / 16, upper), 16) * 16
            + (n % 16));
        assert forall|i: int| 0 <= i < hex(n, upper).len() implies is_ascii_alnum(
            #[trigger] hex(n, upper)[i],
        ) && digit_val(hex(n, upper)[i]) < 16 by {
            if i < hex(n / 16, upper).len() {
                assert(hex(n, upper)[i] == hex(n / 16, upper)[i]);
            }
        }
    }
}

/// Reading back the hexadecimal rendering of a 32-bit value after `0x` or
/// `0X`, in lower or upper case, gives the value.
pub proof fn lemma_hex_reads_back(n: nat, upper: bool)
    requires
        n <= u32::MAX,
    ensures
        spec_parse_u32_auto("0x"@ + hex(n, upper)) == Ok::<int, ValueError>(n as int),
        spec_parse_u32_auto("0X"@ + hex(n, upper)) == Ok::<int, ValueError>(n as int),
{
    reveal_strlit("0x");
    reveal_strlit("0X");
    lemma_hex_digits(n, upper);
    let h = hex(n, upper);
    lemma_scan_digits_value(h, 16, u32::MAX as int, 0);
    assert(is_ascii_alnum(h[0]));
    assert(is_ascii_alnum(h[h.len() - 1]));
    lemma_hex_prefixed(seq!['0', 'x'], h, n);
    lemma_hex_prefixed(seq!['0', 'X'], h, n);
    assert("0x"@ =~= seq!['0', 'x']);
    assert("0X"@ =~= seq!['0', 'X']);
}

proof fn lemma_hex_prefixed(prefix: Seq<char>, h: Seq<char>, n: nat)
    requires
        prefix.len() == 2,
        prefix[0] == '0',
        prefix[1] == 'x' || prefix[1] == 'X',
        h.len() >= 1,
        is_ascii_alnum(h[0]),
        is_ascii_alnum(h[h.len() - 1]),
        scan_digits(h, 16, u32::MAX as int, 0) == Ok::<int, ValueError>(n as int),
    ensures
        spec_parse_u32_auto(prefix + h) == Ok::<int, ValueError>(n as int),
{
    let t = prefix + h;
    assert(t[0] == '0');
    assert(!is_white(t[0]));
    assert(trim_front(t) == t);
    assert(t.last() == h[h.len() - 1]);
    assert(!is_white(t.last()));
    assert(trim_back(t) == t);
    assert(trimmed(t) == t);
    assert(has_hex_prefix(t));
    assert(t.skip(2) =~= h);
    assert(h[0] != '+');
}

/// The decimal rendering of a number is no word that switches a GPIO off,
/// and reads back as that number.
pub proof fn lemma_decimal_is_a_gpio_number(n: nat)
    requires
        n <= u32::MAX,
    ensures
        !spec_is_disabled_word(decimal(n)),
        spec_parse_optional_u32(decimal(n)) == Ok::<Option<int>, ValueError>(Some(n as int)),
{
    lemma_decimal_reads_back(n, u32::MAX as int);
    lemma_decimal_digits(n);
    let d = decimal(n);
    assert(0x30 <= (d[0] as int) <= 0x39);
    assert(!is_white(d[0]));
    assert(trim_front(d) == d);
    assert(0x30 <= (d[d.len() - 1] as int) <= 0x39);
    assert(!is_white(d.last()));
    assert(trim_back(d) == d);
    assert(trimmed(d) == d);
    let w = normalized(d);
    assert(w[0] == d[0]);
    reveal_strlit("none");
    reveal_strlit("disable");
    reveal_strlit("disabled");
    assert(w != "none"@) by {
        assert("none"@[0] == 'n');
    }
    assert(w != "disable"@) by {
        assert("disable"@[0] == 'd');
    }
    assert(w != "disabled"@) by {
        assert("disabled"@[0] == 'd');
    }
}

/// Whitespace around a setting's text is ignored by every reader that
/// trims: booleans, 32-bit values and optional GPIO numbers read the same
/// with or without a whitespace character on each side.
pub proof fn lemma_padding_ignored(w: Seq<char>, a: char, b: char)
    requires
        is_white(a),
        is_white(b),
    ensures
        spec_parse_bool(seq![a] + w + seq![b]) == spec_parse_bool(w),
        spec_parse_u32_auto(seq![a] + w + seq![b]) == spec_parse_u32_auto(w),
        spec_parse_optional_u32(seq![a] + w + seq![b]) == spec_parse_optional_u32(w),
{
    lemma_trimmed_ignores_padding(w, a, b);
}

/// A value that ends in a carriage return or a line feed (as read from a
/// file with CRLF or LF line ends), or that is indented with a tab or a
/// space, reads as the value without it.
pub proof fn lemma_line_ends_ignored(w: Seq<char>)
    ensures
        spec_parse_bool(seq![' '] + w + seq!['\r']) == spec_parse_bool(w),
        spec_parse_bool(seq!['\t'] + w + seq!['\n']) == spec_parse_bool(w),
        spec_parse_u32_auto(seq![' '] + w + seq!['\r']) == spec_parse_u32_auto(w),
        spec_parse_u32_auto(seq!['\t'] + w + seq!['\n']) == spec_parse_u32_auto(w),
        spec_parse_optional_u32(seq![' '] + w + seq!['\r']) == spec_parse_optional_u32(w),
{
    lemma_white_space_set(' ');
    lemma_white_space_set('\r');
    lemma_white_space_set('\t');
    lemma_white_space_set('\n');
    lemma_padding_ignored(w, ' ', '\r');
    lemma_padding_ignored(w, '\t', '\n');
}

proof fn lemma_scan_case_blind(w: Seq<char>, v: Seq<char>, radix: int, max: int, acc: int)
    requires
        same_but_case(w, v),
    ensures
        scan_digits(w, radix, max, acc) == scan_digits(v, radix, max, acc),
    decreases w.len(),
{
    if w.len() > 0 {
        assert(same_letter(w[0], v[0]));
        assert(digit_val(w[0]) == digit_val(v[0]));
        assert forall|i: int| 0 <= i < w.drop_first().len() implies same_letter(
            #[trigger] w.drop_first()[i],
            v.drop_first()[i],
        ) by {
            assert(same_letter(w[i + 1], v[i + 1]));
        }
        lemma_scan_case_blind(
            w.drop_first(),
            v.drop_first(),
            radix,
            max,
            acc * radix + digit_val(w[0]),
        );
    }
}

proof fn lemma_unsigned_case_blind(w: Seq<char>, v: Seq<char>, radix: int, max: int)
    requires
        same_but_case(w, v),
    ensures
        spec_parse_unsigned(w, radix, max) == spec_parse_unsigned(v, radix, max),
{
    if w.len() > 0 {
        assert(same_letter(w[0], v[0]));
        assert forall|i: int| 0 <= i < w.drop_first().len() implies same_letter(
            #[trigger] w.drop_first()[i],
            v.drop_first()[i],
        ) by {
            assert(same_letter(w[i + 1], v[i + 1]));
        }
        lemma_scan_case_blind(w.drop_first(), v.drop_first(), radix, max, 0);
    }
    lemma_scan_case_blind(w, v, radix, max, 0);
}

/// Setting values are read without regard to ASCII case: two texts that
/// differ only in the case of their letters read as the same boolean, the
/// same 32-bit value (`0x`/`0X` and the hexadecimal digits alike) and the
/// same optional GPIO number.
pub proof fn lemma_case_insensitive(w: Seq<char>, v: Seq<char>)
    requires
        same_but_case(w, v),
    ensures
        spec_parse_bool(w) == spec_parse_bool(v),
        spec_parse_u32_auto(w) == spec_parse_u32_auto(v),
        spec_parse_optional_u32(w) == spec_parse_optional_u32(v),
{
    lemma_case_blind(w, v);
    let tw = trimmed(w);
    let tv = trimmed(v);
    lemma_case_blind(tw, tv);
    if tw.len() >= 2 {
        assert(same_letter(tw[0], tv[0]));
        assert(same_letter(tw[1], tv[1]));
        assert forall|i: int| 0 <= i < tw.skip(2).len() implies same_letter(
            #[trigger] tw.skip(2)[i],
            tv.skip(2)[i],
        ) by {
            assert(same_letter(tw[i + 2], tv[i + 2]));
        }
        lemma_unsigned_case_blind(tw.skip(2), tv.skip(2), 16, u32::MAX as int);
    }
    lemma_unsigned_case_blind(tw, tv, 10, u32::MAX as int);
}

} // verus!
