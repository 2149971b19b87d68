//! Character-level helpers: whitespace trimming, ASCII case folding and
//! decimal rendering, each stated against a small specification.
use vstd::prelude::*;

verus! {

/// Whether `c` has the Unicode `White_Space` property, the set that
/// `char::is_whitespace` (and so `str::trim`) strips.
pub open spec fn is_white(c: char) -> bool {
    let v = c as u32;
    ||| 0x09 <= v <= 0x0d
    ||| v == 0x20
    ||| v == 0x85
    ||| v == 0xa0
    ||| v == 0x1680
    ||| 0x2000 <= v <= 0x200a
    ||| v == 0x2028
    ||| v == 0x2029
    ||| v == 0x202f
    ||| v == 0x205f
    ||| v == 0x3000
}

/// `s` without its leading whitespace.
pub open spec fn trim_front(s: Seq<char>) -> Seq<char>
    decreases s.len(),
{
    if s.len() > 0 && is_white(s[0]) {
        trim_front(s.drop_first())
    } else {
        s
    }
}

/// `s` without its trailing whitespace.
pub open spec fn trim_back(s: Seq<char>) -> Seq<char>
    decreases s.len(),
{
    if s.len() > 0 && is_white(s.last()) {
        trim_back(s.drop_last())
    } else {
        s
    }
}

/// `s` with leading and trailing whitespace removed, as `str::trim` gives it.
pub open spec fn trimmed(s: Seq<char>) -> Seq<char> {
    trim_back(trim_front(s))
}

/// `c` with an ASCII upper-case letter mapped to its lower-case form.
pub open spec fn ascii_lower(c: char) -> char {
    if 0x41 <= (c as u32) <= 0x5a {
        ((c as u32) + 32) as char
    } else {
        c
    }
}

/// `s` with every ASCII upper-case letter made lower-case, as
/// `str::to_ascii_lowercase` gives it.
pub open spec fn lowered(s: Seq<char>) -> Seq<char> {
    s.map_values(|c: char| ascii_lower(c))
}

/// The character of the decimal digit `d`.
pub open spec fn digit_char(d: int) -> char {
    (d + 0x30) as char
}

/// The decimal rendering of `n`, most significant digit first, without
/// leading zeros (`"0"` for zero).
pub open spec fn decimal(n: nat) -> Seq<char>
    decreases n,
{
    if n < 10 {
        seq![digit_char(n as int)]
    } else {
        decimal(n / 10).push(digit_char((n % 10) as int))
    }
}

/// The characters of `s`, one by one.
pub fn chars_of(s: &str) -> (res: Vec<char>)
    ensures
        res@ == s@,
{
    let mut res: Vec<char> = Vec::new();
    for c in it: s.chars()
        invariant
            res@ == it.seq().take(it.index() as int),
    {
        res.push(c);
    }
    res
}

/// Whether `c` is whitespace in the sense of `char::is_whitespace`.
pub fn is_white_char(c: char) -> (res: bool)
    ensures
        res == is_white(c),
{
    let v = c as u32;
    (0x09 <= v && v <= 0x0d) || v == 0x20 || v == 0x85 || v == 0xa0 || v == 0x1680 || (0x2000
        <= v && v <= 0x200a) || v == 0x2028 || v == 0x2029 || v == 0x202f || v == 0x205f || v
        == 0x3000
}

/// The characters `s[from..to]`.
pub fn sub_chars(s: &Vec<char>, from: usize, to: usize) -> (res: Vec<char>)
    requires
        from <= to <= s.len(),
    ensures
        res@ == s@.subrange(from as int, to as int),
{
    let mut res: Vec<char> = Vec::new();
    let mut i = from;
    while i < to
        invariant
            from <= i <= to <= s.len(),
            res@ == s@.subrange(from as int, i as int),
        decreases to - i,
    {
        res.push(s[i]);
        i += 1;
        assert(res@ =~= s@.subrange(from as int, i as int));
    }
    res
}

/// `s` with leading and trailing whitespace removed.
pub fn trim_chars(s: &Vec<char>) -> (res: Vec<char>)
    ensures
        res@ == trimmed(s@),
{
    let mut i: usize = 0;
    assert(s@.skip(0) =~= s@);
    while i < s.len() && is_white_char(s[i])
        invariant
            i <= s.len(),
            trim_front(s@) == trim_front(s@.skip(i as int)),
        decreases s.len() - i,
    {
        assert(s@.skip(i as int).drop_first() =~= s@.skip(i + 1));
        i += 1;
    }
    assert(trim_front(s@.skip(i as int)) == s@.skip(i as int));
    let mut j: usize = s.len();
    assert(s@.skip(i as int) =~= s@.subrange(i as int, j as int));
    while j > i && is_white_char(s[j - 1])
        invariant
            i <= j <= s.len(),
            trimmed(s@) == trim_back(s@.subrange(i as int, j as int)),
        decreases j,
    {
        assert(s@.subrange(i as int, j as int).drop_last() =~= s@.subrange(i as int, j - 1));
        j -= 1;
    }
    sub_chars(s, i, j)
}

/// `c` with an ASCII upper-case letter made lower-case.
pub fn lower_char(c: char) -> (res: char)
    ensures
        res == ascii_lower(c),
{
    if 'A' <= c && c <= 'Z' {
        ((c as u8) + 32) as char
    } else {
        c
    }
}

/// `s` with every ASCII upper-case letter made lower-case.
pub fn lower_chars(s: &Vec<char>) -> (res: Vec<char>)
    ensures
        res@ == lowered(s@),
{
    let mut res: Vec<char> = Vec::new();
    let mut i: usize = 0;
    while i < s.len()
        invariant
            i <= s.len(),
            res@ == lowered(s@.take(i as int)),
        decreases s.len() - i,
    {
        res.push(lower_char(s[i]));
        i += 1;
        assert(res@ =~= lowered(s@.take(i as int)));
    }
    assert(s@.take(i as int) =~= s@);
    res
}

/// Whether `a` and `b` hold the same characters.
pub fn same_chars(a: &Vec<char>, b: &Vec<char>) -> (res: bool)
    ensures
        res == (a@ == b@),
{
    if a.len() != b.len() {
        return false;
    }
    let mut i: usize = 0;
    while i < a.len()
        invariant
            i <= a.len() == b.len(),
            forall|k: int| 0 <= k < i ==> a@[k] == b@[k],
        decreases a.len() - i,
    {
        if a[i] != b[i] {
            return false;
        }
        i += 1;
    }
    assert(a@ =~= b@);
    true
}

/// Whether the characters of `a` are those of the text `b`.
pub fn chars_are(a: &Vec<char>, b: &str) -> (res: bool)
    ensures
        res == (a@ == b@),
{
    let bc = chars_of(b);
    same_chars(a, &bc)
}

/// The one-character text of the decimal digit `d`.
fn digit_text(d: u64) -> (res: &'static str)
    requires
        d < 10,
    ensures
        res@ == seq![digit_char(d as int)],
{
    proof {
        reveal_strlit("0");
        reveal_strlit("1");
        reveal_strlit("2");
        reveal_strlit("3");
        reveal_strlit("4");
        reveal_strlit("5");
        reveal_strlit("6");
        reveal_strlit("7");
        reveal_strlit("8");
        reveal_strlit("9");
    }
    let r = match d {
        0 => "0",
        1 => "1",
        2 => "2",
        3 => "3",
        4 => "4",
        5 => "5",
        6 => "6",
        7 => "7",
        8 => "8",
        _ => "9",
    };
    assert(r@ =~= seq![digit_char(d as int)]);
    r
}

/// Appends the decimal rendering of `n` to `out`.
pub fn push_decimal(out: &mut String, n: u64)
    ensures
        final(out)@ == old(out)@ + decimal(n as nat),
    decreases n,
{
    if n >= 10 {
        push_decimal(out, n / 10);
    }
    out.append(digit_text(n % 10));
    assert(out@ =~= old(out)@ + decimal(n as nat));
}

/// The decimal rendering of `n`.
pub fn decimal_string(n: u64) -> (res: String)
    ensures
        res@ == decimal(n as nat),
{
    let mut s = String::new();
    push_decimal(&mut s, n);
    assert(s@ =~= decimal(n as nat));
    s
}

proof fn lemma_trim_front_push(w: Seq<char>, c: char)
    requires
        is_white(c),
    ensures
        trim_front(w.push(c)) == if trim_front(w).len() == 0 {
            Seq::<char>::empty()
        } else {
            trim_front(w).push(c)
        },
    decreases w.len(),
{
    if w.len() == 0 {
        assert(w.push(c).drop_first() =~= Seq::<char>::empty());
        assert(trim_front(w.push(c)) == trim_front(Seq::<char>::empty()));
    } else {
        assert(w.push(c)[0] == w[0]);
        assert(w.push(c).drop_first() =~= w.drop_first().push(c));
        if is_white(w[0]) {
            lemma_trim_front_push(w.drop_first(), c);
        }
    }
}

/// Whitespace on either side does not change what a text trims to.
pub proof fn lemma_trimmed_ignores_padding(w: Seq<char>, a: char, b: char)
    requires
        is_white(a),
        is_white(b),
    ensures
        trimmed(seq![a] + w + seq![b]) == trimmed(w),
{
    let x = seq![a] + w + seq![b];
    assert(x[0] == a);
    assert(x.drop_first() =~= w.push(b));
    lemma_trim_front_push(w, b);
    let f = trim_front(w);
    if f.len() > 0 {
        assert(f.push(b).drop_last() =~= f);
        assert(f.push(b).last() == b);
    }
}

/// The characters that `str::trim` strips (the Unicode `White_Space`
/// characters: tab, line feed, vertical tab, form feed, carriage return,
/// space, next line, no-break space, Ogham space mark, the spaces
/// U+2000..=U+200A, the line and paragraph separators, the narrow no-break
/// space, the medium mathematical space and the ideographic space) are the
/// ones that trimming here strips.
pub proof fn lemma_white_space_set(c: char)
    ensures
        is_white(c) <==> {
            ||| c == '\t'
            ||| c == '\n'
            ||| c == '\u{0b}'
            ||| c == '\u{0c}'
            ||| c == '\r'
            ||| c == ' '
            ||| c == '\u{85}'
            ||| c == '\u{a0}'
            ||| c == '\u{1680}'
            ||| ('\u{2000}' as u32) <= (c as u32) <= ('\u{200a}' as u32)
            ||| c == '\u{2028}'
            ||| c == '\u{2029}'
            ||| c == '\u{202f}'
            ||| c == '\u{205f}'
            ||| c == '\u{3000}'
        },
{
}

/// Whether `c` and `d` are the same character up to ASCII case.
pub open spec fn same_letter(c: char, d: char) -> bool {
    ||| c == d
    ||| 0x41 <= (c as int) <= 0x5a && (d as int) == (c as int) + 32
    ||| 0x41 <= (d as int) <= 0x5a && (c as int) == (d as int) + 32
}

/// Whether `w` and `v` are the same text up to ASCII case.
pub open spec fn same_but_case(w: Seq<char>, v: Seq<char>) -> bool {
    w.len() == v.len() && forall|i: int| 0 <= i < w.len() ==> same_letter(#[trigger] w[i], v[i])
}

proof fn lemma_same_letter(c: char, d: char)
    requires
        same_letter(c, d),
    ensures
        is_white(c) == is_white(d),
        ascii_lower(c) == ascii_lower(d),
{
}

/// Trimming texts that are the same up to ASCII case gives texts that are
/// the same up to ASCII case, and lower-casing them gives the same text.
pub proof fn lemma_case_blind(w: Seq<char>, v: Seq<char>)
    requires
        same_but_case(w, v),
    ensures
        same_but_case(trimmed(w), trimmed(v)),
        lowered(w) == lowered(v),
{
    lemma_trim_front_case_blind(w, v);
    lemma_trim_back_case_blind(trim_front(w), trim_front(v));
    assert forall|i: int| 0 <= i < w.len() implies #[trigger] lowered(w)[i] == lowered(v)[i] by {
        lemma_same_letter(w[i], v[i]);
    }
    assert(lowered(w) =~= lowered(v));
}

proof fn lemma_trim_front_case_blind(w: Seq<char>, v: Seq<char>)
    requires
        same_but_case(w, v),
    ensures
        same_but_case(trim_front(w), trim_front(v)),
    decreases w.len(),
{
    if w.len() > 0 {
        lemma_same_letter(w[0], v[0]);
        if is_white(w[0]) {
            assert forall|i: int| 0 <= i < w.drop_first().len() implies same_letter(
                #[trigger] w.drop_first()[i],
                v.drop_first()[i],
            ) by {
                assert(same_letter(w[i + 1], v[i + 1]));
            }
            lemma_trim_front_case_blind(w.drop_first(), v.drop_first());
        }
    }
}

proof fn lemma_trim_back_case_blind(w: Seq<char>, v: Seq<char>)
    requires
        same_but_case(w, v),
    ensures
        same_but_case(trim_back(w), trim_back(v)),
    decreases w.len(),
{
    if w.len() > 0 {
        lemma_same_letter(w.last(), v.last());
        assert(same_letter(w[w.len() - 1], v[v.len() - 1]));
        if is_white(w.last()) {
            assert forall|i: int| 0 <= i < w.drop_last().len() implies same_letter(
                #[trigger] w.drop_last()[i],
                v.drop_last()[i],
            ) by {
                assert(same_letter(w[i], v[i]));
            }
            lemma_trim_back_case_blind(w.drop_last(), v.drop_last());
        }
    }
}

} // verus!
