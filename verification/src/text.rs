//! Text building blocks: decimal rendering and parsing of integers, ASCII
//! lower-casing, joining, and Unicode white-space splitting.
use vstd::prelude::*;
use vstd::utf8::encode_utf8;

verus! {

/// The character of a decimal digit `0 <= d < 10`.
pub open spec fn digit_char(d: int) -> char {
    if d == 0 {
        '0'
    } else if d == 1 {
        '1'
    } else if d == 2 {
        '2'
    } else if d == 3 {
        '3'
    } else if d == 4 {
        '4'
    } else if d == 5 {
        '5'
    } else if d == 6 {
        '6'
    } else if d == 7 {
        '7'
    } else if d == 8 {
        '8'
    } else {
        '9'
    }
}

/// The decimal digits of a natural number, most significant first, without
/// leading zeros (zero is the single digit `0`).
pub open spec fn nat_text(n: nat) -> Seq<char>
    decreases n,
{
    if n < 10 {
        seq![digit_char(n as int)]
    } else {
        nat_text(n / 10).push(digit_char((n % 10) as int))
    }
}

/// The decimal text of an integer: a `-` before the digits of a negative one.
pub open spec fn int_text(i: int) -> Seq<char> {
    if i < 0 {
        seq!['-'] + nat_text((-i) as nat)
    } else {
        nat_text(i as nat)
    }
}

/// Appends one character to a string.
/// Trusted: `String::push`, which std documents as appending the character
/// to the end of the string.
#[verifier::external_body]
pub(crate) fn push_char(s: &mut String, c: char)
    ensures
        final(s)@ == old(s)@.push(c),
{
    s.push(c)
}

fn digit_of(d: u64) -> (c: char)
    requires
        d < 10,
    ensures
        c == digit_char(d as int),
{
    match d {
        0 => '0',
        1 => '1',
        2 => '2',
        3 => '3',
        4 => '4',
        5 => '5',
        6 => '6',
        7 => '7',
        8 => '8',
        _ => '9',
    }
}

/// Appends the decimal digits of `n` to `s`.
fn append_u64(s: &mut String, n: u64)
    ensures
        final(s)@ == old(s)@ + nat_text(n as nat),
    decreases n,
{
    if n < 10 {
        push_char(s, digit_of(n));
    } else {
        append_u64(s, n / 10);
        push_char(s, digit_of(n % 10));
    }
}

/// Appends the decimal text of `n` to `s`.
pub fn append_i64(s: &mut String, n: i64)
    ensures
        final(s)@ == old(s)@ + int_text(n as int),
{
    if n < 0 {
        push_char(s, '-');
        let m: i128 = 0i128 - (n as i128);
        append_u64(s, m as u64);
    } else {
        append_u64(s, n as u64);
    }
}

/// The decimal text of an unsigned number.
pub fn u64_text(n: u64) -> (r: String)
    ensures
        r@ == nat_text(n as nat),
{
    let mut s = String::new();
    append_u64(&mut s, n);
    s
}

/// The decimal text of a signed number.
pub fn i64_text(n: i64) -> (r: String)
    ensures
        r@ == int_text(n as int),
{
    let mut s = String::new();
    append_i64(&mut s, n);
    s
}

/// The text of `n` padded with leading zeros to at least two digits.
pub open spec fn pad2_text(n: nat) -> Seq<char> {
    if n < 10 {
        seq!['0'] + nat_text(n)
    } else {
        nat_text(n)
    }
}

/// Appends the digits of `n`, padded with zeros to at least two.
pub fn append_pad2(s: &mut String, n: u64)
    ensures
        final(s)@ == old(s)@ + pad2_text(n as nat),
{
    if n < 10 {
        push_char(s, '0');
    }
    append_u64(s, n);
}

/// ASCII lower-casing of one character: `A`..`Z` become `a`..`z`, every
/// other character stays.
pub open spec fn ascii_lower_char(c: char) -> char {
    if 'A' <= c && c <= 'Z' {
        ((c as int) + 32) as char
    } else {
        c
    }
}

/// ASCII lower-casing of a text.
pub open spec fn ascii_lower(s: Seq<char>) -> Seq<char> {
    s.map_values(|c: char| ascii_lower_char(c))
}

fn lower_char(c: char) -> (r: char)
    ensures
        r == ascii_lower_char(c),
{
    if 'A' <= c && c <= 'Z' {
        ((c as u8) + 32) as char
    } else {
        c
    }
}

/// The ASCII lower-case copy of a text.
pub fn ascii_lowercase(s: &str) -> (r: String)
    ensures
        r@ == ascii_lower(s@),
{
    let mut out = String::new();
    for c in it: s.chars()
        invariant
            it.seq() == s@,
            out@ == ascii_lower(s@.take(it.index() as int)),
    {
        proof {
            assert(s@.take(it.index() + 1) == s@.take(it.index() as int).push(c));
        }
        push_char(&mut out, lower_char(c));
    }
    proof {
        assert(s@.take(s@.len() as int) == s@);
    }
    out
}

/// Whether a character is an ASCII decimal digit.
pub open spec fn is_digit(c: char) -> bool {
    '0' <= c && c <= '9'
}

/// Whether every character of a text is an ASCII decimal digit.
pub open spec fn all_digits(s: Seq<char>) -> bool {
    forall|i: int| 0 <= i < s.len() ==> is_digit(#[trigger] s[i])
}

/// The value of a text of decimal digits, most significant first.
pub open spec fn digits_value(s: Seq<char>) -> nat
    decreases s.len(),
{
    if s.len() == 0 {
        0
    } else {
        (digits_value(s.drop_last()) * 10 + ((s.last() as int) - ('0' as int))) as nat
    }
}

/// The unsigned value of a text as `str::parse` reads it: an optional `+`,
/// then one or more ASCII digits; `None` where that shape is missing or the
/// value exceeds `max`.
pub open spec fn parse_unsigned(s: Seq<char>, max: nat) -> Option<nat> {
    let body = if s.len() > 0 && s[0] == '+' {
        s.skip(1)
    } else {
        s
    };
    if body.len() == 0 || !all_digits(body) || digits_value(body) > max {
        None
    } else {
        Some(digits_value(body))
    }
}

/// What `str::parse::<u64>` gives for a text.
pub open spec fn parse_u64_spec(s: Seq<char>) -> Option<u64> {
    match parse_unsigned(s, u64::MAX as nat) {
        Some(v) => Some(v as u64),
        None => None,
    }
}

/// What `str::parse::<i64>` gives for a text: an optional `+` or `-`, then
/// one or more ASCII digits, with the value inside the range of `i64`.
pub open spec fn parse_i64_spec(s: Seq<char>) -> Option<i64> {
    if s.len() > 0 && s[0] == '-' {
        match parse_unsigned(s.skip(1).insert(0, '+'), 0x8000_0000_0000_0000) {
            Some(v) => Some((-(v as int)) as i64),
            None => None,
        }
    } else {
        match parse_unsigned(s, i64::MAX as nat) {
            Some(v) => Some(v as i64),
            None => None,
        }
    }
}

proof fn lemma_digits_value_prefix(s: Seq<char>, i: int)
    requires
        0 <= i <= s.len(),
        all_digits(s),
    ensures
        digits_value(s.take(i)) <= digits_value(s),
    decreases s.len() - i,
{
    if i < s.len() {
        lemma_digits_value_prefix(s, i + 1);
        assert(s.take(i + 1).drop_last() == s.take(i));
        assert(s.take(i + 1).last() == s[i]);
        assert(is_digit(s[i]));
    } else {
        assert(s.take(i) == s);
    }
}

/// Reads the characters of a text into a vector.
pub fn chars_of(s: &str) -> (v: Vec<char>)
    ensures
        v@ == s@,
{
    let mut v: Vec<char> = Vec::new();
    for c in it: s.chars()
        invariant
            v@ == it.seq().take(it.index() as int),
            it.seq() == s@,
    {
        v.push(c);
    }
    v
}

/// Reads `cs[start..]` as one or more ASCII digits whose value is at most
/// `max`.
fn digits_at_most(cs: &Vec<char>, start: usize, max: u64) -> (r: Option<u64>)
    requires
        start <= cs@.len(),
    ensures
        ({
            let body = cs@.skip(start as int);
            match r {
                Some(v) => body.len() > 0 && all_digits(body) && digits_value(body) <= max
                    && v == digits_value(body),
                None => body.len() == 0 || !all_digits(body) || digits_value(body) > max,
            }
        }),
{
    let ghost body = cs@.skip(start as int);
    if start == cs.len() {
        return None;
    }
    let mut acc: u128 = 0;
    let mut i: usize = start;
    while i < cs.len()
        invariant
            start <= i <= cs@.len(),
            body == cs@.skip(start as int),
            all_digits(body.take(i - start)),
            acc == digits_value(body.take(i - start)),
            acc <= max,
        decreases cs@.len() - i,
    {
        let c = cs[i];
        if !('0' <= c && c <= '9') {
            proof {
                assert(!is_digit(body[i - start]));
            }
            return None;
        }
        let d: u8 = (c as u8) - ('0' as u8);
        proof {
            assert(body.take(i - start + 1).drop_last() == body.take(i - start));
            assert(body.take(i - start + 1).last() == c);
        }
        acc = acc * 10 + (d as u128);
        i = i + 1;
        if acc > (max as u128) {
            proof {
                if all_digits(body) {
                    lemma_digits_value_prefix(body, i - start);
                }
            }
            return None;
        }
    }
    proof {
        assert(body.take(i - start) == body);
    }
    Some(acc as u64)
}

/// Parses an unsigned number as `str::parse::<u64>` does.
pub fn parse_u64(s: &str) -> (r: Option<u64>)
    ensures
        r == parse_u64_spec(s@),
{
    let cs = chars_of(s);
    let start: usize = if cs.len() > 0 && cs[0] == '+' {
        1
    } else {
        0
    };
    proof {
        if start == 0 {
            assert(cs@.skip(0) == cs@);
        }
    }
    digits_at_most(&cs, start, u64::MAX)
}

/// Parses a signed number as `str::parse::<i64>` does.
pub fn parse_i64(s: &str) -> (r: Option<i64>)
    ensures
        r == parse_i64_spec(s@),
{
    let cs = chars_of(s);
    if cs.len() > 0 && cs[0] == '-' {
        let ghost t = s@.skip(1).insert(0, '+');
        proof {
            assert(t.skip(1) == cs@.skip(1));
        }
        match digits_at_most(&cs, 1, 0x8000_0000_0000_0000u64) {
            Some(v) => {
                let n: i128 = 0i128 - (v as i128);
                Some(n as i64)
            },
            None => None,
        }
    } else {
        let start: usize = if cs.len() > 0 && cs[0] == '+' {
            1
        } else {
            0
        };
        proof {
            if start == 0 {
                assert(cs@.skip(0) == cs@);
            }
        }
        match digits_at_most(&cs, start, 0x7fff_ffff_ffff_ffffu64) {
            Some(v) => Some(v as i64),
            None => None,
        }
    }
}

/// The parts joined with `sep` between each two neighbours.
pub open spec fn join(parts: Seq<Seq<char>>, sep: Seq<char>) -> Seq<char>
    decreases parts.len(),
{
    if parts.len() == 0 {
        seq![]
    } else if parts.len() == 1 {
        parts[0]
    } else {
        join(parts.drop_last(), sep) + sep + parts.last()
    }
}

/// The views of a vector of strings.
pub open spec fn string_views(v: Seq<String>) -> Seq<Seq<char>> {
    v.map_values(|x: String| x@)
}

/// Joins strings with a separator, as `[String]::join` does.
pub fn join_strings(parts: &Vec<String>, sep: &str) -> (r: String)
    ensures
        r@ == join(string_views(parts@), sep@),
{
    let mut out = String::new();
    let ghost views = string_views(parts@);
    let mut i: usize = 0;
    while i < parts.len()
        invariant
            i <= parts@.len(),
            views == string_views(parts@),
            out@ == join(views.take(i as int), sep@),
        decreases parts@.len() - i,
    {
        proof {
            assert(views.take(i + 1).drop_last() == views.take(i as int));
        }
        if i > 0 {
            out.append(sep);
        }
        out.append(parts[i].as_str());
        i = i + 1;
    }
    proof {
        assert(views.take(parts@.len() as int) == views);
    }
    out
}

/// The views of a vector of text slices.
pub open spec fn str_views(v: Seq<&str>) -> Seq<Seq<char>> {
    v.map_values(|x: &str| x@)
}

/// Unicode `White_Space`, the property that `char::is_whitespace` tests.
pub open spec fn is_white_space(c: char) -> bool {
    ||| '\u{9}' <= c && c <= '\u{d}'
    ||| c == ' '
    ||| c == '\u{85}'
    ||| c == '\u{a0}'
    ||| c == '\u{1680}'
    ||| '\u{2000}' <= c && c <= '\u{200a}'
    ||| c == '\u{2028}'
    ||| c == '\u{2029}'
    ||| c == '\u{202f}'
    ||| c == '\u{205f}'
    ||| c == '\u{3000}'
}

/// Whether a character is Unicode white space.
pub fn white_space(c: char) -> (r: bool)
    ensures
        r == is_white_space(c),
{
    ('\u{9}' <= c && c <= '\u{d}') || c == ' ' || c == '\u{85}' || c == '\u{a0}' || c == '\u{1680}'
        || ('\u{2000}' <= c && c <= '\u{200a}') || c == '\u{2028}' || c == '\u{2029}' || c
        == '\u{202f}' || c == '\u{205f}' || c == '\u{3000}'
}

/// The piece `s[start..i]` as a list of at most one token.
pub open spec fn piece(s: Seq<char>, start: int, i: int) -> Seq<Seq<char>> {
    if start < i {
        seq![s.subrange(start, i)]
    } else {
        seq![]
    }
}

/// The white-space separated tokens of `s[start..]`, where `s[start..i]` is
/// known to hold no white space.
pub open spec fn split_from(s: Seq<char>, i: int, start: int) -> Seq<Seq<char>>
    decreases s.len() - i,
{
    if i >= s.len() {
        piece(s, start, i)
    } else if is_white_space(s[i]) {
        piece(s, start, i) + split_from(s, i + 1, i + 1)
    } else {
        split_from(s, i + 1, start)
    }
}

/// The maximal runs of non-white-space characters of a text, in order, as
/// `str::split_whitespace` yields them.
pub open spec fn split_white_space(s: Seq<char>) -> Seq<Seq<char>> {
    split_from(s, 0, 0)
}

/// Splits a text at Unicode white space, dropping empty pieces.
pub fn split_whitespace<'a>(s: &'a str) -> (r: Vec<&'a str>)
    ensures
        str_views(r@) == split_white_space(s@),
{
    let cs = chars_of(s);
    let mut tokens: Vec<&'a str> = Vec::new();
    let mut start: usize = 0;
    let mut i: usize = 0;
    while i < cs.len()
        invariant
            cs@ == s@,
            start <= i <= cs@.len(),
            str_views(tokens@) + split_from(s@, i as int, start as int) == split_white_space(s@),
        decreases cs@.len() - i,
    {
        if white_space(cs[i]) {
            let ghost before = str_views(tokens@);
            if start < i {
                let t = s.substring_char(start, i);
                tokens.push(t);
                proof {
                    assert(str_views(tokens@) == before + piece(s@, start as int, i as int));
                }
            } else {
                proof {
                    assert(str_views(tokens@) == before + piece(s@, start as int, i as int));
                }
            }
            i = i + 1;
            start = i;
        } else {
            i = i + 1;
        }
    }
    if start < i {
        let ghost before = str_views(tokens@);
        let t = s.substring_char(start, i);
        tokens.push(t);
        proof {
            assert(str_views(tokens@) == before + piece(s@, start as int, i as int));
        }
    }
    tokens
}

/// A text has an empty UTF-8 encoding exactly when it is empty.
pub proof fn lemma_utf8_empty(s: Seq<char>)
    ensures
        (encode_utf8(s).len() == 0) == (s.len() == 0),
{
}

/// An ASCII first character takes one byte of the UTF-8 encoding.
pub proof fn lemma_utf8_ascii_head(s: Seq<char>)
    requires
        s.len() > 0,
        (s[0] as u32) < 128,
    ensures
        encode_utf8(s).len() == 1 + encode_utf8(s.drop_first()).len(),
{
}

proof fn lemma_digit_char(d: int)
    requires
        0 <= d < 10,
    ensures
        (digit_char(d) as int) - ('0' as int) == d,
        is_digit(digit_char(d)),
{
}

/// The decimal text of a number is a non-empty run of digits whose value is
/// the number.
pub proof fn lemma_nat_text(n: nat)
    ensures
        nat_text(n).len() > 0,
        all_digits(nat_text(n)),
        digits_value(nat_text(n)) == n,
    decreases n,
{
    lemma_digit_char((n % 10) as int);
    if n < 10 {
        assert(nat_text(n).drop_last() =~= Seq::<char>::empty());
        assert(n % 10 == n);
        assert(digits_value(nat_text(n).drop_last()) == 0);
        assert(nat_text(n).last() == digit_char(n as int));
    } else {
        lemma_nat_text(n / 10);
        let t = nat_text(n);
        assert(t.drop_last() == nat_text(n / 10));
        assert(t.last() == digit_char((n % 10) as int));
        assert((n / 10) * 10 + n % 10 == n);
        assert(digits_value(t) == (digits_value(t.drop_last()) * 10 + ((t.last() as int) - ('0' as int))) as nat);
        assert forall|i: int| 0 <= i < t.len() implies is_digit(#[trigger] t[i]) by {
            if i < t.len() - 1 {
                assert(t[i] == nat_text(n / 10)[i]);
            }
        }
    }
}

/// The decimal text of a number reads back as that number: what the bot
/// prints of an amount, `str::parse` reads as the same amount.
pub proof fn law_decimal_round_trip(x: i64)
    ensures
        parse_i64_spec(int_text(x as int)) == Some(x),
{
    if x < 0 {
        let m: nat = (-x) as nat;
        lemma_nat_text(m);
        let s = int_text(x as int);
        assert(s.skip(1) == nat_text(m));
        let t = s.skip(1).insert(0, '+');
        assert(t.skip(1) == nat_text(m));
    } else {
        lemma_nat_text(x as nat);
        assert(is_digit(nat_text(x as nat)[0]));
    }
}

/// The decimal text of an unsigned number reads back as that number.
pub proof fn law_unsigned_round_trip(x: u64)
    ensures
        parse_u64_spec(nat_text(x as nat)) == Some(x),
{
    lemma_nat_text(x as nat);
    assert(is_digit(nat_text(x as nat)[0]));
}

} // verus!
