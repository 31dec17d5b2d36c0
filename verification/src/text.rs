//! Character-level helpers shared by the rest of the library: whitespace,
//! ASCII case folding, decimal rendering and percent-encoding, each with the
//! mathematical definition it is proved against.

use vstd::prelude::*;
use vstd::string::*;
use vstd::utf8::*;

verus! {

/// Appending a character to a `String` (std's `String::push`): the text
/// afterwards is the text before followed by `ch`.
pub assume_specification[ String::push ](s: &mut String, ch: char)
    ensures
        final(s)@ == old(s)@.push(ch),
;

/// Unicode `White_Space`, the set that `char::is_whitespace` tests.
pub open spec fn is_whitespace(c: char) -> bool {
    ||| '\u{9}' <= c && c <= '\u{d}'
    ||| c == ' ' || c == '\u{85}' || c == '\u{a0}' || c == '\u{1680}'
    ||| '\u{2000}' <= c && c <= '\u{200a}'
    ||| c == '\u{2028}' || c == '\u{2029}' || c == '\u{202f}' || c == '\u{205f}'
    ||| c == '\u{3000}'
}

pub fn is_whitespace_char(c: char) -> (r: bool)
    ensures
        r == is_whitespace(c),
{
    ('\u{9}' <= c && c <= '\u{d}') || c == ' ' || c == '\u{85}' || c == '\u{a0}' || c == '\u{1680}'
        || ('\u{2000}' <= c && c <= '\u{200a}') || c == '\u{2028}' || c == '\u{2029}' || c
        == '\u{202f}' || c == '\u{205f}' || c == '\u{3000}'
}

/// Character-for-character equality of two strings.
pub fn str_eq(a: &str, b: &str) -> (r: bool)
    ensures
        r == (a@ == b@),
{
    let n = a.unicode_len();
    let m = b.unicode_len();
    if n != m {
        return false;
    }
    let mut i: usize = 0;
    while i < n
        invariant
            n == a@.len(),
            m == b@.len(),
            n == m,
            i <= n,
            forall|j: int| 0 <= j < i ==> a@[j] == b@[j],
        decreases n - i,
    {
        if a.get_char(i) != b.get_char(i) {
            return false;
        }
        i = i + 1;
    }
    assert(a@ =~= b@);
    true
}

/// ASCII lowercase of one character; every other character is unchanged.
pub open spec fn ascii_lower(c: char) -> char {
    if 'A' <= c && c <= 'Z' {
        (((c as u8) + 32) as u8) as char
    } else {
        c
    }
}

fn ascii_lower_char(c: char) -> (r: char)
    ensures
        r == ascii_lower(c),
{
    if 'A' <= c && c <= 'Z' {
        ((c as u8) + 32) as char
    } else {
        c
    }
}

/// Equality up to ASCII case, the relation `str::eq_ignore_ascii_case` decides.
pub open spec fn eq_ignore_ascii_case(a: Seq<char>, b: Seq<char>) -> bool {
    &&& a.len() == b.len()
    &&& forall|i: int| 0 <= i < a.len() ==> ascii_lower(#[trigger] a[i]) == ascii_lower(b[i])
}

pub fn str_eq_ignore_ascii_case(a: &str, b: &str) -> (r: bool)
    ensures
        r == eq_ignore_ascii_case(a@, b@),
{
    let n = a.unicode_len();
    let m = b.unicode_len();
    if n != m {
        return false;
    }
    let mut i: usize = 0;
    while i < n
        invariant
            n == a@.len(),
            m == b@.len(),
            n == m,
            i <= n,
            forall|j: int| 0 <= j < i ==> ascii_lower(#[trigger] a@[j]) == ascii_lower(b@[j]),
        decreases n - i,
    {
        let x = ascii_lower_char(a.get_char(i));
        let y = ascii_lower_char(b.get_char(i));
        if x != y {
            return false;
        }
        i = i + 1;
    }
    true
}

/// The decimal digit for `d % 10`.
pub open spec fn digit_char(d: u32) -> char {
    ((((d % 10) as u8) + 48) as u8) as char
}

/// Base-ten rendering of a number, most significant digit first, no leading
/// zeros (what `u32`'s `Display` prints).
pub open spec fn decimal(n: u32) -> Seq<char>
    decreases n,
{
    if n < 10 {
        seq![digit_char(n)]
    } else {
        decimal(n / 10).push(digit_char(n))
    }
}

/// Appends the decimal rendering of `n` to `out`.
pub fn push_decimal(out: &mut String, n: u32)
    ensures
        final(out)@ == old(out)@ + decimal(n),
    decreases n,
{
    if n >= 10 {
        push_decimal(out, n / 10);
    }
    let d: u8 = (n % 10) as u8;
    out.push((d + 48) as char);
    assert(final(out)@ =~= old(out)@ + decimal(n));
}

/// The bytes that pass through percent-encoding unchanged: ASCII letters,
/// digits and `-`, `_`, `.`, `~`.
pub open spec fn is_unreserved(b: u8) -> bool {
    ||| 65 <= b && b <= 90
    ||| 97 <= b && b <= 122
    ||| 48 <= b && b <= 57
    ||| b == 45 || b == 95 || b == 46 || b == 126
}

/// Upper-case hexadecimal digit for a value below sixteen.
pub open spec fn hex_digit(n: u8) -> char {
    if n < 10 {
        ((n + 48) as u8) as char
    } else {
        ((n + 55) as u8) as char
    }
}

/// How one byte is written: itself when unreserved, `%HH` otherwise.
pub open spec fn escape_byte(b: u8) -> Seq<char> {
    if is_unreserved(b) {
        seq![b as char]
    } else {
        seq!['%', hex_digit(b / 16), hex_digit(b % 16)]
    }
}

pub open spec fn percent_encode_bytes(bs: Seq<u8>) -> Seq<char>
    decreases bs.len(),
{
    if bs.len() == 0 {
        Seq::empty()
    } else {
        percent_encode_bytes(bs.drop_last()) + escape_byte(bs.last())
    }
}

/// Percent-encoding of a text's UTF-8 bytes.
pub open spec fn percent_encode(s: Seq<char>) -> Seq<char> {
    percent_encode_bytes(encode_utf8(s))
}

fn hex_digit_char(n: u8) -> (c: char)
    requires
        n < 16,
    ensures
        c == hex_digit(n),
{
    if n < 10 {
        (n + 48) as char
    } else {
        (n + 55) as char
    }
}

/// Percent-encodes `s` for use inside a URI query: every UTF-8 byte that is
/// not unreserved becomes `%HH` with upper-case hex digits.
pub fn encode(s: &str) -> (out: String)
    ensures
        out@ == percent_encode(s@),
{
    let bytes = s.as_bytes();
    let n = bytes.len();
    let mut out = String::new();
    let mut i: usize = 0;
    while i < n
        invariant
            n == bytes@.len(),
            bytes@ == encode_utf8(s@),
            i <= n,
            out@ == percent_encode_bytes(bytes@.subrange(0, i as int)),
        decreases n - i,
    {
        let b = bytes[i];
        let ghost before = out@;
        if (65 <= b && b <= 90) || (97 <= b && b <= 122) || (48 <= b && b <= 57) || b == 45 || b
            == 95 || b == 46 || b == 126 {
            out.push(b as char);
        } else {
            out.push('%');
            out.push(hex_digit_char(b / 16));
            out.push(hex_digit_char(b % 16));
        }
        assert(bytes@.subrange(0, i + 1).drop_last() =~= bytes@.subrange(0, i as int));
        assert(out@ =~= before + escape_byte(b));
        i = i + 1;
    }
    assert(bytes@.subrange(0, n as int) =~= bytes@);
    out
}

/// The views of a sequence of strings.
pub open spec fn views(v: Seq<String>) -> Seq<Seq<char>> {
    v.map_values(|w: String| w@)
}

/// The maximal runs of non-whitespace characters of `s`, in order (what
/// `str::split_whitespace` yields).
pub open spec fn words(s: Seq<char>) -> Seq<Seq<char>>
    decreases s.len(),
{
    if s.len() == 0 {
        Seq::empty()
    } else {
        let prev = words(s.drop_last());
        let c = s.last();
        if is_whitespace(c) {
            prev
        } else if s.len() >= 2 && !is_whitespace(s[s.len() - 2]) && prev.len() > 0 {
            prev.drop_last().push(prev.last().push(c))
        } else {
            prev.push(seq![c])
        }
    }
}

/// Splits `s` into its whitespace-separated words.
pub fn split_whitespace(s: &str) -> (ws: Vec<String>)
    ensures
        views(ws@) == words(s@),
{
    let n = s.unicode_len();
    let mut ws: Vec<String> = Vec::new();
    let mut in_word = false;
    let mut i: usize = 0;
    while i < n
        invariant
            n == s@.len(),
            i <= n,
            views(ws@) == words(s@.subrange(0, i as int)),
            in_word == (i > 0 && !is_whitespace(s@[i - 1])),
            in_word ==> ws@.len() > 0,
        decreases n - i,
    {
        let c = s.get_char(i);
        let ghost sub = s@.subrange(0, i + 1);
        assert(sub.drop_last() =~= s@.subrange(0, i as int));
        assert(sub.last() == c);
        if is_whitespace_char(c) {
            in_word = false;
        } else if in_word {
            assert(sub[sub.len() - 2] == s@[i - 1]);
            let mut w = ws.pop().unwrap();
            w.push(c);
            ws.push(w);
            assert(views(ws@) =~= words(sub));
        } else {
            let mut w = String::new();
            w.push(c);
            ws.push(w);
            in_word = true;
            assert(views(ws@) =~= words(sub));
        }
        i = i + 1;
    }
    assert(s@.subrange(0, n as int) =~= s@);
    ws
}

/// `s` without its leading whitespace.
pub open spec fn trim_start(s: Seq<char>) -> Seq<char>
    decreases s.len(),
{
    if s.len() > 0 && is_whitespace(s[0]) {
        trim_start(s.drop_first())
    } else {
        s
    }
}

/// `s` without its trailing whitespace.
pub open spec fn trim_end(s: Seq<char>) -> Seq<char>
    decreases s.len(),
{
    if s.len() > 0 && is_whitespace(s.last()) {
        trim_end(s.drop_last())
    } else {
        s
    }
}

/// `s` without leading and trailing whitespace (what `str::trim` returns).
pub open spec fn trim(s: Seq<char>) -> Seq<char> {
    trim_end(trim_start(s))
}

pub fn trim_str(s: &str) -> (r: &str)
    ensures
        r@ == trim(s@),
{
    let n = s.unicode_len();
    let mut i: usize = 0;
    assert(s@.subrange(0, n as int) =~= s@);
    while i < n && is_whitespace_char(s.get_char(i))
        invariant
            n == s@.len(),
            i <= n,
            trim_start(s@) == trim_start(s@.subrange(i as int, n as int)),
        decreases n - i,
    {
        assert(s@.subrange(i as int, n as int).drop_first() =~= s@.subrange(i + 1, n as int));
        i = i + 1;
    }
    let ghost t = s@.subrange(i as int, n as int);
    assert(trim_start(s@) == t);
    let mut j: usize = n;
    while j > i && is_whitespace_char(s.get_char(j - 1))
        invariant
            n == s@.len(),
            i <= j <= n,
            t == s@.subrange(i as int, n as int),
            trim_end(t) == trim_end(s@.subrange(i as int, j as int)),
        decreases j,
    {
        assert(s@.subrange(i as int, j as int).drop_last() =~= s@.subrange(i as int, j - 1));
        j = j - 1;
    }
    s.substring_char(i, j)
}

/// `s` with `prefix` removed from its front, when it starts with it.
pub fn strip_prefix<'a>(s: &'a str, prefix: &str) -> (r: Option<&'a str>)
    ensures
        match r {
            Some(t) => prefix@.is_prefix_of(s@) && t@ == s@.skip(prefix@.len() as int),
            None => !prefix@.is_prefix_of(s@),
        },
{
    let n = s.unicode_len();
    let m = prefix.unicode_len();
    if m > n {
        return None;
    }
    let mut i: usize = 0;
    while i < m
        invariant
            n == s@.len(),
            m == prefix@.len(),
            m <= n,
            i <= m,
            forall|j: int| 0 <= j < i ==> prefix@[j] == s@[j],
        decreases m - i,
    {
        if prefix.get_char(i) != s.get_char(i) {
            assert(prefix@[i as int] != s@.subrange(0, m as int)[i as int]);
            return None;
        }
        i = i + 1;
    }
    assert(prefix@ =~= s@.subrange(0, m as int));
    let rest = s.substring_char(m, n);
    assert(rest@ =~= s@.skip(m as int));
    Some(rest)
}

/// The text before the first `sep`, and the text after it when there is one
/// (the two pieces `splitn(2, sep)` yields).
pub open spec fn split_first(s: Seq<char>, sep: char) -> (Seq<char>, Option<Seq<char>>)
    decreases s.len(),
{
    if s.len() == 0 {
        (s, None)
    } else if s[0] == sep {
        (Seq::empty(), Some(s.drop_first()))
    } else {
        let (a, b) = split_first(s.drop_first(), sep);
        (seq![s[0]] + a, b)
    }
}

proof fn lemma_split_first(s: Seq<char>, sep: char, k: int)
    requires
        0 <= k <= s.len(),
        forall|j: int| 0 <= j < k ==> s[j] != sep,
        k < s.len() ==> s[k] == sep,
    ensures
        split_first(s, sep) == (if k < s.len() {
            (s.take(k), Some(s.skip(k + 1)))
        } else {
            (s, None::<Seq<char>>)
        }),
    decreases k,
{
    if k == 0 {
        if s.len() > 0 {
            assert(s.take(0) =~= Seq::<char>::empty());
            assert(s.skip(1) =~= s.drop_first());
        }
    } else {
        lemma_split_first(s.drop_first(), sep, k - 1);
        if k < s.len() {
            assert(seq![s[0]] + s.drop_first().take(k - 1) =~= s.take(k));
            assert(s.drop_first().skip(k) =~= s.skip(k + 1));
        } else {
            assert(seq![s[0]] + s.drop_first() =~= s);
        }
    }
}

/// Splits `s` at its first `sep`.
pub fn split_once<'a>(s: &'a str, sep: char) -> (r: (&'a str, Option<&'a str>))
    ensures
        (r.0@, match r.1 {
            Some(t) => Some(t@),
            None => None,
        }) == split_first(s@, sep),
{
    let n = s.unicode_len();
    let mut k: usize = 0;
    while k < n && s.get_char(k) != sep
        invariant
            n == s@.len(),
            k <= n,
            forall|j: int| 0 <= j < k ==> s@[j] != sep,
        decreases n - k,
    {
        k = k + 1;
    }
    proof {
        lemma_split_first(s@, sep, k as int);
    }
    if k < n {
        let a = s.substring_char(0, k);
        let b = s.substring_char(k + 1, n);
        assert(a@ =~= s@.take(k as int));
        assert(b@ =~= s@.skip(k + 1));
        (a, Some(b))
    } else {
        (s, None)
    }
}

/// `s` with `suffix` removed from its end, when it ends with it.
pub fn strip_suffix<'a>(s: &'a str, suffix: &str) -> (r: Option<&'a str>)
    ensures
        match r {
            Some(t) => suffix@.is_suffix_of(s@) && t@ == s@.take(s@.len() - suffix@.len()),
            None => !suffix@.is_suffix_of(s@),
        },
{
    let n = s.unicode_len();
    let m = suffix.unicode_len();
    if m > n {
        return None;
    }
    let d = n - m;
    let mut i: usize = 0;
    while i < m
        invariant
            n == s@.len(),
            m == suffix@.len(),
            d == n - m,
            i <= m,
            forall|j: int| 0 <= j < i ==> suffix@[j] == s@[d + j],
        decreases m - i,
    {
        if suffix.get_char(i) != s.get_char(d + i) {
            assert(suffix@[i as int] != s@.subrange(d as int, n as int)[i as int]);
            return None;
        }
        i = i + 1;
    }
    assert(suffix@ =~= s@.subrange(d as int, n as int));
    let rest = s.substring_char(0, d);
    assert(rest@ =~= s@.take(d as int));
    Some(rest)
}

/// A character that may stand in a URI query value without quoting:
/// unreserved ASCII or part of a `%HH` escape.
pub open spec fn uri_safe(c: char) -> bool {
    ||| 'A' <= c && c <= 'Z'
    ||| 'a' <= c && c <= 'z'
    ||| '0' <= c && c <= '9'
    ||| c == '-' || c == '_' || c == '.' || c == '~' || c == '%'
}

proof fn lemma_escape_byte_safe(b: u8)
    ensures
        forall|i: int| 0 <= i < escape_byte(b).len() ==> uri_safe(#[trigger] escape_byte(b)[i]),
{
    let hi = b / 16;
    let lo = b % 16;
    assert(hi < 16 && lo < 16);
}

/// Percent-encoding yields only URI-safe characters, so an encoded value
/// never introduces `&`, `=`, `?`, `/` or a space into a query.
pub proof fn lemma_percent_encode_is_uri_safe(bs: Seq<u8>)
    ensures
        forall|i: int|
            0 <= i < percent_encode_bytes(bs).len() ==> uri_safe(#[trigger] percent_encode_bytes(bs)[i]),
    decreases bs.len(),
{
    if bs.len() > 0 {
        lemma_percent_encode_is_uri_safe(bs.drop_last());
        lemma_escape_byte_safe(bs.last());
        let prev = percent_encode_bytes(bs.drop_last());
        let tail = escape_byte(bs.last());
        assert forall|i: int| 0 <= i < percent_encode_bytes(bs).len() implies uri_safe(
            #[trigger] percent_encode_bytes(bs)[i],
        ) by {
            if i < prev.len() {
                assert(percent_encode_bytes(bs)[i] == prev[i]);
            } else {
                assert(percent_encode_bytes(bs)[i] == tail[i - prev.len()]);
            }
        }
    }
}

/// The value of an upper-case hexadecimal digit.
pub open spec fn hex_value(c: char) -> int {
    if '0' <= c && c <= '9' {
        c as int - 48
    } else {
        c as int - 55
    }
}

/// Percent-decoding, read from the back: a `%HH` that ends the text is the
/// byte `0xHH`; any other last character is its own byte.
pub open spec fn percent_decode(cs: Seq<char>) -> Seq<u8>
    decreases cs.len(),
{
    if cs.len() == 0 {
        Seq::empty()
    } else if cs.len() >= 3 && cs[cs.len() - 3] == '%' {
        percent_decode(cs.subrange(0, cs.len() - 3)).push(
            (hex_value(cs[cs.len() - 2]) * 16 + hex_value(cs[cs.len() - 1])) as u8,
        )
    } else {
        percent_decode(cs.drop_last()).push(cs.last() as u8)
    }
}

proof fn lemma_hex_digit_value(n: u8)
    requires
        n < 16,
    ensures
        hex_value(hex_digit(n)) == n,
        hex_digit(n) != '%',
{
}

/// The last two characters of an encoded text are never `%`: a `%` always
/// starts a three-character escape.
proof fn lemma_encoded_tail_has_no_escape_start(bs: Seq<u8>)
    ensures
        percent_encode_bytes(bs).len() >= 1 ==> percent_encode_bytes(bs).last() != '%',
        percent_encode_bytes(bs).len() >= 2 ==> percent_encode_bytes(bs)[percent_encode_bytes(bs).len() - 2] != '%',
    decreases bs.len(),
{
    if bs.len() > 0 {
        let b = bs.last();
        lemma_encoded_tail_has_no_escape_start(bs.drop_last());
        lemma_hex_digit_value(b / 16);
        lemma_hex_digit_value(b % 16);
        let prev = percent_encode_bytes(bs.drop_last());
        let cs = percent_encode_bytes(bs);
        assert(cs == prev + escape_byte(b));
        if !is_unreserved(b) {
            assert(cs[cs.len() - 2] == hex_digit(b / 16));
            assert(cs.last() == hex_digit(b % 16));
        } else {
            assert(cs.last() == b as char);
            if cs.len() >= 2 {
                assert(cs[cs.len() - 2] == prev.last());
            }
        }
    }
}

/// Percent-decoding undoes percent-encoding of bytes.
pub proof fn lemma_percent_decode_encode_bytes(bs: Seq<u8>)
    ensures
        percent_decode(percent_encode_bytes(bs)) == bs,
    decreases bs.len(),
{
    if bs.len() > 0 {
        let b = bs.last();
        let init = bs.drop_last();
        lemma_percent_decode_encode_bytes(init);
        lemma_encoded_tail_has_no_escape_start(init);
        let prev = percent_encode_bytes(init);
        let cs = percent_encode_bytes(bs);
        assert(cs == prev + escape_byte(b));
        if is_unreserved(b) {
            assert(cs.drop_last() =~= prev);
            assert(cs.last() == b as char);
            assert((b as char) as u8 == b);
            if cs.len() >= 3 {
                assert(cs[cs.len() - 3] == prev[prev.len() - 2]);
            }
            assert(percent_decode(cs) == percent_decode(prev).push(b));
        } else {
            lemma_hex_digit_value(b / 16);
            lemma_hex_digit_value(b % 16);
            assert(cs.subrange(0, cs.len() - 3) =~= prev);
            assert(cs[cs.len() - 3] == '%');
            assert(cs[cs.len() - 2] == hex_digit(b / 16));
            assert(cs[cs.len() - 1] == hex_digit(b % 16));
            assert((b / 16) * 16 + b % 16 == b);
            assert(percent_decode(cs) == percent_decode(prev).push(b));
        }
        assert(init.push(b) =~= bs);
    }
}

/// Percent-decoding what [`encode`] produced for `s` gives back the UTF-8
/// bytes of `s`; so two texts with the same encoding are the same text.
pub proof fn lemma_percent_encode_round_trip(s: Seq<char>, t: Seq<char>)
    ensures
        percent_decode(percent_encode(s)) == encode_utf8(s),
        percent_encode(s) == percent_encode(t) ==> s == t,
{
    lemma_percent_decode_encode_bytes(encode_utf8(s));
    lemma_percent_decode_encode_bytes(encode_utf8(t));
    vstd::utf8::encode_utf8_decode_utf8(s);
    vstd::utf8::encode_utf8_decode_utf8(t);
}

/// Whether `c` is one of the digits `0`..`9`.
pub open spec fn is_decimal_digit(c: char) -> bool {
    '0' <= c && c <= '9'
}

/// The number a text of digits stands for, read as a base-ten numeral.
pub open spec fn numeral_value(s: Seq<char>) -> int
    decreases s.len(),
{
    if s.len() == 0 {
        0
    } else {
        numeral_value(s.drop_last()) * 10 + (s.last() as int - 48)
    }
}

/// The rendering of `n` is how `u32`'s `Display` writes it: one or more
/// digits, no leading zero, and read back as a base-ten numeral it is `n`.
pub proof fn lemma_decimal_reads_back(n: u32)
    ensures
        decimal(n).len() >= 1,
        forall|i: int| 0 <= i < decimal(n).len() ==> is_decimal_digit(#[trigger] decimal(n)[i]),
        decimal(n).len() > 1 ==> decimal(n)[0] != '0',
        numeral_value(decimal(n)) == n,
    decreases n,
{
    let d = digit_char(n);
    assert(d as int == n % 10 + 48);
    if n < 10 {
        assert(decimal(n) =~= seq![d]);
        assert(decimal(n).drop_last() =~= Seq::<char>::empty());
        assert(numeral_value(decimal(n)) == numeral_value(Seq::<char>::empty()) * 10 + (d as int - 48));
    } else {
        let m = n / 10;
        lemma_decimal_reads_back(m);
        let prev = decimal(m);
        assert(decimal(n) == prev.push(d));
        assert(decimal(n).drop_last() =~= prev);
        assert(decimal(n)[0] == prev[0]);
        assert forall|i: int| 0 <= i < decimal(n).len() implies is_decimal_digit(
            #[trigger] decimal(n)[i],
        ) by {
            if i < prev.len() {
                assert(decimal(n)[i] == prev[i]);
            }
        }
        if prev.len() == 1 {
            assert(m < 10) by {
                if m >= 10 {
                    lemma_decimal_reads_back(m / 10);
                    assert(decimal(m).len() == decimal(m / 10).len() + 1);
                }
            }
            assert(prev[0] == digit_char(m));
            assert(m >= 1);
        }
        assert(numeral_value(decimal(n)) == numeral_value(prev) * 10 + (d as int - 48));
        assert(m * 10 + n % 10 == n);
    }
}

/// ASCII folding sends each letter `A`..`Z` to its lowercase letter (32
/// code points on) and leaves every other character as it is.
pub proof fn lemma_ascii_lower_folds_letters(c: char)
    ensures
        'A' <= c && c <= 'Z' ==> ascii_lower(c) as u32 == c as u32 + 32,
        !('A' <= c && c <= 'Z') ==> ascii_lower(c) == c,
{
}

/// ASCII uppercase of one character; every other character is unchanged.
pub open spec fn ascii_upper(c: char) -> char {
    if 'a' <= c && c <= 'z' {
        ((c as u32 - 32) as u32) as char
    } else {
        c
    }
}

/// A text with its ASCII letters upper-cased.
pub open spec fn ascii_upper_text(s: Seq<char>) -> Seq<char> {
    s.map_values(|c: char| ascii_upper(c))
}

/// Upper-casing the ASCII letters of a text keeps it equal up to ASCII
/// case.
pub proof fn lemma_upper_text_is_same_ignoring_case(s: Seq<char>)
    ensures
        eq_ignore_ascii_case(s, ascii_upper_text(s)),
        eq_ignore_ascii_case(ascii_upper_text(s), s),
{
    assert forall|i: int| 0 <= i < s.len() implies ascii_lower(#[trigger] s[i]) == ascii_lower(
        ascii_upper_text(s)[i],
    ) by {
        let c = s[i];
        assert(ascii_upper_text(s)[i] == ascii_upper(c));
    }
    assert forall|i: int| 0 <= i < s.len() implies ascii_lower(#[trigger] ascii_upper_text(s)[i])
        == ascii_lower(s[i]) by {
        assert(ascii_upper_text(s)[i] == ascii_upper(s[i]));
    }
}

} // verus!
