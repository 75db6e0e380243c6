//! String helpers shared by the other modules: comparison, searching,
//! trimming and decimal formatting, each stated over `Seq<char>`.

use vstd::prelude::*;
use vstd::string::*;
use vstd::utf8::*;

verus! {

/// `String::push` appends one character.
pub assume_specification[ String::push ](s: &mut String, ch: char)
    ensures
        final(s)@ == old(s)@.push(ch),
;

/// The lower-case form of a text, as `str::to_lowercase` computes it from
/// the Unicode case tables.
pub uninterp spec fn lowercase(s: Seq<char>) -> Seq<char>;

/// Whether a character has the Unicode `White_Space` property: the
/// controls from tab to carriage return, the space, the next-line control,
/// the no-break space, the Ogham space mark, the spaces from en quad to
/// hair space, the line and paragraph separators, the narrow no-break
/// space, the medium mathematical space and the ideographic space.
pub open spec fn is_whitespace(c: char) -> bool {
    ('\u{9}' <= c && c <= '\u{d}') || c == ' ' || c == '\u{85}' || c == '\u{a0}' || c
        == '\u{1680}' || ('\u{2000}' <= c && c <= '\u{200a}') || c == '\u{2028}' || c
        == '\u{2029}' || c == '\u{202f}' || c == '\u{205f}' || c == '\u{3000}'
}

/// `str::to_lowercase`: the result is a function of the text alone and is
/// named `lowercase`; nothing else is claimed of it.
#[verifier::external_body]
pub(crate) fn to_lowercase(s: &str) -> (r: String)
    ensures
        r@ == lowercase(s@),
{
    s.to_lowercase()
}

/// `char::is_whitespace`: true exactly for the characters with the
/// Unicode `White_Space` property, which `is_whitespace` lists.
#[verifier::external_body]
pub(crate) fn char_is_whitespace(c: char) -> (r: bool)
    ensures
        r == is_whitespace(c),
{
    c.is_whitespace()
}

/// `p` is a prefix of `s`.
pub open spec fn has_prefix(s: Seq<char>, p: Seq<char>) -> bool {
    p.len() <= s.len() && s.subrange(0, p.len() as int) == p
}

/// `p` is a suffix of `s`.
pub open spec fn has_suffix(s: Seq<char>, p: Seq<char>) -> bool {
    p.len() <= s.len() && s.subrange(s.len() - p.len(), s.len() as int) == p
}

/// `p` occurs in `s` starting at index `i`.
pub open spec fn occurs_at(s: Seq<char>, p: Seq<char>, i: int) -> bool {
    0 <= i && i + p.len() <= s.len() && s.subrange(i, i + p.len()) == p
}

/// `p` occurs somewhere in `s`.
pub open spec fn is_substring(s: Seq<char>, p: Seq<char>) -> bool {
    exists|i: int| occurs_at(s, p, i)
}

/// Number of leading whitespace characters of `s`.
pub open spec fn leading_whitespace(s: Seq<char>) -> nat
    decreases s.len(),
{
    if s.len() > 0 && is_whitespace(s[0]) {
        1 + leading_whitespace(s.drop_first())
    } else {
        0
    }
}

/// Number of trailing whitespace characters of `s`.
pub open spec fn trailing_whitespace(s: Seq<char>) -> nat
    decreases s.len(),
{
    if s.len() > 0 && is_whitespace(s.last()) {
        1 + trailing_whitespace(s.drop_last())
    } else {
        0
    }
}

/// `s` without its leading and trailing whitespace.
pub open spec fn trimmed(s: Seq<char>) -> Seq<char> {
    let start = leading_whitespace(s);
    let rest = s.subrange(start as int, s.len() as int);
    rest.subrange(0, rest.len() - trailing_whitespace(rest))
}

/// Number of trailing occurrences of `c` in `s`.
pub open spec fn trailing_run(s: Seq<char>, c: char) -> nat
    decreases s.len(),
{
    if s.len() > 0 && s.last() == c {
        1 + trailing_run(s.drop_last(), c)
    } else {
        0
    }
}

/// `s` without its trailing run of `c`.
pub open spec fn without_trailing(s: Seq<char>, c: char) -> Seq<char> {
    s.subrange(0, s.len() - trailing_run(s, c))
}

/// The character of one decimal digit.
pub open spec fn digit_char(d: nat) -> char {
    if d == 0 {
        '0'
    } else if d == 1 {
        '1'
    } else if d == 2 {
        '2'
    } else if d == 3 {
        '3'
    } else if d == 4 {
        '4'
    } else if d == 5 {
        '5'
    } else if d == 6 {
        '6'
    } else if d == 7 {
        '7'
    } else if d == 8 {
        '8'
    } else {
        '9'
    }
}

/// The decimal numeral of `n`, without leading zeros.
pub open spec fn decimal(n: nat) -> Seq<char>
    decreases n,
{
    if n < 10 {
        seq![digit_char(n)]
    } else {
        decimal(n / 10).push(digit_char(n % 10))
    }
}

/// The decimal numeral of a signed number: a minus sign before the
/// numeral of its magnitude when it is negative.
pub open spec fn signed_decimal(n: int) -> Seq<char> {
    if n < 0 {
        seq!['-'] + decimal((-n) as nat)
    } else {
        decimal(n as nat)
    }
}

/// Whether two texts hold the same characters.
pub fn str_eq(a: &str, b: &str) -> (r: bool)
    ensures
        r == (a@ == b@),
{
    let x = a.as_bytes();
    let y = b.as_bytes();
    proof {
        encode_utf8_decode_utf8(a@);
        encode_utf8_decode_utf8(b@);
    }
    if x.len() != y.len() {
        return false;
    }
    let n = x.len();
    let mut i: usize = 0;
    while i < n
        invariant
            n == x@.len(),
            n == y@.len(),
            i <= n,
            x@.subrange(0, i as int) == y@.subrange(0, i as int),
            x@ == encode_utf8(a@),
            y@ == encode_utf8(b@),
            decode_utf8(encode_utf8(a@)) == a@,
            decode_utf8(encode_utf8(b@)) == b@,
        decreases n - i,
    {
        if x[i] != y[i] {
            return false;
        }
        i = i + 1;
    }
    assert(x@ =~= x@.subrange(0, n as int));
    assert(y@ =~= y@.subrange(0, n as int));
    true
}

/// The characters of a text, one element each.
pub fn chars_of(s: &str) -> (r: Vec<char>)
    ensures
        r@ == s@,
{
    let mut out: Vec<char> = Vec::new();
    for c in it: s.chars()
        invariant
            out@ == s@.subrange(0, it.index() as int),
            it.seq() == s@,
    {
        out.push(c);
    }
    out
}

/// The text made of the characters `v[from..to]`.
pub(crate) fn string_of(v: &Vec<char>, from: usize, to: usize) -> (r: String)
    requires
        from <= to <= v@.len(),
    ensures
        r@ == v@.subrange(from as int, to as int),
{
    let mut out = String::new();
    let mut i: usize = from;
    while i < to
        invariant
            from <= i <= to <= v@.len(),
            out@ == v@.subrange(from as int, i as int),
        decreases to - i,
    {
        out.push(v[i]);
        i = i + 1;
    }
    out
}

/// Whether `p` occurs in `s` at index `i`.
fn matches_at(s: &Vec<char>, p: &Vec<char>, i: usize) -> (r: bool)
    requires
        i + p@.len() <= s@.len(),
    ensures
        r == occurs_at(s@, p@, i as int),
{
    let m = p.len();
    let n = s.len();
    let mut j: usize = 0;
    while j < m
        invariant
            m == p@.len(),
            n == s@.len(),
            j <= m,
            i + m <= n,
            s@.subrange(i as int, i + j) == p@.subrange(0, j as int),
        decreases m - j,
    {
        if s[i + j] != p[j] {
            return false;
        }
        j = j + 1;
    }
    assert(p@ =~= p@.subrange(0, m as int));
    true
}

/// Whether `s` ends with `suffix`.
pub fn ends_with(s: &str, suffix: &str) -> (r: bool)
    ensures
        r == has_suffix(s@, suffix@),
{
    let sv = chars_of(s);
    let pv = chars_of(suffix);
    if pv.len() > sv.len() {
        return false;
    }
    matches_at(&sv, &pv, sv.len() - pv.len())
}

/// Whether `needle` occurs in `hay`.
pub fn contains(hay: &str, needle: &str) -> (r: bool)
    ensures
        r == is_substring(hay@, needle@),
{
    let sv = chars_of(hay);
    let pv = chars_of(needle);
    if pv.len() > sv.len() {
        return false;
    }
    let last = sv.len() - pv.len();
    let mut i: usize = 0;
    while i < last
        invariant
            last == sv@.len() - pv@.len(),
            i <= last,
            sv@ == hay@,
            pv@ == needle@,
            forall|k: int| 0 <= k < i ==> !occurs_at(sv@, pv@, k),
        decreases last - i,
    {
        if matches_at(&sv, &pv, i) {
            return true;
        }
        i = i + 1;
    }
    matches_at(&sv, &pv, last)
}

/// `s` when it does not start with `prefix`, else `s` without it.
pub open spec fn without_prefix(s: Seq<char>, p: Seq<char>) -> Seq<char> {
    if has_prefix(s, p) {
        s.subrange(p.len() as int, s.len() as int)
    } else {
        s
    }
}

/// Removes `prefix` from the front of `s` when it stands there.
pub fn strip_prefix(s: &str, prefix: &str) -> (r: String)
    ensures
        r@ == without_prefix(s@, prefix@),
{
    let sv = chars_of(s);
    let pv = chars_of(prefix);
    if pv.len() <= sv.len() && matches_at(&sv, &pv, 0) {
        string_of(&sv, pv.len(), sv.len())
    } else {
        string_of(&sv, 0, sv.len())
    }
}

/// Removes every trailing `c` from `s`.
pub fn trim_end_char(s: &str, c: char) -> (r: String)
    ensures
        r@ == without_trailing(s@, c),
{
    let sv = chars_of(s);
    let mut end: usize = sv.len();
    assert(sv@ =~= sv@.subrange(0, sv@.len() as int));
    while end > 0 && sv[end - 1] == c
        invariant
            end <= sv@.len(),
            trailing_run(sv@, c) == (sv@.len() - end) + trailing_run(
                sv@.subrange(0, end as int),
                c,
            ),
        decreases end,
    {
        assert(sv@.subrange(0, end as int).drop_last() =~= sv@.subrange(0, end - 1));
        end = end - 1;
    }
    string_of(&sv, 0, end)
}

/// Removes leading and trailing whitespace.
pub fn trim(s: &str) -> (r: String)
    ensures
        r@ == trimmed(s@),
{
    let sv = chars_of(s);
    let n = sv.len();
    let mut start: usize = 0;
    assert(sv@ =~= sv@.subrange(0, n as int));
    while start < n && char_is_whitespace(sv[start])
        invariant
            n == sv@.len(),
            start <= n,
            leading_whitespace(sv@) == start + leading_whitespace(
                sv@.subrange(start as int, n as int),
            ),
        decreases n - start,
    {
        assert(sv@.subrange(start as int, n as int).drop_first() =~= sv@.subrange(
            start + 1,
            n as int,
        ));
        start = start + 1;
    }
    let ghost rest = sv@.subrange(start as int, n as int);
    let mut end: usize = n;
    while end > start && char_is_whitespace(sv[end - 1])
        invariant
            start <= end <= n,
            n == sv@.len(),
            rest == sv@.subrange(start as int, n as int),
            trailing_whitespace(rest) == (n - end) + trailing_whitespace(
                sv@.subrange(start as int, end as int),
            ),
        decreases end,
    {
        assert(sv@.subrange(start as int, end as int).drop_last() =~= sv@.subrange(
            start as int,
            end - 1,
        ));
        end = end - 1;
    }
    string_of(&sv, start, end)
}

/// The character of the decimal digit `d`.
fn digit(d: u64) -> (c: char)
    requires
        d < 10,
    ensures
        c == digit_char(d as nat),
{
    if d == 0 {
        '0'
    } else if d == 1 {
        '1'
    } else if d == 2 {
        '2'
    } else if d == 3 {
        '3'
    } else if d == 4 {
        '4'
    } else if d == 5 {
        '5'
    } else if d == 6 {
        '6'
    } else if d == 7 {
        '7'
    } else if d == 8 {
        '8'
    } else {
        '9'
    }
}

/// Appends the decimal numeral of `n` to `out`.
pub fn push_decimal(out: &mut String, n: u64)
    ensures
        final(out)@ == old(out)@ + decimal(n as nat),
{
    let mut digits: Vec<char> = Vec::new();
    digits.push(digit(n % 10));
    let mut rest: u64 = n / 10;
    while rest > 0
        invariant
            digits@.len() > 0,
            rest > 0 ==> decimal(n as nat) == decimal(rest as nat) + digits@.reverse(),
            rest == 0 ==> decimal(n as nat) == digits@.reverse(),
        decreases rest,
    {
        let d = digit(rest % 10);
        digits.push(d);
        rest = rest / 10;
    }
    let mut i: usize = digits.len();
    while i > 0
        invariant
            i <= digits@.len(),
            out@ == old(out)@ + digits@.reverse().subrange(0, digits@.len() - i),
        decreases i,
    {
        i = i - 1;
        out.push(digits[i]);
    }
}

/// Appends the decimal numeral of a signed number to `out`.
pub fn push_signed_decimal(out: &mut String, n: i64)
    ensures
        final(out)@ == old(out)@ + signed_decimal(n as int),
{
    if n < 0 {
        out.push('-');
        let magnitude: u64 = if n == i64::MIN {
            9223372036854775808u64
        } else {
            (-n) as u64
        };
        push_decimal(out, magnitude);
    } else {
        push_decimal(out, n as u64);
    }
}

/// Replaces every character outside `[A-Za-z0-9]` by `-`.
pub open spec fn sanitized(s: Seq<char>) -> Seq<char> {
    Seq::new(
        s.len(),
        |i: int|
            if ('a' <= s[i] && s[i] <= 'z') || ('A' <= s[i] && s[i] <= 'Z') || ('0' <= s[i] && s[i]
                <= '9') {
                s[i]
            } else {
                '-'
            },
    )
}

/// Replaces every character that is not an ASCII letter or digit by a
/// hyphen.
pub fn sanitize(s: &str) -> (r: String)
    ensures
        r@ == sanitized(s@),
{
    let mut out = String::new();
    for c in it: s.chars()
        invariant
            out@ == sanitized(s@).subrange(0, it.index() as int),
            it.seq() == s@,
    {
        let keep = (c >= 'a' && c <= 'z') || (c >= 'A' && c <= 'Z') || (c >= '0' && c <= '9');
        if keep {
            out.push(c);
        } else {
            out.push('-');
        }
    }
    out
}

/// An optional text with surrounding whitespace removed; a text that is
/// blank after that counts as absent.
pub open spec fn non_blank(o: Option<Seq<char>>) -> Option<Seq<char>> {
    match o {
        Some(t) => if trimmed(t).len() == 0 {
            None
        } else {
            Some(trimmed(t))
        },
        None => None,
    }
}

/// Trims an optional text and drops it when nothing is left.
pub fn normalize_optional(o: Option<String>) -> (r: Option<String>)
    ensures
        r.deep_view() == non_blank(o.deep_view()),
{
    match o {
        Some(t) => {
            let x = trim(t.as_str());
            if x.as_str().unicode_len() == 0 {
                None
            } else {
                Some(x)
            }
        },
        None => None,
    }
}

/// A copy of an optional text.
pub fn clone_optional(o: &Option<String>) -> (r: Option<String>)
    ensures
        r == *o,
{
    match o {
        Some(t) => Some(t.clone()),
        None => None,
    }
}

/// `s` with every occurrence of `from` replaced by `to`, found from the
/// left, each after the end of the one before.
pub open spec fn replaced(s: Seq<char>, from: Seq<char>, to: Seq<char>) -> Seq<char>
    decreases s.len(),
{
    if from.len() == 0 || s.len() < from.len() {
        s
    } else if has_prefix(s, from) {
        to + replaced(s.skip(from.len() as int), from, to)
    } else {
        seq![s[0]] + replaced(s.drop_first(), from, to)
    }
}

/// Replaces every occurrence of a pattern. With an empty pattern the text
/// is returned as it is.
pub fn replace_all(s: &str, from: &str, to: &str) -> (r: String)
    ensures
        r@ == replaced(s@, from@, to@),
{
    let sv = chars_of(s);
    let pv = chars_of(from);
    let n = sv.len();
    let m = pv.len();
    if m == 0 {
        return String::from_str(s);
    }
    let mut out = String::new();
    let mut i: usize = 0;
    assert(sv@.skip(0) =~= sv@);
    while i < n
        invariant
            n == sv@.len(),
            m == pv@.len(),
            m > 0,
            i <= n,
            sv@ == s@,
            pv@ == from@,
            replaced(s@, from@, to@) == out@ + replaced(sv@.skip(i as int), from@, to@),
        decreases n - i,
    {
        let ghost rest = sv@.skip(i as int);
        if n - i >= m && matches_at(&sv, &pv, i) {
            assert(rest.subrange(0, m as int) =~= sv@.subrange(i as int, i + m));
            assert(rest.skip(m as int) =~= sv@.skip(i + m));
            out.append(to);
            i = i + m;
        } else {
            proof {
                assert(rest.drop_first() =~= sv@.skip(i + 1));
                if rest.len() >= m {
                    assert(rest.subrange(0, m as int) =~= sv@.subrange(i as int, i + m));
                }
            }
            out.push(sv[i]);
            i = i + 1;
        }
    }
    out
}

/// The views of a list of texts.
pub open spec fn texts(v: Seq<String>) -> Seq<Seq<char>> {
    Seq::new(v.len(), |i: int| v[i]@)
}

/// The number of characters before the first line feed of `s`; the length
/// of `s` where it has none.
pub open spec fn line_end(s: Seq<char>) -> nat
    decreases s.len(),
{
    if s.len() == 0 || s[0] == '\n' {
        0
    } else {
        1 + line_end(s.drop_first())
    }
}

/// `s` without the carriage return at its end, where it has one.
pub open spec fn without_cr(s: Seq<char>) -> Seq<char> {
    if s.len() > 0 && s.last() == '\r' {
        s.drop_last()
    } else {
        s
    }
}

/// The lines of a text. A line ends with a line feed, or with a carriage
/// return and a line feed; neither belongs to the line. What follows the
/// last line feed is a line too, unless it is empty.
pub open spec fn lines_of(s: Seq<char>) -> Seq<Seq<char>>
    decreases s.len(),
{
    if s.len() == 0 {
        Seq::empty()
    } else if line_end(s) >= s.len() {
        seq![s]
    } else {
        seq![without_cr(s.subrange(0, line_end(s) as int))] + lines_of(
            s.skip(line_end(s) as int + 1),
        )
    }
}

/// The texts of `lines` with `sep` between them.
pub open spec fn joined(lines: Seq<Seq<char>>, sep: Seq<char>) -> Seq<char>
    decreases lines.len(),
{
    if lines.len() == 0 {
        Seq::empty()
    } else if lines.len() == 1 {
        lines[0]
    } else {
        joined(lines.drop_last(), sep) + sep + lines.last()
    }
}

/// Where the first line feed of a text stands.
proof fn lemma_line_end(s: Seq<char>, k: int)
    requires
        0 <= k <= s.len(),
        forall|j: int| 0 <= j < k ==> s[j] != '\n',
        k == s.len() || s[k] == '\n',
    ensures
        line_end(s) == k,
    decreases k,
{
    if k > 0 {
        lemma_line_end(s.drop_first(), k - 1);
    }
}

/// Splits a text into its lines.
pub fn lines(s: &str) -> (r: Vec<String>)
    ensures
        texts(r@) == lines_of(s@),
{
    let sv = chars_of(s);
    let n = sv.len();
    let mut out: Vec<String> = Vec::new();
    let mut start: usize = 0;
    let mut i: usize = 0;
    assert(sv@.skip(0) =~= sv@);
    while i < n
        invariant
            n == sv@.len(),
            start <= i <= n,
            lines_of(sv@) == texts(out@) + lines_of(sv@.skip(start as int)),
            forall|j: int| start <= j < i ==> sv@[j] != '\n',
        decreases n - i,
    {
        if sv[i] == '\n' {
            let ghost rest = sv@.skip(start as int);
            proof {
                lemma_line_end(rest, i - start);
                assert(rest.subrange(0, i - start) =~= sv@.subrange(start as int, i as int));
                assert(rest.skip(i - start + 1) =~= sv@.skip(i + 1));
            }
            let mut end: usize = i;
            if end > start && sv[end - 1] == '\r' {
                end = end - 1;
                assert(sv@.subrange(start as int, i as int).drop_last() =~= sv@.subrange(
                    start as int,
                    end as int,
                ));
            }
            let line = string_of(&sv, start, end);
            out.push(line);
            start = i + 1;
        }
        i = i + 1;
    }
    if start < n {
        let ghost rest = sv@.skip(start as int);
        proof {
            lemma_line_end(rest, n - start);
        }
        let line = string_of(&sv, start, n);
        out.push(line);
    }
    out
}

/// Joins `lines[from..]` with `sep` between them.
pub(crate) fn join_from(lines: &Vec<String>, from: usize, sep: &str) -> (r: String)
    requires
        from <= lines@.len(),
    ensures
        r@ == joined(texts(lines@).subrange(from as int, lines@.len() as int), sep@),
{
    let n = lines.len();
    let mut out = String::new();
    let mut i: usize = from;
    while i < n
        invariant
            n == lines@.len(),
            from <= i <= n,
            out@ == joined(texts(lines@).subrange(from as int, i as int), sep@),
        decreases n - i,
    {
        let ghost done = texts(lines@).subrange(from as int, i as int);
        let ghost next = texts(lines@).subrange(from as int, i + 1);
        assert(next.drop_last() =~= done);
        if i > from {
            out.append(sep);
        }
        out.append(lines[i].as_str());
        i = i + 1;
    }
    out
}

/// Whether a character is a decimal digit.
pub open spec fn is_digit(c: char) -> bool {
    '0' <= c && c <= '9'
}

/// A decimal numeral is made of digits, at least one.
pub proof fn lemma_decimal_digits(n: nat)
    ensures
        decimal(n).len() >= 1,
        forall|i: int| 0 <= i < decimal(n).len() ==> is_digit(#[trigger] decimal(n)[i]),
        n < 10 <==> decimal(n).len() == 1,
    decreases n,
{
    if n >= 10 {
        lemma_decimal_digits(n / 10);
    }
}

/// Different numbers have different decimal numerals.
pub proof fn lemma_decimal_injective(a: nat, b: nat)
    requires
        decimal(a) == decimal(b),
    ensures
        a == b,
    decreases a,
{
    lemma_decimal_digits(b);
    if a < 10 {
        assert(decimal(a)[0] == digit_char(a));
    } else {
        let x = decimal(a / 10);
        let y = decimal(b / 10);
        assert(x.push(digit_char(a % 10)).drop_last() =~= x);
        assert(y.push(digit_char(b % 10)).drop_last() =~= y);
        assert(x.push(digit_char(a % 10)).last() == digit_char(a % 10));
        lemma_decimal_injective(a / 10, b / 10);
    }
}

} // verus!
