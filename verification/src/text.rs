//! Text as sequences of `char`: the small vocabulary of string operations that
//! the rest of the crate is written in, each with its meaning as a function on
//! `Seq<char>`.

use vstd::prelude::*;
use vstd::string::{StrSliceExecFns, StringExecFns, StringSliceAdditionalSpecFns};
use vstd::utf8::{char_is_scalar, encode_utf8};

verus! {

/// The characters of `s`, in order.
pub fn chars_of(s: &str) -> (chars: Vec<char>)
    ensures
        chars@ == s@,
{
    let mut chars: Vec<char> = Vec::new();
    for c in it: s.chars()
        invariant
            it.seq() == s@,
            chars@ == it.seq().take(it.index() as int),
    {
        chars.push(c);
    }
    chars
}

/// `String::from_iter` over the characters of a slice: the string that holds
/// exactly those characters, in order.
#[verifier::external_body]
pub(crate) fn string_from_chars(chars: &[char]) -> (s: String)
    ensures
        s@ == chars@,
{
    chars.iter().collect()
}

/// The text of an optional string.
pub open spec fn option_text(text: Option<String>) -> Option<Seq<char>> {
    match text {
        Some(s) => Some(s@),
        None => None,
    }
}

/// Whether two string slices hold the same characters.
pub fn str_eq(a: &str, b: &str) -> (same: bool)
    ensures
        same == (a@ == b@),
{
    let left = a.to_owned();
    let right = b.to_owned();
    left == right
}

/// Whether `c` has the Unicode property `White_Space`.
pub open spec fn is_whitespace(c: char) -> bool {
    let u = c as u32;
    ||| 0x09 <= u <= 0x0d
    ||| u == 0x20
    ||| u == 0x85
    ||| u == 0xa0
    ||| u == 0x1680
    ||| 0x2000 <= u <= 0x200a
    ||| u == 0x2028
    ||| u == 0x2029
    ||| u == 0x202f
    ||| u == 0x205f
    ||| u == 0x3000
}

/// Executable form of [`is_whitespace`].
pub fn char_is_whitespace(c: char) -> (b: bool)
    ensures
        b == is_whitespace(c),
{
    let u: u32 = c as u32;
    (0x09 <= u && u <= 0x0d) || u == 0x20 || u == 0x85 || u == 0xa0 || u == 0x1680 || (0x2000 <= u
        && u <= 0x200a) || u == 0x2028 || u == 0x2029 || u == 0x202f || u == 0x205f || u == 0x3000
}

/// `s` without its leading whitespace.
pub open spec fn trim_start(s: Seq<char>) -> Seq<char>
    decreases s.len(),
{
    if s.len() > 0 && is_whitespace(s[0]) {
        trim_start(s.drop_first())
    } else {
        s
    }
}

/// `s` without its trailing whitespace.
pub open spec fn trim_end(s: Seq<char>) -> Seq<char>
    decreases s.len(),
{
    if s.len() > 0 && is_whitespace(s.last()) {
        trim_end(s.drop_last())
    } else {
        s
    }
}

/// `s` without leading and trailing whitespace.
pub open spec fn trim(s: Seq<char>) -> Seq<char> {
    trim_end(trim_start(s))
}

/// What [`trim`] leaves: a stretch of `s` that neither starts nor ends with
/// whitespace.
pub proof fn lemma_trim(s: Seq<char>)
    ensures
        exists|from: int, to: int|
            0 <= from <= to <= s.len() && #[trigger] s.subrange(from, to) == trim(s),
        trim(s).len() > 0 ==> !is_whitespace(trim(s)[0]) && !is_whitespace(trim(s).last()),
{
    lemma_trim_start(s);
    let front = choose|from: int|
        0 <= from <= s.len() && #[trigger] s.skip(from) == trim_start(s);
    let rest = trim_start(s);
    lemma_trim_end(rest);
    let back = choose|to: int| 0 <= to <= rest.len() && #[trigger] rest.take(to) == trim_end(rest);
    assert(s.subrange(front, front + back) =~= trim(s));
}

/// What [`trim_start`] leaves: the end of `s` from some index on, which does
/// not start with whitespace.
pub proof fn lemma_trim_start(s: Seq<char>)
    ensures
        exists|from: int| 0 <= from <= s.len() && #[trigger] s.skip(from) == trim_start(s),
        trim_start(s).len() > 0 ==> !is_whitespace(trim_start(s)[0]),
    decreases s.len(),
{
    if s.len() > 0 && is_whitespace(s[0]) {
        let rest = s.drop_first();
        lemma_trim_start(rest);
        let from = choose|from: int|
            0 <= from <= rest.len() && #[trigger] rest.skip(from) == trim_start(rest);
        assert(s.skip(from + 1) =~= rest.skip(from));
    } else {
        assert(s.skip(0) =~= s);
    }
}

/// What [`trim_end`] leaves: the start of `s` up to some index, which does not
/// end with whitespace and starts as `s` does.
pub proof fn lemma_trim_end(s: Seq<char>)
    ensures
        exists|to: int| 0 <= to <= s.len() && #[trigger] s.take(to) == trim_end(s),
        trim_end(s).len() > 0 ==> !is_whitespace(trim_end(s).last()) && trim_end(s)[0] == s[0],
    decreases s.len(),
{
    if s.len() > 0 && is_whitespace(s.last()) {
        let rest = s.drop_last();
        lemma_trim_end(rest);
        let to = choose|to: int| 0 <= to <= rest.len() && #[trigger] rest.take(to) == trim_end(rest);
        assert(s.take(to) =~= rest.take(to));
    } else {
        assert(s.take(s.len() as int) =~= s);
    }
}

/// The characters of `chars[from..to]` with leading and trailing whitespace
/// removed.
pub fn trim_range(chars: &Vec<char>, from: usize, to: usize) -> (out: Vec<char>)
    requires
        from <= to <= chars.len(),
    ensures
        out@ == trim(chars@.subrange(from as int, to as int)),
{
    let ghost s = chars@.subrange(from as int, to as int);
    let mut start: usize = from;
    while start < to && char_is_whitespace(chars[start])
        invariant
            from <= start <= to <= chars.len(),
            s == chars@.subrange(from as int, to as int),
            trim_start(s) == trim_start(chars@.subrange(start as int, to as int)),
        decreases to - start,
    {
        assert(chars@.subrange(start as int, to as int).drop_first() == chars@.subrange(
            start as int + 1,
            to as int,
        ));
        start = start + 1;
    }
    let mut end: usize = to;
    while start < end && char_is_whitespace(chars[end - 1])
        invariant
            from <= start <= end <= to <= chars.len(),
            trim(s) == trim_end(chars@.subrange(start as int, end as int)),
        decreases end - start,
    {
        assert(chars@.subrange(start as int, end as int).drop_last() == chars@.subrange(
            start as int,
            end as int - 1,
        ));
        end = end - 1;
    }
    let mut out: Vec<char> = Vec::new();
    let mut i: usize = start;
    while i < end
        invariant
            start <= i <= end <= chars.len(),
            out@ == chars@.subrange(start as int, i as int),
        decreases end - i,
    {
        out.push(chars[i]);
        i = i + 1;
    }
    out
}

/// Whether `prefix` is a prefix of `chars`.
pub fn has_prefix(chars: &Vec<char>, prefix: &Vec<char>) -> (b: bool)
    ensures
        b == prefix@.is_prefix_of(chars@),
{
    if prefix.len() > chars.len() {
        return false;
    }
    let mut i: usize = 0;
    while i < prefix.len()
        invariant
            i <= prefix.len() <= chars.len(),
            forall|k: int| 0 <= k < i ==> chars@[k] == prefix@[k],
        decreases prefix.len() - i,
    {
        if chars[i] != prefix[i] {
            return false;
        }
        i = i + 1;
    }
    true
}

/// The string that holds `chars[from..]`.
pub fn string_from_tail(chars: &Vec<char>, from: usize) -> (s: String)
    requires
        from <= chars.len(),
    ensures
        s@ == chars@.skip(from as int),
{
    let mut tail: Vec<char> = Vec::new();
    let mut i: usize = from;
    while i < chars.len()
        invariant
            from <= i <= chars.len(),
            tail@ == chars@.subrange(from as int, i as int),
        decreases chars.len() - i,
    {
        tail.push(chars[i]);
        i = i + 1;
    }
    string_from_chars(tail.as_slice())
}

/// The decimal digit `d`.
pub open spec fn digit(d: nat) -> char
    recommends
        d < 10,
{
    (48 + d) as char
}

/// `n` written in decimal, without leading zeros.
pub open spec fn decimal(n: nat) -> Seq<char>
    decreases n,
{
    if n < 10 {
        seq![digit(n)]
    } else {
        decimal(n / 10).push(digit(n % 10))
    }
}

/// `n` written in decimal, with a minus sign in front if it is negative.
pub open spec fn signed_decimal(n: int) -> Seq<char> {
    if n < 0 {
        seq!['-'] + decimal((-n) as nat)
    } else {
        decimal(n as nat)
    }
}

/// Appends the decimal digits of `n` to `out`.
pub fn push_decimal(out: &mut Vec<char>, n: u64)
    ensures
        final(out)@ == old(out)@ + decimal(n as nat),
    decreases n,
{
    if n >= 10 {
        push_decimal(out, n / 10);
    }
    let d: u8 = (n % 10) as u8;
    let c: char = (48u8 + d) as char;
    out.push(c);
}

/// `n` in decimal.
pub fn decimal_string(n: u64) -> (s: String)
    ensures
        s@ == decimal(n as nat),
{
    let mut digits: Vec<char> = Vec::new();
    push_decimal(&mut digits, n);
    string_from_chars(digits.as_slice())
}

/// `n` in decimal, with its sign.
pub fn signed_decimal_string(n: i64) -> (s: String)
    ensures
        s@ == signed_decimal(n as int),
{
    let mut digits: Vec<char> = Vec::new();
    if n < 0 {
        digits.push('-');
        let magnitude: u64 = if n == i64::MIN {
            9223372036854775808u64
        } else {
            (-n) as u64
        };
        push_decimal(&mut digits, magnitude);
    } else {
        push_decimal(&mut digits, n as u64);
    }
    string_from_chars(digits.as_slice())
}

/// The index of the first `c` in `s`, or the length of `s` where it holds none.
pub open spec fn index_of(s: Seq<char>, c: char) -> int
    decreases s.len(),
{
    if s.len() == 0 {
        0
    } else if s[0] == c {
        0
    } else {
        1 + index_of(s.drop_first(), c)
    }
}

/// What stands in `s` before its first `c`: all of `s` where it holds none.
pub open spec fn before(s: Seq<char>, c: char) -> Seq<char> {
    s.take(index_of(s, c))
}

/// [`index_of`] stays within `s`, points at a `c` unless it is the length,
/// and passes no `c` on its way.
pub proof fn lemma_index_of(s: Seq<char>, c: char)
    ensures
        0 <= index_of(s, c) <= s.len(),
        index_of(s, c) < s.len() ==> s[index_of(s, c)] == c,
        forall|k: int| 0 <= k < index_of(s, c) ==> s[k] != c,
    decreases s.len(),
{
    if s.len() > 0 && s[0] != c {
        lemma_index_of(s.drop_first(), c);
        assert forall|k: int| 0 <= k < index_of(s, c) implies s[k] != c by {
            if k > 0 {
                assert(s[k] == s.drop_first()[k - 1]);
            }
        }
    }
}

/// The first index that holds `c` and has no `c` before it is [`index_of`].
pub proof fn lemma_index_of_unique(s: Seq<char>, c: char, i: int)
    requires
        0 <= i <= s.len(),
        i < s.len() ==> s[i] == c,
        forall|k: int| 0 <= k < i ==> s[k] != c,
    ensures
        index_of(s, c) == i,
{
    lemma_index_of(s, c);
}

/// The position of the first `c` in `chars`, or their number where there is none.
pub fn find_char(chars: &Vec<char>, c: char) -> (i: usize)
    ensures
        i == index_of(chars@, c),
{
    let mut i: usize = 0;
    while i < chars.len() && chars[i] != c
        invariant
            i <= chars.len(),
            forall|k: int| 0 <= k < i ==> chars@[k] != c,
        decreases chars.len() - i,
    {
        i = i + 1;
    }
    proof {
        lemma_index_of_unique(chars@, c, i as int);
    }
    i
}

/// `c` in lower case if it is an ASCII capital letter, else `c` itself.
pub open spec fn ascii_lower(c: char) -> char {
    if 'A' <= c <= 'Z' {
        ((c as u32) + 32) as char
    } else {
        c
    }
}

/// `s` with its ASCII capital letters in lower case.
pub open spec fn to_ascii_lowercase(s: Seq<char>) -> Seq<char> {
    Seq::new(s.len(), |i: int| ascii_lower(s[i]))
}

/// Executable form of [`ascii_lower`].
pub fn char_to_ascii_lower(c: char) -> (lower: char)
    ensures
        lower == ascii_lower(c),
{
    if 'A' <= c && c <= 'Z' {
        let code: u8 = c as u8;
        (code + 32) as char
    } else {
        c
    }
}

/// The characters of `chars` in ASCII lower case.
pub fn lowercase(chars: &Vec<char>) -> (out: Vec<char>)
    ensures
        out@ == to_ascii_lowercase(chars@),
{
    let mut out: Vec<char> = Vec::new();
    let mut i: usize = 0;
    while i < chars.len()
        invariant
            i <= chars.len(),
            out@.len() == i,
            forall|k: int| 0 <= k < i ==> out@[k] == ascii_lower(chars@[k]),
        decreases chars.len() - i,
    {
        out.push(char_to_ascii_lower(chars[i]));
        i = i + 1;
    }
    out
}

/// The parts written one after the other, with `separator` between each two.
pub open spec fn join(parts: Seq<Seq<char>>, separator: Seq<char>) -> Seq<char>
    decreases parts.len(),
{
    if parts.len() == 0 {
        Seq::empty()
    } else if parts.len() == 1 {
        parts[0]
    } else {
        join(parts.drop_last(), separator) + separator + parts.last()
    }
}

/// The texts of a sequence of strings.
pub open spec fn texts_of(strings: Seq<String>) -> Seq<Seq<char>> {
    Seq::new(strings.len(), |i: int| strings[i]@)
}

/// The strings of `parts` written one after the other, with `separator`
/// between each two.
pub fn join_strings(parts: &Vec<String>, separator: &str) -> (joined: String)
    ensures
        joined@ == join(texts_of(parts@), separator@),
{
    let ghost texts = texts_of(parts@);
    let mut joined = String::new();
    let mut i: usize = 0;
    while i < parts.len()
        invariant
            i <= parts.len(),
            texts == texts_of(parts@),
            joined@ == join(texts.take(i as int), separator@),
        decreases parts.len() - i,
    {
        assert(texts.take(i as int + 1).drop_last() == texts.take(i as int));
        if i > 0 {
            joined.append(separator);
        }
        joined.append(parts[i].as_str());
        i = i + 1;
    }
    assert(texts.take(parts@.len() as int) == texts);
    joined
}

/// The number of bytes that `c` takes in UTF-8.
pub open spec fn utf8_width(c: char) -> nat {
    if (c as u32) < 0x80 {
        1
    } else if (c as u32) < 0x800 {
        2
    } else if (c as u32) < 0x10000 {
        3
    } else {
        4
    }
}

/// The number of bytes that `s` takes in UTF-8.
pub open spec fn utf8_len(s: Seq<char>) -> nat
    decreases s.len(),
{
    if s.len() == 0 {
        0
    } else {
        utf8_width(s[0]) + utf8_len(s.drop_first())
    }
}

/// [`utf8_len`] is the length of the UTF-8 encoding, and so what `str::len`
/// returns.
pub proof fn lemma_utf8_len_encoded(s: Seq<char>)
    ensures
        utf8_len(s) == encode_utf8(s).len(),
    decreases s.len(),
{
    if s.len() > 0 {
        lemma_utf8_len_encoded(s.drop_first());
        char_is_scalar(s[0]);
    }
}

/// How many characters at the front of `s` fit together into `max` bytes of
/// UTF-8.
pub open spec fn fitting_chars(s: Seq<char>, max: nat) -> nat
    decreases s.len(),
{
    if s.len() == 0 || utf8_width(s[0]) > max {
        0
    } else {
        1 + fitting_chars(s.drop_first(), (max - utf8_width(s[0])) as nat)
    }
}

/// The longest prefix of `s`, in whole characters, that takes at most `max`
/// bytes in UTF-8.
pub open spec fn truncated(s: Seq<char>, max: nat) -> Seq<char> {
    s.take(fitting_chars(s, max) as int)
}

/// What [`truncated`] cuts to: a prefix within the limit that cannot be
/// made one character longer, and the whole text where that fits.
pub proof fn lemma_truncated(s: Seq<char>, max: nat)
    ensures
        fitting_chars(s, max) <= s.len(),
        truncated(s, max).is_prefix_of(s),
        utf8_len(truncated(s, max)) <= max,
        fitting_chars(s, max) < s.len() ==> utf8_len(s.take(fitting_chars(s, max) as int + 1))
            > max,
        utf8_len(s) <= max ==> truncated(s, max) == s,
    decreases s.len(),
{
    if s.len() > 0 {
        if utf8_width(s[0]) > max {
            assert(utf8_len(s.take(1).drop_first()) == 0);
        } else {
            let rest = s.drop_first();
            let left = (max - utf8_width(s[0])) as nat;
            lemma_truncated(rest, left);
            let k = fitting_chars(rest, left) as int;
            assert(s.take(k + 1).drop_first() =~= rest.take(k));
            if k < rest.len() {
                assert(s.take(k + 2).drop_first() =~= rest.take(k + 1));
            }
        }
    }
}

/// Executable form of [`utf8_width`].
pub fn char_utf8_width(c: char) -> (width: usize)
    ensures
        width == utf8_width(c),
{
    let code: u32 = c as u32;
    if code < 0x80 {
        1
    } else if code < 0x800 {
        2
    } else if code < 0x10000 {
        3
    } else {
        4
    }
}

/// Cuts `text` to at most `max_len` bytes of UTF-8 without splitting a
/// character: the result is the longest prefix of whole characters that fits.
pub fn truncate_utf8(text: &str, max_len: usize) -> (cut: &str)
    ensures
        cut@ == truncated(text@, max_len as nat),
        cut@.is_prefix_of(text@),
        cut.spec_bytes().len() <= max_len,
        text.spec_bytes().len() <= max_len ==> cut@ == text@,
{
    let chars = chars_of(text);
    let mut count: usize = 0;
    let mut used: usize = 0;
    let mut full: bool = false;
    assert(text@.skip(0) == text@);
    while count < chars.len() && !full
        invariant
            count <= chars.len(),
            used <= max_len,
            chars@ == text@,
            fitting_chars(text@, max_len as nat) == count + fitting_chars(
                text@.skip(count as int),
                (max_len - used) as nat,
            ),
            full ==> count < chars.len() && utf8_width(text@[count as int]) > max_len - used,
        decreases chars.len() - count + if full { 0int } else { 1int },
    {
        let width = char_utf8_width(chars[count]);
        if width > max_len - used {
            full = true;
        } else {
            assert(text@.skip(count as int).drop_first() == text@.skip(count as int + 1));
            used = used + width;
            count = count + 1;
        }
    }
    proof {
        lemma_truncated(text@, max_len as nat);
        lemma_utf8_len_encoded(text@);
        lemma_utf8_len_encoded(truncated(text@, max_len as nat));
    }
    text.substring_char(0, count)
}

} // verus!
