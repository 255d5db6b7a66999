//! Strings as sequences of characters: trimming and rebuilding.

use crate::trusted::{char_is_whitespace, is_white_space, push_char};
use vstd::prelude::*;

verus! {

/// The first position at or after `i` that holds no white space; the length
/// of `s` where there is none.
pub open spec fn first_non_space(s: Seq<char>, i: int) -> int
    decreases s.len() - i,
{
    if i < 0 || i >= s.len() {
        s.len() as int
    } else if !is_white_space(s[i]) {
        i
    } else {
        first_non_space(s, i + 1)
    }
}

/// The end of the last run without trailing white space: the least `j`
/// between `lo` and the given `j` such that only white space follows.
pub open spec fn last_non_space_end(s: Seq<char>, lo: int, j: int) -> int
    decreases j,
{
    if j <= lo || j <= 0 {
        lo
    } else if !is_white_space(s[j - 1]) {
        j
    } else {
        last_non_space_end(s, lo, j - 1)
    }
}

/// The text without leading and trailing white space.
pub open spec fn trimmed(s: Seq<char>) -> Seq<char> {
    let start = first_non_space(s, 0);
    s.subrange(start, last_non_space_end(s, start, s.len() as int))
}

/// The end of the text once every trailing `c` is dropped, looking below `j`.
pub open spec fn trailing_end(s: Seq<char>, c: char, j: int) -> int
    decreases j,
{
    if j <= 0 {
        0
    } else if s[j - 1] != c {
        j
    } else {
        trailing_end(s, c, j - 1)
    }
}

/// The first position at or after `i` that does not hold `c`; the length of
/// `s` where there is none.
pub open spec fn first_other(s: Seq<char>, c: char, i: int) -> int
    decreases s.len() - i,
{
    if i < 0 || i >= s.len() {
        s.len() as int
    } else if s[i] != c {
        i
    } else {
        first_other(s, c, i + 1)
    }
}

/// The least end between `lo` and `j` after which only `c` follows.
pub open spec fn last_other_end(s: Seq<char>, c: char, lo: int, j: int) -> int
    decreases j,
{
    if j <= lo || j <= 0 {
        lo
    } else if s[j - 1] != c {
        j
    } else {
        last_other_end(s, c, lo, j - 1)
    }
}

/// The text without any repetition of `c` at its start and at its end.
pub open spec fn without_surrounding(s: Seq<char>, c: char) -> Seq<char> {
    let start = first_other(s, c, 0);
    s.subrange(start, last_other_end(s, c, start, s.len() as int))
}

/// The text without any trailing repetition of `c`.
pub open spec fn without_trailing(s: Seq<char>, c: char) -> Seq<char> {
    s.subrange(0, trailing_end(s, c, s.len() as int))
}

/// The text from `start` up to the line feed at `end`, without the carriage
/// return that may stand before the line feed.
pub open spec fn line_text(s: Seq<char>, start: int, end: int) -> Seq<char> {
    if end > start && s[end - 1] == '\r' {
        s.subrange(start, end - 1)
    } else {
        s.subrange(start, end)
    }
}

/// The lines of `s` from position `i` on, the current line having begun at
/// `start`.
pub open spec fn lines_scan(s: Seq<char>, start: int, i: int) -> Seq<Seq<char>>
    decreases s.len() - i,
{
    if i < 0 || i >= s.len() {
        if 0 <= start < s.len() {
            seq![s.subrange(start, s.len() as int)]
        } else {
            Seq::empty()
        }
    } else if s[i] == '\n' {
        seq![line_text(s, start, i)] + lines_scan(s, i + 1, i + 1)
    } else {
        lines_scan(s, start, i + 1)
    }
}

/// The lines of a text. A line ends at a line feed, which is not part of it,
/// nor is a carriage return just before the line feed. What follows the last
/// line feed is a line of its own unless it is empty.
pub open spec fn lines_of(s: Seq<char>) -> Seq<Seq<char>> {
    lines_scan(s, 0, 0)
}

/// The ten decimal digits.
pub open spec fn decimal_digits() -> Seq<char> {
    seq!['0', '1', '2', '3', '4', '5', '6', '7', '8', '9']
}

/// The decimal digits of a natural number, without leading zeros.
pub open spec fn digits(n: nat) -> Seq<char>
    decreases n,
{
    if n < 10 {
        seq![decimal_digits()[n as int]]
    } else {
        digits(n / 10).push(decimal_digits()[(n % 10) as int])
    }
}

/// The decimal form of an integer, with a minus sign where it is negative.
pub open spec fn decimal(n: int) -> Seq<char> {
    if n < 0 {
        seq!['-'] + digits((-n) as nat)
    } else {
        digits(n as nat)
    }
}

/// The first `n` characters of a text with each `from` replaced by `to`.
pub open spec fn replaced(s: Seq<char>, from: char, to: Seq<char>, n: nat) -> Seq<char>
    decreases n,
{
    if n == 0 {
        Seq::empty()
    } else if s[n - 1] == from {
        replaced(s, from, to, (n - 1) as nat) + to
    } else {
        replaced(s, from, to, (n - 1) as nat).push(s[n - 1])
    }
}

/// Whether `pattern` stands in `s` at position `i`.
pub open spec fn stands_at(s: Seq<char>, pattern: Seq<char>, i: int) -> bool {
    0 <= i && i + pattern.len() <= s.len() && s.subrange(i, i + pattern.len()) == pattern
}

/// The position after every repetition of `pattern` that stands at `i`.
pub open spec fn after_prefixes(s: Seq<char>, pattern: Seq<char>, i: int) -> int
    decreases s.len() - i,
{
    if pattern.len() > 0 && stands_at(s, pattern, i) {
        after_prefixes(s, pattern, i + pattern.len())
    } else {
        i
    }
}

/// The first position at or after `i` that holds `c`; the length of `s`
/// where there is none.
pub open spec fn position_of(s: Seq<char>, c: char, i: int) -> int
    decreases s.len() - i,
{
    if i < 0 || i >= s.len() {
        s.len() as int
    } else if s[i] == c {
        i
    } else {
        position_of(s, c, i + 1)
    }
}

/// The characters of a string, in order.
pub fn chars_of(s: &str) -> (r: Vec<char>)
    ensures
        r@ == s@,
{
    let mut r: Vec<char> = Vec::new();
    for c in it: s.chars()
        invariant
            it.seq() == s@,
            r@ == it.seq().take(it.index()),
    {
        r.push(c);
        assert(r@ =~= it.seq().take(it.index() + 1));
    }
    assert(r@ =~= s@);
    r
}

/// The string made of the characters from `from` up to `to`.
pub fn string_of(chars: &Vec<char>, from: usize, to: usize) -> (r: String)
    requires
        from <= to <= chars@.len(),
    ensures
        r@ == chars@.subrange(from as int, to as int),
{
    let mut r = String::new();
    let mut i: usize = from;
    assert(r@ =~= chars@.subrange(from as int, from as int));
    while i < to
        invariant
            from <= i <= to,
            to <= chars@.len(),
            r@ == chars@.subrange(from as int, i as int),
        decreases to - i,
    {
        push_char(&mut r, chars[i]);
        assert(r@ =~= chars@.subrange(from as int, i + 1));
        i = i + 1;
    }
    r
}

/// The string without leading and trailing white space.
pub fn trim(s: &str) -> (r: String)
    ensures
        r@ == trimmed(s@),
{
    let chars = chars_of(s);
    let mut start: usize = 0;
    while start < chars.len() && char_is_whitespace(chars[start])
        invariant
            start <= chars@.len(),
            first_non_space(chars@, 0) == first_non_space(chars@, start as int),
        decreases chars.len() - start,
    {
        start = start + 1;
    }
    let mut end: usize = chars.len();
    while end > start && char_is_whitespace(chars[end - 1])
        invariant
            start <= end <= chars@.len(),
            last_non_space_end(chars@, start as int, chars@.len() as int) == last_non_space_end(
                chars@,
                start as int,
                end as int,
            ),
        decreases end,
    {
        end = end - 1;
    }
    string_of(&chars, start, end)
}

/// The string without any repetition of `c` at its start and at its end.
pub fn trim_matches(s: &str, c: char) -> (r: String)
    ensures
        r@ == without_surrounding(s@, c),
{
    let chars = chars_of(s);
    let mut start: usize = 0;
    while start < chars.len() && chars[start] == c
        invariant
            start <= chars@.len(),
            first_other(chars@, c, 0) == first_other(chars@, c, start as int),
        decreases chars.len() - start,
    {
        start = start + 1;
    }
    let mut end: usize = chars.len();
    while end > start && chars[end - 1] == c
        invariant
            start <= end <= chars@.len(),
            last_other_end(chars@, c, start as int, chars@.len() as int) == last_other_end(
                chars@,
                c,
                start as int,
                end as int,
            ),
        decreases end,
    {
        end = end - 1;
    }
    string_of(&chars, start, end)
}

/// The string without any trailing repetition of `c`.
pub fn trim_end_matches(s: &str, c: char) -> (r: String)
    ensures
        r@ == without_trailing(s@, c),
{
    let chars = chars_of(s);
    let mut end: usize = chars.len();
    while end > 0 && chars[end - 1] == c
        invariant
            end <= chars@.len(),
            trailing_end(chars@, c, chars@.len() as int) == trailing_end(chars@, c, end as int),
        decreases end,
    {
        end = end - 1;
    }
    string_of(&chars, 0, end)
}

/// Whether `pattern` stands in `chars` at position `i`.
pub fn pattern_at(chars: &Vec<char>, pattern: &Vec<char>, i: usize) -> (r: bool)
    ensures
        r == stands_at(chars@, pattern@, i as int),
{
    if pattern.len() > chars.len() || i > chars.len() - pattern.len() {
        return false;
    }
    let total: usize = chars.len();
    let mut k: usize = 0;
    while k < pattern.len()
        invariant
            k <= pattern@.len(),
            i + pattern@.len() <= chars@.len(),
            total == chars@.len(),
            forall|j: int| 0 <= j < k ==> chars@[i + j] == pattern@[j],
        decreases pattern.len() - k,
    {
        if chars[i + k] != pattern[k] {
            assert(chars@.subrange(i as int, i + pattern@.len())[k as int] != pattern@[k as int]);
            return false;
        }
        k = k + 1;
    }
    assert(chars@.subrange(i as int, i + pattern@.len()) =~= pattern@);
    true
}

/// The position after every repetition of `pattern` that stands at `from`.
pub fn skip_prefixes(chars: &Vec<char>, pattern: &Vec<char>, from: usize) -> (r: usize)
    requires
        from <= chars@.len(),
    ensures
        r == after_prefixes(chars@, pattern@, from as int),
        from <= r <= chars@.len(),
{
    let mut i: usize = from;
    if pattern.len() == 0 {
        return i;
    }
    let total: usize = chars.len();
    while pattern_at(chars, pattern, i)
        invariant
            from <= i <= chars@.len(),
            pattern@.len() > 0,
            total == chars@.len(),
            after_prefixes(chars@, pattern@, from as int) == after_prefixes(chars@, pattern@, i as int),
        decreases chars@.len() - i,
    {
        i = i + pattern.len();
    }
    i
}

/// The first position at or after `from` that holds `c`; the length where
/// there is none.
pub fn find_char(chars: &Vec<char>, c: char, from: usize) -> (r: usize)
    requires
        from <= chars@.len(),
    ensures
        r == position_of(chars@, c, from as int),
        from <= r <= chars@.len(),
        r < chars@.len() ==> chars@[r as int] == c,
{
    let mut i: usize = from;
    while i < chars.len() && chars[i] != c
        invariant
            from <= i <= chars@.len(),
            position_of(chars@, c, from as int) == position_of(chars@, c, i as int),
        decreases chars.len() - i,
    {
        i = i + 1;
    }
    i
}

/// The lines of a text.
pub fn split_lines(text: &str) -> (lines: Vec<String>)
    ensures
        lines.deep_view() == lines_of(text@),
{
    let chars = chars_of(text);
    let mut lines: Vec<String> = Vec::new();
    let mut start: usize = 0;
    let mut i: usize = 0;
    assert(lines.deep_view() =~= Seq::<Seq<char>>::empty());
    assert(lines.deep_view() + lines_scan(chars@, 0, 0) =~= lines_of(chars@));
    while i < chars.len()
        invariant
            start <= i <= chars@.len(),
            lines.deep_view() + lines_scan(chars@, start as int, i as int) == lines_of(chars@),
        decreases chars.len() - i,
    {
        let ghost before = lines.deep_view();
        if chars[i] == '\n' {
            let end = if i > start && chars[i - 1] == '\r' {
                i - 1
            } else {
                i
            };
            let line = string_of(&chars, start, end);
            lines.push(line);
            assert(lines.deep_view() =~= before.push(line_text(chars@, start as int, i as int)));
            assert(before + (seq![line_text(chars@, start as int, i as int)] + lines_scan(
                chars@,
                i + 1,
                i + 1,
            )) =~= before.push(line_text(chars@, start as int, i as int)) + lines_scan(
                chars@,
                i + 1,
                i + 1,
            ));
            start = i + 1;
        }
        i = i + 1;
    }
    if start < chars.len() {
        let ghost before = lines.deep_view();
        let line = string_of(&chars, start, chars.len());
        lines.push(line);
        assert(lines.deep_view() =~= before.push(chars@.subrange(start as int, chars@.len() as int)));
        assert(before + seq![chars@.subrange(start as int, chars@.len() as int)] =~= before.push(
            chars@.subrange(start as int, chars@.len() as int),
        ));
    } else {
        assert(lines.deep_view() + Seq::<Seq<char>>::empty() =~= lines.deep_view());
    }
    lines
}

fn digit_char(d: u64) -> (c: char)
    requires
        d < 10,
    ensures
        c == decimal_digits()[d as int],
{
    if d == 0 {
        '0'
    } else if d == 1 {
        '1'
    } else if d == 2 {
        '2'
    } else if d == 3 {
        '3'
    } else if d == 4 {
        '4'
    } else if d == 5 {
        '5'
    } else if d == 6 {
        '6'
    } else if d == 7 {
        '7'
    } else if d == 8 {
        '8'
    } else {
        '9'
    }
}

/// Appends the decimal digits of a number to a string.
pub fn push_digits(text: &mut String, n: u64)
    ensures
        final(text)@ == old(text)@ + digits(n as nat),
    decreases n,
{
    if n >= 10 {
        push_digits(text, n / 10);
    }
    push_char(text, digit_char(n % 10));
    assert(text@ =~= old(text)@ + digits(n as nat));
}

/// The decimal form of a number.
pub fn decimal_text(n: i64) -> (r: String)
    ensures
        r@ == decimal(n as int),
{
    let mut r = String::new();
    if n < 0 {
        push_char(&mut r, '-');
        let magnitude: u64 = if n == i64::MIN {
            9223372036854775808
        } else {
            (0 - n) as u64
        };
        push_digits(&mut r, magnitude);
        assert(r@ =~= decimal(n as int));
    } else {
        push_digits(&mut r, n as u64);
        assert(r@ =~= decimal(n as int));
    }
    r
}

/// The string with each `from` replaced by `to`.
pub fn replace_char(text: &str, from: char, to: &str) -> (r: String)
    ensures
        r@ == replaced(text@, from, to@, text@.len()),
{
    let chars = chars_of(text);
    let mut r = String::new();
    let mut i: usize = 0;
    assert(r@ =~= replaced(chars@, from, to@, 0));
    while i < chars.len()
        invariant
            i <= chars@.len(),
            r@ == replaced(chars@, from, to@, i as nat),
        decreases chars.len() - i,
    {
        if chars[i] == from {
            r.append(to);
        } else {
            push_char(&mut r, chars[i]);
        }
        i = i + 1;
    }
    r
}

/// What trimming leaves neither starts nor ends with white space, and is a
/// part of the text with nothing but white space around it.
pub proof fn lemma_trimmed(s: Seq<char>)
    ensures
        trimmed(s).len() > 0 ==> !is_white_space(trimmed(s)[0]) && !is_white_space(trimmed(s).last()),
        trimmed(s).len() <= s.len(),
        (forall|i: int| 0 <= i < s.len() ==> !is_white_space(#[trigger] s[i])) ==> trimmed(s) == s,
{
    lemma_first_non_space(s, 0);
    let start = first_non_space(s, 0);
    lemma_last_non_space_end(s, start, s.len() as int);
    if forall|i: int| 0 <= i < s.len() ==> !is_white_space(#[trigger] s[i]) {
        assert(trimmed(s) =~= s);
    }
}

/// Where `first_non_space` lands.
pub proof fn lemma_first_non_space(s: Seq<char>, i: int)
    requires
        0 <= i <= s.len(),
    ensures
        i <= first_non_space(s, i) <= s.len(),
        first_non_space(s, i) < s.len() ==> !is_white_space(s[first_non_space(s, i)]),
        forall|k: int| i <= k < first_non_space(s, i) ==> is_white_space(#[trigger] s[k]),
    decreases s.len() - i,
{
    if i < s.len() && is_white_space(s[i]) {
        lemma_first_non_space(s, i + 1);
    }
}

/// Where `last_non_space_end` lands.
pub proof fn lemma_last_non_space_end(s: Seq<char>, lo: int, j: int)
    requires
        0 <= lo <= j <= s.len(),
    ensures
        lo <= last_non_space_end(s, lo, j) <= j,
        last_non_space_end(s, lo, j) > lo ==> !is_white_space(s[last_non_space_end(s, lo, j) - 1]),
        forall|k: int| last_non_space_end(s, lo, j) <= k < j ==> is_white_space(#[trigger] s[k]),
    decreases j,
{
    if j > lo && is_white_space(s[j - 1]) {
        lemma_last_non_space_end(s, lo, j - 1);
    }
}

/// What is left once trailing `c` are dropped does not end with `c`, and a
/// text that does not end with `c` is left as it is.
pub proof fn lemma_without_trailing(s: Seq<char>, c: char)
    ensures
        without_trailing(s, c).len() > 0 ==> without_trailing(s, c).last() != c,
        without_trailing(s, c).len() <= s.len(),
        s.len() > 0 && s.last() != c ==> without_trailing(s, c) == s,
        s.len() == 0 ==> without_trailing(s, c) == s,
{
    lemma_trailing_end(s, c, s.len() as int);
    if s.len() == 0 || s.last() != c {
        assert(without_trailing(s, c) =~= s);
    }
}

/// Where `trailing_end` lands.
pub proof fn lemma_trailing_end(s: Seq<char>, c: char, j: int)
    requires
        0 <= j <= s.len(),
    ensures
        0 <= trailing_end(s, c, j) <= j,
        trailing_end(s, c, j) > 0 ==> s[trailing_end(s, c, j) - 1] != c,
    decreases j,
{
    if j > 0 && s[j - 1] == c {
        lemma_trailing_end(s, c, j - 1);
    }
}

} // verus!
