//! Sequences of characters: occurrence of one sequence inside another, and
//! the conversions between strings and character buffers that the rest of
//! the crate is written over.

use vstd::prelude::*;
use vstd::string::StringExecFns;

verus! {

/// `needle` stands in `hay` at offset `at`.
pub open spec fn occurs_at(hay: Seq<char>, needle: Seq<char>, at: int) -> bool {
    &&& 0 <= at
    &&& at + needle.len() <= hay.len()
    &&& hay.subrange(at, at + needle.len()) == needle
}

/// `needle` stands somewhere in `hay`.
pub open spec fn contains(hay: Seq<char>, needle: Seq<char>) -> bool {
    exists|at: int| occurs_at(hay, needle, at)
}

/// `at` is the leftmost offset at which `needle` stands in `hay`.
pub open spec fn is_first_occurrence(hay: Seq<char>, needle: Seq<char>, at: int) -> bool {
    &&& occurs_at(hay, needle, at)
    &&& forall|earlier: int| 0 <= earlier < at ==> !occurs_at(hay, needle, earlier)
}

/// The leftmost offset at which `needle` stands in `hay`; meaningful only
/// where `contains(hay, needle)`.
pub open spec fn first_occurrence(hay: Seq<char>, needle: Seq<char>) -> int {
    choose|at: int| is_first_occurrence(hay, needle, at)
}

/// There is only one leftmost occurrence, so `first_occurrence` names it.
pub proof fn lemma_first_occurrence_unique(hay: Seq<char>, needle: Seq<char>, at: int)
    requires
        is_first_occurrence(hay, needle, at),
    ensures
        first_occurrence(hay, needle) == at,
        contains(hay, needle),
{
    let chosen = first_occurrence(hay, needle);
    assert(is_first_occurrence(hay, needle, chosen));
    if chosen < at {
        assert(!occurs_at(hay, needle, chosen));
    } else if at < chosen {
        assert(!occurs_at(hay, needle, at));
    }
}

/// Before any occurrence there is a leftmost one.
proof fn lemma_leftmost_before(hay: Seq<char>, needle: Seq<char>, at: int)
    requires
        occurs_at(hay, needle, at),
    ensures
        exists|first: int| is_first_occurrence(hay, needle, first),
    decreases at,
{
    if exists|earlier: int| 0 <= earlier < at && occurs_at(hay, needle, earlier) {
        let earlier = choose|earlier: int| 0 <= earlier < at && occurs_at(hay, needle, earlier);
        lemma_leftmost_before(hay, needle, earlier);
    } else {
        assert(is_first_occurrence(hay, needle, at));
    }
}

/// Where `needle` stands in `hay`, `first_occurrence` is its leftmost
/// occurrence.
pub proof fn lemma_first_occurrence_exists(hay: Seq<char>, needle: Seq<char>)
    requires
        contains(hay, needle),
    ensures
        is_first_occurrence(hay, needle, first_occurrence(hay, needle)),
{
    let at = choose|at: int| occurs_at(hay, needle, at);
    lemma_leftmost_before(hay, needle, at);
}

/// The part of `hay` between the offsets `from` and `to`.
pub open spec fn window(hay: Seq<char>, from: int, to: int) -> Seq<char> {
    hay.subrange(from, to)
}

/// Unicode `White_Space`: what trimming removes.
pub open spec fn is_whitespace(c: char) -> bool {
    ||| '\u{9}' <= c <= '\u{d}'
    ||| c == ' '
    ||| c == '\u{85}'
    ||| c == '\u{a0}'
    ||| c == '\u{1680}'
    ||| '\u{2000}' <= c <= '\u{200a}'
    ||| c == '\u{2028}'
    ||| c == '\u{2029}'
    ||| c == '\u{202f}'
    ||| c == '\u{205f}'
    ||| c == '\u{3000}'
}

/// `at` is the offset of the first character of `s` that is no white space.
pub open spec fn is_trim_start(s: Seq<char>, at: int) -> bool {
    &&& 0 <= at <= s.len()
    &&& forall|i: int| 0 <= i < at ==> is_whitespace(#[trigger] s[i])
    &&& at < s.len() ==> !is_whitespace(s[at])
}

/// Leading white space ends at one place only.
pub proof fn lemma_trim_start_unique(s: Seq<char>, a: int, b: int)
    requires
        is_trim_start(s, a),
        is_trim_start(s, b),
    ensures
        a == b,
{
    if a < b {
        assert(is_whitespace(s[a]));
    } else if b < a {
        assert(is_whitespace(s[b]));
    }
}

/// `s`, once its leading white space is trimmed, begins with `c`.
pub open spec fn trimmed_starts_with(s: Seq<char>, c: char) -> bool {
    exists|at: int| 0 <= at < s.len() && #[trigger] is_trim_start(s, at) && s[at] == c
}

/// Whether `c` is white space.
pub fn char_is_whitespace(c: char) -> (r: bool)
    ensures
        r == is_whitespace(c),
{
    ('\u{9}' <= c && c <= '\u{d}') || c == ' ' || c == '\u{85}' || c == '\u{a0}' || c
        == '\u{1680}' || ('\u{2000}' <= c && c <= '\u{200a}') || c == '\u{2028}' || c
        == '\u{2029}' || c == '\u{202f}' || c == '\u{205f}' || c == '\u{3000}'
}

/// Whether `needle` stands in `hay` at offset `at`.
pub(crate) fn matches_at(hay: &[char], needle: &[char], at: usize) -> (r: bool)
    requires
        at + needle@.len() <= hay@.len(),
    ensures
        r == occurs_at(hay@, needle@, at as int),
{
    let n = needle.len();
    let len = hay.len();
    let mut k: usize = 0;
    while k < n
        invariant
            n == needle@.len(),
            len == hay@.len(),
            at + n <= len,
            k <= n,
            forall|j: int| 0 <= j < k ==> hay@[at + j] == needle@[j],
        decreases n - k,
    {
        if hay[at + k] != needle[k] {
            proof {
                assert(hay@.subrange(at as int, at + n)[k as int] == hay@[at + k]);
            }
            return false;
        }
        k += 1;
    }
    proof {
        assert(hay@.subrange(at as int, at + n) =~= needle@);
    }
    true
}

/// The leftmost occurrence of `needle` in the part of `hay` between `from`
/// and `to`, as an offset into `hay`.
pub(crate) fn find_within(hay: &[char], from: usize, to: usize, needle: &[char]) -> (r: Option<
    usize,
>)
    requires
        from <= to <= hay@.len(),
    ensures
        match r {
            Some(at) => from <= at && at + needle@.len() <= to && is_first_occurrence(
                window(hay@, from as int, to as int),
                needle@,
                at - from,
            ),
            None => !contains(window(hay@, from as int, to as int), needle@),
        },
{
    let n = needle.len();
    let ghost part = window(hay@, from as int, to as int);
    if to - from < n {
        return None;
    }
    let last = to - n;
    let mut at = from;
    loop
        invariant
            from <= to <= hay@.len(),
            n == needle@.len(),
            n <= to - from,
            last == to - n,
            from <= at <= last,
            part == window(hay@, from as int, to as int),
            forall|earlier: int| 0 <= earlier < at - from ==> !occurs_at(part, needle@, earlier),
        decreases last - at,
    {
        proof {
            assert(part.subrange(at - from, at - from + n) =~= hay@.subrange(at as int, at + n));
        }
        if matches_at(hay, needle, at) {
            return Some(at);
        }
        if at == last {
            return None;
        }
        at += 1;
    }
}

/// The leftmost occurrence of `needle` in `hay`.
pub fn find(hay: &[char], needle: &[char]) -> (r: Option<usize>)
    ensures
        match r {
            Some(at) => is_first_occurrence(hay@, needle@, at as int),
            None => !contains(hay@, needle@),
        },
{
    assert(window(hay@, 0, hay@.len() as int) =~= hay@);
    find_within(hay, 0, hay.len(), needle)
}

/// The offset of the first character of `s` between `from` and `to` that is
/// no white space, or `to` where there is none.
pub(crate) fn skip_whitespace(s: &[char], to: usize) -> (at: usize)
    requires
        to <= s@.len(),
    ensures
        is_trim_start(s@.take(to as int), at as int),
{
    let mut at: usize = 0;
    while at < to && char_is_whitespace(s[at])
        invariant
            to <= s@.len(),
            at <= to,
            forall|i: int| 0 <= i < at ==> is_whitespace(#[trigger] s@.take(to as int)[i]),
        decreases to - at,
    {
        at += 1;
    }
    at
}

/// The character that stands for a digit below ten.
pub open spec fn digit(d: nat) -> char {
    if d == 0 {
        '0'
    } else if d == 1 {
        '1'
    } else if d == 2 {
        '2'
    } else if d == 3 {
        '3'
    } else if d == 4 {
        '4'
    } else if d == 5 {
        '5'
    } else if d == 6 {
        '6'
    } else if d == 7 {
        '7'
    } else if d == 8 {
        '8'
    } else {
        '9'
    }
}

/// A number written in decimal, without leading zeros.
pub open spec fn decimal(n: nat) -> Seq<char>
    decreases n,
{
    if n < 10 {
        seq![digit(n)]
    } else {
        decimal(n / 10).push(digit(n % 10))
    }
}

/// `String::push` appends one character to the string.
pub assume_specification[ std::string::String::push ](s: &mut std::string::String, c: char)
    ensures
        final(s)@ == old(s)@.push(c),
;

/// The characters of `chars` between `from` and `to`, as a string.
pub(crate) fn string_of(chars: &[char], from: usize, to: usize) -> (r: String)
    requires
        from <= to <= chars@.len(),
    ensures
        r@ == chars@.subrange(from as int, to as int),
{
    let mut r = String::new();
    let mut at = from;
    while at < to
        invariant
            from <= at <= to <= chars@.len(),
            r@ == chars@.subrange(from as int, at as int),
        decreases to - at,
    {
        r.push(chars[at]);
        at += 1;
        assert(r@ =~= chars@.subrange(from as int, at as int));
    }
    r
}

/// The text that ends a line.
pub open spec fn newline() -> Seq<char> {
    seq!['\n']
}

/// A line without the carriage return that may end it.
pub open spec fn without_return(line: Seq<char>) -> Seq<char> {
    if line.len() > 0 && line.last() == '\r' {
        line.drop_last()
    } else {
        line
    }
}

/// The lines of a text.
///
/// A line ends at a line feed, or at a carriage return followed by a line
/// feed; neither belongs to the line. What follows the last line feed is a
/// line of its own, unless it is empty.
pub open spec fn lines_of(text: Seq<char>) -> Seq<Seq<char>>
    decreases text.len(),
    via lines_of_decreases
{
    if text.len() == 0 {
        Seq::empty()
    } else if contains(text, newline()) {
        let at = first_occurrence(text, newline());
        seq![without_return(text.take(at))] + lines_of(text.skip(at + 1))
    } else {
        seq![text]
    }
}

#[via_fn]
proof fn lines_of_decreases(text: Seq<char>) {
    if text.len() != 0 && contains(text, newline()) {
        lemma_first_occurrence_exists(text, newline());
    }
}

/// Splits a text into its lines.
pub fn split_lines(text: &str) -> (lines: Vec<String>)
    ensures
        lines.deep_view() == lines_of(text@),
{
    let chars = chars_of(text);
    let feed: Vec<char> = vec!['\n'];
    assert(feed@ =~= newline());
    let len = chars.len();
    let mut lines: Vec<String> = Vec::new();
    let mut start: usize = 0;
    assert(chars@.skip(0) =~= chars@);
    assert(lines.deep_view() =~= Seq::empty());
    while start < len
        invariant
            chars@ == text@,
            len == chars@.len(),
            feed@ == newline(),
            start <= len,
            lines_of(text@) == lines.deep_view() + lines_of(chars@.skip(start as int)),
        decreases len - start,
    {
        let ghost rest = chars@.skip(start as int);
        let ghost done = lines.deep_view();
        assert(rest == window(chars@, start as int, len as int));
        match find_within(chars.as_slice(), start, len, feed.as_slice()) {
            None => {
                let line = string_of(chars.as_slice(), start, len);
                lines.push(line);
                assert(lines.deep_view() =~= done.push(rest));
                start = len;
                assert(lines_of(chars@.skip(len as int)) =~= Seq::empty());
            },
            Some(at) => {
                proof {
                    lemma_first_occurrence_unique(rest, newline(), at - start);
                    assert(rest.take(at - start) =~= chars@.subrange(start as int, at as int));
                    assert(rest.skip(at - start + 1) =~= chars@.skip(at + 1));
                }
                let end = if at > start && chars[at - 1] == '\r' {
                    at - 1
                } else {
                    at
                };
                let line = string_of(chars.as_slice(), start, end);
                assert(line@ =~= without_return(rest.take(at - start)));
                lines.push(line);
                assert(lines.deep_view() =~= done.push(line@));
                start = at + 1;
            },
        }
    }
    assert(lines_of(chars@.skip(start as int)) =~= Seq::empty());
    lines
}

/// The one-character text of a digit below ten.
fn digit_text(d: u64) -> (r: &'static str)
    requires
        d < 10,
    ensures
        r@ == seq![digit(d as nat)],
{
    proof {
        reveal_strlit("0");
        reveal_strlit("1");
        reveal_strlit("2");
        reveal_strlit("3");
        reveal_strlit("4");
        reveal_strlit("5");
        reveal_strlit("6");
        reveal_strlit("7");
        reveal_strlit("8");
        reveal_strlit("9");
    }
    let r = if d == 0 {
        "0"
    } else if d == 1 {
        "1"
    } else if d == 2 {
        "2"
    } else if d == 3 {
        "3"
    } else if d == 4 {
        "4"
    } else if d == 5 {
        "5"
    } else if d == 6 {
        "6"
    } else if d == 7 {
        "7"
    } else if d == 8 {
        "8"
    } else {
        "9"
    };
    assert(r@ =~= seq![digit(d as nat)]);
    r
}

/// Writes a number in decimal.
pub fn decimal_string(n: u64) -> (r: String)
    ensures
        r@ == decimal(n as nat),
    decreases n,
{
    if n < 10 {
        String::from_str(digit_text(n))
    } else {
        let mut r = decimal_string(n / 10);
        r.append(digit_text(n % 10));
        assert(r@ =~= decimal(n as nat));
        r
    }
}

/// The characters of a string, as a buffer that can be indexed.
pub fn chars_of(s: &str) -> (chars: Vec<char>)
    ensures
        chars@ == s@,
{
    let mut chars: Vec<char> = Vec::new();
    let it = s.chars();
    for c in iter: it
        invariant
            iter.seq() == s@,
            chars@ == s@.take(iter.index()),
    {
        chars.push(c);
    }
    assert(s@.take(s@.len() as int) == s@);
    chars
}

} // verus!
