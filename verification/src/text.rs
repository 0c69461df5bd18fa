//! Building blocks for the emitted source text.
//!
//! Text is modelled as `Seq<char>`; every function here says which sequence
//! it produces.

use vstd::prelude::*;
use vstd::string::*;

verus! {

/// Appends one character to `s`.
///
/// Trusted: stands for `String::push`, which the standard library documents
/// as appending the given character to the end of the string.
#[verifier::external_body]
pub(crate) fn push_char(s: &mut String, c: char)
    ensures
        final(s)@ == old(s)@.push(c),
{
    s.push(c);
}

/// The character that writes the digit `d` in lower-case hexadecimal.
pub open spec fn digit_char(d: nat) -> char {
    if d < 10 {
        (('0' as u8) + d) as u8 as char
    } else {
        (('a' as u8) + (d - 10)) as u8 as char
    }
}

/// The decimal digits of `n`, most significant first, without leading
/// zeros; zero is written as a single `0`.
pub open spec fn decimal_text(n: nat) -> Seq<char>
    decreases n,
{
    if n < 10 {
        seq![digit_char(n)]
    } else {
        decimal_text(n / 10).push(digit_char(n % 10))
    }
}

/// The lower-case hexadecimal digits of `n`, most significant first, without
/// leading zeros; zero is written as a single `0`.
pub open spec fn hex_digits_text(n: nat) -> Seq<char>
    decreases n,
{
    if n < 16 {
        seq![digit_char(n)]
    } else {
        hex_digits_text(n / 16).push(digit_char(n % 16))
    }
}

/// `n` in lower-case hexadecimal with the prefix `0x`.
pub open spec fn hex_text(n: nat) -> Seq<char> {
    seq!['0', 'x'] + hex_digits_text(n)
}

fn digit_of(d: u64) -> (c: char)
    requires
        d < 16,
    ensures
        c == digit_char(d as nat),
{
    let d = d as u8;
    if d < 10 {
        (('0' as u8) + d) as char
    } else {
        (('a' as u8) + (d - 10)) as char
    }
}

/// Appends `n` in decimal to `s`.
pub fn append_decimal(s: &mut String, n: u64)
    ensures
        final(s)@ == old(s)@ + decimal_text(n as nat),
    decreases n,
{
    if n >= 10 {
        append_decimal(s, n / 10);
    }
    push_char(s, digit_of(n % 10));
}

fn append_hex_digits(s: &mut String, n: u64)
    ensures
        final(s)@ == old(s)@ + hex_digits_text(n as nat),
    decreases n,
{
    if n >= 16 {
        append_hex_digits(s, n / 16);
    }
    push_char(s, digit_of(n % 16));
}

/// Appends `n` in lower-case hexadecimal, with the prefix `0x`, to `s`.
pub fn append_hex(s: &mut String, n: u64)
    ensures
        final(s)@ == old(s)@ + hex_text(n as nat),
{
    push_char(s, '0');
    push_char(s, 'x');
    append_hex_digits(s, n);
}

/// The characters of `s`, in order.
pub fn chars_of(s: &str) -> (chars: Vec<char>)
    ensures
        chars@ == s@,
{
    let mut chars: Vec<char> = Vec::new();
    for c in it: s.chars()
        invariant
            chars@ == it.seq().take(it.index() as int),
            it.seq() == s@,
    {
        chars.push(c);
    }
    chars
}

/// The text of each string of `strings`, in order.
pub open spec fn texts(strings: Seq<String>) -> Seq<Seq<char>> {
    strings.map_values(|s: String| s@)
}

/// The string that holds `chars[from..to]`.
pub fn string_of(chars: &Vec<char>, from: usize, to: usize) -> (s: String)
    requires
        from <= to <= chars.len(),
    ensures
        s@ == chars@.subrange(from as int, to as int),
{
    let mut s = String::new();
    let mut i: usize = from;
    while i < to
        invariant
            from <= i <= to <= chars.len(),
            s@ == chars@.subrange(from as int, i as int),
        decreases to - i,
    {
        push_char(&mut s, chars[i]);
        i += 1;
    }
    s
}

/// Index of the first line feed of `s`, or `s.len()` where it has none.
pub open spec fn first_line_feed(s: Seq<char>) -> int
    decreases s.len(),
{
    if s.len() == 0 || s[0] == '\n' {
        0
    } else {
        1 + first_line_feed(s.drop_first())
    }
}

/// `line` without the carriage return that ends it, if one does.
pub open spec fn without_carriage_return(line: Seq<char>) -> Seq<char> {
    if line.len() > 0 && line.last() == '\r' {
        line.drop_last()
    } else {
        line
    }
}

/// The lines of `s`.
///
/// A line ends at a line feed; the line feed, and a carriage return directly
/// before it, belong to no line. What follows the last line feed is a line
/// of its own unless it is empty, so the empty text has no lines.
pub open spec fn lines_of(s: Seq<char>) -> Seq<Seq<char>>
    decreases s.len(),
{
    let k = first_line_feed(s);
    if s.len() == 0 {
        Seq::empty()
    } else if k < 0 || k >= s.len() {
        seq![s]
    } else {
        seq![without_carriage_return(s.subrange(0, k))] + lines_of(
            s.subrange(k + 1, s.len() as int),
        )
    }
}

/// The first line feed lies within the text, or at its end.
pub proof fn lemma_first_line_feed_bounds(s: Seq<char>)
    ensures
        0 <= first_line_feed(s) <= s.len(),
    decreases s.len(),
{
    if s.len() > 0 && s[0] != '\n' {
        lemma_first_line_feed_bounds(s.drop_first());
    }
}

/// `first_line_feed` finds the position `k` before which no line feed
/// stands and at which one does, or the text ends.
pub proof fn lemma_first_line_feed_at(s: Seq<char>, k: int)
    requires
        0 <= k <= s.len(),
        forall|j: int| 0 <= j < k ==> s[j] != '\n',
        k < s.len() ==> s[k] == '\n',
    ensures
        first_line_feed(s) == k,
    decreases k,
{
    if k > 0 {
        let rest = s.drop_first();
        assert forall|j: int| 0 <= j < k - 1 implies rest[j] != '\n' by {
        }
        lemma_first_line_feed_at(rest, k - 1);
    }
}

/// Splits `s` into its lines.
pub fn split_lines(s: &str) -> (lines: Vec<String>)
    ensures
        texts(lines@) == lines_of(s@),
{
    let chars = chars_of(s);
    let n = chars.len();
    let mut lines: Vec<String> = Vec::new();
    let mut start: usize = 0;
    let mut i: usize = 0;
    proof {
        assert(s@.subrange(0, n as int) =~= s@);
    }
    while i < n
        invariant
            0 <= start <= i <= n,
            n == chars.len(),
            chars@ == s@,
            forall|j: int| start <= j < i ==> chars@[j] != '\n',
            lines_of(s@) == texts(lines@) + lines_of(s@.subrange(start as int, n as int)),
        decreases n - i,
    {
        if chars[i] == '\n' {
            let end = if i > start && chars[i - 1] == '\r' {
                i - 1
            } else {
                i
            };
            let line = string_of(&chars, start, end);
            proof {
                let rest = s@.subrange(start as int, n as int);
                lemma_first_line_feed_at(rest, i - start);
                lemma_first_line_feed_bounds(rest);
                assert(rest.subrange(0, i - start) =~= s@.subrange(start as int, i as int));
                assert(rest.subrange(i - start + 1, rest.len() as int) =~= s@.subrange(
                    i + 1,
                    n as int,
                ));
                assert(line@ =~= without_carriage_return(s@.subrange(start as int, i as int)));
            }
            lines.push(line);
            start = i + 1;
        }
        i += 1;
    }
    if start < n {
        let line = string_of(&chars, start, n);
        proof {
            let rest = s@.subrange(start as int, n as int);
            lemma_first_line_feed_at(rest, n - start);
            lemma_first_line_feed_bounds(rest);
        }
        lines.push(line);
    }
    lines
}

/// The texts of `parts` in order, with `sep` between each two neighbours.
pub open spec fn join_text(parts: Seq<Seq<char>>, sep: Seq<char>) -> Seq<char>
    decreases parts.len(),
{
    if parts.len() == 0 {
        Seq::empty()
    } else if parts.len() == 1 {
        parts[0]
    } else {
        join_text(parts.drop_last(), sep) + sep + parts.last()
    }
}

/// Joins `parts`, writing `sep` between each two neighbours.
pub fn join(parts: &Vec<String>, sep: &str) -> (joined: String)
    ensures
        joined@ == join_text(texts(parts@), sep@),
{
    let mut joined = String::new();
    let mut i: usize = 0;
    while i < parts.len()
        invariant
            0 <= i <= parts.len(),
            joined@ == join_text(texts(parts@).take(i as int), sep@),
        decreases parts.len() - i,
    {
        if i > 0 {
            joined.append(sep);
        }
        joined.append(parts[i].as_str());
        assert(texts(parts@).take(i + 1).drop_last() =~= texts(parts@).take(i as int));
        i += 1;
    }
    assert(texts(parts@).take(parts.len() as int) =~= texts(parts@));
    joined
}

/// `count` copies of `unit`, one after the other.
pub open spec fn repeat_text(unit: Seq<char>, count: nat) -> Seq<char>
    decreases count,
{
    if count == 0 {
        Seq::empty()
    } else {
        repeat_text(unit, (count - 1) as nat) + unit
    }
}

/// Writes `unit` `count` times in a row.
pub fn repeat(unit: &str, count: usize) -> (repeated: String)
    ensures
        repeated@ == repeat_text(unit@, count as nat),
{
    let mut repeated = String::new();
    let mut i: usize = 0;
    while i < count
        invariant
            0 <= i <= count,
            repeated@ == repeat_text(unit@, i as nat),
        decreases count - i,
    {
        repeated.append(unit);
        i += 1;
    }
    repeated
}

/// Every line of `lines` behind `prefix` and a space, each ended by a line
/// feed.
pub open spec fn prefixed_lines_text(prefix: Seq<char>, lines: Seq<Seq<char>>) -> Seq<char>
    decreases lines.len(),
{
    if lines.len() == 0 {
        Seq::empty()
    } else {
        (prefixed_lines_text(prefix, lines.drop_last()) + prefix).push(' ') + lines.last().push(
            '\n',
        )
    }
}

/// The comment that documents an item with `doc`: one comment line, opened
/// by `prefix`, for each line of `doc`.
pub open spec fn doc_comment_text(prefix: Seq<char>, doc: Seq<char>) -> Seq<char> {
    prefixed_lines_text(prefix, lines_of(doc))
}

/// Writes `doc` as a comment whose lines each start with `prefix`.
pub fn build_doc_comment(prefix: &str, doc: &str) -> (comment: String)
    ensures
        comment@ == doc_comment_text(prefix@, doc@),
{
    let lines = split_lines(doc);
    let mut comment = String::new();
    let mut i: usize = 0;
    while i < lines.len()
        invariant
            0 <= i <= lines.len(),
            comment@ == prefixed_lines_text(prefix@, texts(lines@).take(i as int)),
        decreases lines.len() - i,
    {
        comment.append(prefix);
        push_char(&mut comment, ' ');
        comment.append(lines[i].as_str());
        push_char(&mut comment, '\n');
        assert(texts(lines@).take(i + 1).drop_last() =~= texts(lines@).take(i as int));
        i += 1;
    }
    assert(texts(lines@).take(lines.len() as int) =~= texts(lines@));
    comment
}

/// Each line of `lines` behind `prefix`.
pub open spec fn with_prefix(prefix: Seq<char>, lines: Seq<Seq<char>>) -> Seq<Seq<char>> {
    Seq::new(lines.len(), |i: int| prefix + lines[i])
}

/// The lines of `s`, each indented by `levels` times four spaces; a line feed
/// stands between two lines and none at the end.
pub open spec fn indent_text(s: Seq<char>, levels: nat) -> Seq<char> {
    join_text(with_prefix(repeat_text("    "@, levels), lines_of(s)), seq!['\n'])
}

/// Indents every line of `s` by `levels` times four spaces.
pub fn indent(s: &str, levels: usize) -> (indented: String)
    ensures
        indented@ == indent_text(s@, levels as nat),
{
    let prefix = repeat("    ", levels);
    let lines = split_lines(s);
    let mut indented = String::new();
    let mut i: usize = 0;
    while i < lines.len()
        invariant
            0 <= i <= lines.len(),
            indented@ == join_text(with_prefix(prefix@, texts(lines@).take(i as int)), seq!['\n']),
        decreases lines.len() - i,
    {
        if i > 0 {
            push_char(&mut indented, '\n');
        }
        indented.append(prefix.as_str());
        indented.append(lines[i].as_str());
        assert(with_prefix(prefix@, texts(lines@).take(i + 1)).drop_last() =~= with_prefix(
            prefix@,
            texts(lines@).take(i as int),
        ));
        i += 1;
    }
    assert(texts(lines@).take(lines.len() as int) =~= texts(lines@));
    indented
}

/// The lower-case form of an ASCII capital letter; any other character
/// unchanged.
pub open spec fn ascii_lower(c: char) -> char {
    if 'A' <= c && c <= 'Z' {
        ((c as u8) + 32) as u8 as char
    } else {
        c
    }
}

/// Turns an ASCII capital letter into its lower-case form.
pub fn to_ascii_lower(c: char) -> (lower: char)
    ensures
        lower == ascii_lower(c),
{
    if 'A' <= c && c <= 'Z' {
        ((c as u8) + 32) as char
    } else {
        c
    }
}

/// `s` with every ASCII capital letter in its lower-case form.
pub open spec fn ascii_lowercase_text(s: Seq<char>) -> Seq<char> {
    Seq::new(s.len(), |k: int| ascii_lower(s[k]))
}

/// Turns every ASCII capital letter of `s` into its lower-case form.
pub fn to_ascii_lowercase(s: &str) -> (lower: String)
    ensures
        lower@ == ascii_lowercase_text(s@),
{
    let chars = chars_of(s);
    let mut lower = String::new();
    let mut k: usize = 0;
    while k < chars.len()
        invariant
            0 <= k <= chars.len(),
            chars@ == s@,
            lower@ == ascii_lowercase_text(s@.take(k as int)),
        decreases chars.len() - k,
    {
        push_char(&mut lower, to_ascii_lower(chars[k]));
        k += 1;
    }
    lower
}

} // verus!
