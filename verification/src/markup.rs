//! How the parser divides the text of a document into tags, comments,
//! sections of character data and text, as far as the test of a document
//! needs it.

use vstd::prelude::*;
use crate::number::{code, BEYOND, MAX_NUMBER};

verus! {

/// Whether `pattern` stands in `text` at position `i`.
pub open spec fn starts_at(text: Seq<char>, i: int, pattern: Seq<char>) -> bool {
    0 <= i && i + pattern.len() <= text.len() && text.subrange(i, i + pattern.len()) == pattern
}

/// The text that opens a comment.
pub open spec fn comment_start() -> Seq<char> {
    seq!['<', '!', '-', '-']
}

/// The text that closes a comment.
pub open spec fn comment_end() -> Seq<char> {
    seq!['-', '-', '>']
}

/// The text that opens a section of character data.
pub open spec fn cdata_start() -> Seq<char> {
    seq!['<', '!', '[', 'C', 'D', 'A', 'T', 'A', '[']
}

/// The text that closes a section of character data.
pub open spec fn cdata_end() -> Seq<char> {
    seq![']', ']', '>']
}

/// The text that opens a processing instruction.
pub open spec fn instruction_start() -> Seq<char> {
    seq!['<', '?']
}

/// The text that closes a processing instruction.
pub open spec fn instruction_end() -> Seq<char> {
    seq!['?', '>']
}

/// The first position from `k` on at which `pattern` stands; the length of
/// the text where it stands nowhere.
pub open spec fn find_from(text: Seq<char>, k: int, pattern: Seq<char>) -> int
    decreases text.len() - k,
{
    if k < 0 || k >= text.len() {
        text.len() as int
    } else if starts_at(text, k, pattern) {
        k
    } else {
        find_from(text, k + 1, pattern)
    }
}

/// Whether `c` ends the name of a tag: white space, `/`, `>`, `<`, `=` or a
/// quote.
pub open spec fn ends_name(c: char) -> bool {
    c == ' ' || c == '\t' || c == '\n' || c == '\r' || c == '/' || c == '>' || c == '<' || c == '='
        || c == '"' || c == '\''
}

/// The position behind the name that starts at `k`.
pub open spec fn name_end(text: Seq<char>, k: int) -> int
    decreases text.len() - k,
{
    if 0 <= k < text.len() && !ends_name(text[k]) {
        name_end(text, k + 1)
    } else {
        k
    }
}

/// Whether the name in `from..to` is `name`, alone or behind the colon of a
/// prefix.
pub open spec fn local_name_is(text: Seq<char>, from: int, to: int, name: Seq<char>) -> bool {
    &&& 0 <= from <= to - name.len()
    &&& to <= text.len()
    &&& text.subrange(to - name.len(), to) == name
    &&& to - name.len() == from || text[to - name.len() - 1] == ':'
}

/// How a tag that opens an element ends.
pub enum TagEnd {
    /// At the `>` at the given position; the element stays open.
    Open(int),
    /// At the `>` at the given position, behind a `/`; the element is
    /// empty.
    Empty(int),
    /// Not at all: a `<` or the end of the text comes first.
    Broken,
}

/// How the tag ends whose text goes on at `k`, inside an attribute value
/// that `quote` closes, or outside of one.
pub open spec fn tag_end(text: Seq<char>, k: int, quote: Option<char>) -> TagEnd
    decreases text.len() - k,
{
    if k < 0 || k >= text.len() || text[k] == '<' {
        TagEnd::Broken
    } else {
        match quote {
            Some(q) => tag_end(
                text,
                k + 1,
                if text[k] == q {
                    None
                } else {
                    quote
                },
            ),
            None => {
                if text[k] == '"' || text[k] == '\'' {
                    tag_end(text, k + 1, Some(text[k]))
                } else if text[k] == '>' {
                    if k > 0 && text[k - 1] == '/' {
                        TagEnd::Empty(k)
                    } else {
                        TagEnd::Open(k)
                    }
                } else {
                    tag_end(text, k + 1, None)
                }
            },
        }
    }
}

/// The position of the `>` that ends the closing tag whose text goes on at
/// `k`; `None` where a `<` or the end of the text comes first.
pub open spec fn closing_end(text: Seq<char>, k: int) -> Option<int>
    decreases text.len() - k,
{
    if k < 0 || k >= text.len() || text[k] == '<' {
        None
    } else if text[k] == '>' {
        Some(k)
    } else {
        closing_end(text, k + 1)
    }
}

/// Whether `c` is a hexadecimal digit.
pub open spec fn is_hex_digit(c: char) -> bool {
    ('0' <= c && c <= '9') || ('a' <= c && c <= 'f') || ('A' <= c && c <= 'F')
}

/// The value of the hexadecimal digit `c`.
pub open spec fn hex_digit_value(c: char) -> nat {
    if '0' <= c && c <= '9' {
        (c as u32 - '0' as u32) as nat
    } else if 'a' <= c && c <= 'f' {
        (c as u32 - 'a' as u32 + 10) as nat
    } else {
        (c as u32 - 'A' as u32 + 10) as nat
    }
}

/// Whether `c` is a digit of the base `radix`, which is 10 or 16.
pub open spec fn is_digit_of(c: char, radix: nat) -> bool {
    if radix == 16 {
        is_hex_digit(c)
    } else {
        '0' <= c && c <= '9'
    }
}

/// The position behind the digits of base `radix` that start at `k`.
pub open spec fn digits_end(text: Seq<char>, k: int, radix: nat) -> int
    decreases text.len() - k,
{
    if 0 <= k < text.len() && is_digit_of(text[k], radix) {
        digits_end(text, k + 1, radix)
    } else {
        k
    }
}

/// The value of the digits of base `radix` in `k..to` that follow the value
/// `so_far`; `BEYOND` where it is greater than `MAX_NUMBER`.
pub open spec fn reference_value(text: Seq<char>, k: int, to: int, radix: nat, so_far: nat) -> nat
    decreases to - k,
{
    if k >= to || k < 0 || k >= text.len() {
        so_far
    } else {
        let next = so_far * radix + hex_digit_value(text[k]);
        reference_value(
            text,
            k + 1,
            to,
            radix,
            if next > MAX_NUMBER {
                BEYOND as nat
            } else {
                next
            },
        )
    }
}

/// The character that a reference to the code point `value` gives: the
/// replacement character where `value` is no character.
pub open spec fn referenced(value: nat) -> u32 {
    if (0xd800 <= value <= 0xdfff) || value > 0x10ffff {
        0xfffd
    } else {
        value as u32
    }
}

/// Whether a document may hold the character `c`.
pub open spec fn is_document_char(c: u32) -> bool {
    if c < 0x20 {
        c == 0x09 || c == 0x0a || c == 0x0d
    } else {
        c != 0xffff && c != 0xfffe
    }
}

/// What the reference to a character by its number gives whose digits, of
/// base `radix`, start at `k`: the character and the position behind the
/// reference. `None` where the parser rejects the reference: without
/// digits, with a number beyond 32 bits or of a character that no document
/// may hold, or without the closing `;`.
pub open spec fn numbered_reference(text: Seq<char>, k: int, radix: nat) -> Option<(u32, int)> {
    let e = digits_end(text, k, radix);
    let value = reference_value(text, k, e, radix, 0);
    if k < e < text.len() && value <= MAX_NUMBER && is_document_char(referenced(value)) && text[e]
        == ';' {
        Some((referenced(value), e + 1))
    } else {
        None
    }
}

/// What the reference at `k`, where a `&` stands, gives: the character and
/// the position behind the reference. `None` where the parser rejects the
/// reference; it knows the five names `quot`, `amp`, `apos`, `lt` and `gt`
/// and no others.
pub open spec fn reference_at(text: Seq<char>, k: int) -> Option<(u32, int)> {
    if starts_at(text, k, seq!['&', 'q', 'u', 'o', 't', ';']) {
        Some((code('"'), k + 6))
    } else if starts_at(text, k, seq!['&', 'a', 'm', 'p', ';']) {
        Some((code('&'), k + 5))
    } else if starts_at(text, k, seq!['&', 'a', 'p', 'o', 's', ';']) {
        Some((code('\''), k + 6))
    } else if starts_at(text, k, seq!['&', 'l', 't', ';']) {
        Some((code('<'), k + 4))
    } else if starts_at(text, k, seq!['&', 'g', 't', ';']) {
        Some((code('>'), k + 4))
    } else if starts_at(text, k, seq!['&', '#', 'x']) {
        numbered_reference(text, k + 3, 16)
    } else if starts_at(text, k, seq!['&', '#']) {
        numbered_reference(text, k + 2, 10)
    } else {
        None
    }
}

/// The text with which an element starts whose content goes on at `k`:
/// `so_far`, followed by the characters up to the first tag, comment or
/// processing instruction. References stand for their characters, and
/// sections of character data for their content; `inside` says whether `k`
/// lies in such a section. `None` where the parser rejects the document
/// before the text ends: at a reference that it rejects, or at the end of
/// the document.
pub open spec fn leading_text(text: Seq<char>, k: int, inside: bool, so_far: Seq<u32>) -> Option<
    Seq<u32>,
>
    decreases text.len() - k,
{
    if k < 0 || k >= text.len() {
        None
    } else if inside {
        if starts_at(text, k, cdata_end()) {
            leading_text(text, k + 3, false, so_far)
        } else {
            leading_text(text, k + 1, true, so_far.push(code(text[k])))
        }
    } else if starts_at(text, k, cdata_start()) {
        leading_text(text, k + 9, true, so_far)
    } else if text[k] == '<' {
        Some(so_far)
    } else if text[k] == '&' {
        match reference_at(text, k) {
            Some((c, next)) => if next > k {
                leading_text(text, next, false, so_far.push(c))
            } else {
                None
            },
            None => None,
        }
    } else {
        leading_text(text, k + 1, false, so_far.push(code(text[k])))
    }
}

/// Whether `pattern` stands in `text` at position `i`.
pub fn stands_at(text: &Vec<char>, i: usize, pattern: &Vec<char>) -> (found: bool)
    ensures
        found == starts_at(text@, i as int, pattern@),
{
    if i > text.len() || pattern.len() > text.len() - i {
        return false;
    }
    let mut k: usize = 0;
    while k < pattern.len()
        invariant
            0 <= k <= pattern.len(),
            i + pattern.len() <= text.len(),
            forall|m: int| 0 <= m < k ==> text@[i + m] == pattern@[m],
        decreases pattern.len() - k,
    {
        if text[i + k] != pattern[k] {
            assert(text@.subrange(i as int, i + pattern.len())[k as int] != pattern@[k as int]);
            return false;
        }
        k += 1;
    }
    assert(text@.subrange(i as int, i + pattern.len()) =~= pattern@);
    true
}

/// Finds the first position from `k` on at which `pattern` stands.
pub fn find(text: &Vec<char>, k: usize, pattern: &Vec<char>) -> (found: usize)
    requires
        k <= text.len(),
    ensures
        found == find_from(text@, k as int, pattern@),
        k <= found <= text.len(),
        found < text.len() ==> found + pattern@.len() <= text.len(),
{
    let mut i = k;
    while i < text.len()
        invariant
            k <= i <= text.len(),
            find_from(text@, k as int, pattern@) == find_from(text@, i as int, pattern@),
        decreases text.len() - i,
    {
        if stands_at(text, i, pattern) {
            return i;
        }
        i += 1;
    }
    i
}

fn name_ends(c: char) -> (ends: bool)
    ensures
        ends == ends_name(c),
{
    c == ' ' || c == '\t' || c == '\n' || c == '\r' || c == '/' || c == '>' || c == '<' || c == '='
        || c == '"' || c == '\''
}

/// Finds the position behind the name that starts at `k`.
pub fn end_of_name(text: &Vec<char>, k: usize) -> (end: usize)
    requires
        k <= text.len(),
    ensures
        end == name_end(text@, k as int),
        k <= end <= text.len(),
{
    let mut i = k;
    while i < text.len() && !name_ends(text[i])
        invariant
            k <= i <= text.len(),
            name_end(text@, k as int) == name_end(text@, i as int),
        decreases text.len() - i,
    {
        i += 1;
    }
    i
}

/// Whether the name in `from..to` is `name`, alone or behind the colon of a
/// prefix.
pub fn is_local_name(text: &Vec<char>, from: usize, to: usize, name: &Vec<char>) -> (found: bool)
    requires
        from <= to <= text.len(),
    ensures
        found == local_name_is(text@, from as int, to as int, name@),
{
    if name.len() > to - from {
        return false;
    }
    let start = to - name.len();
    stands_at(text, start, name) && (start == from || text[start - 1] == ':')
}

/// How a tag that opens an element ends, in positions of the machine.
#[derive(Clone, Copy, Debug, PartialEq, Eq)]
pub enum FoundTagEnd {
    Open(usize),
    Empty(usize),
    Broken,
}

impl View for FoundTagEnd {
    type V = TagEnd;

    open spec fn view(&self) -> TagEnd {
        match self {
            FoundTagEnd::Open(k) => TagEnd::Open(*k as int),
            FoundTagEnd::Empty(k) => TagEnd::Empty(*k as int),
            FoundTagEnd::Broken => TagEnd::Broken,
        }
    }
}

/// Finds the end of the tag whose text goes on at `k`.
pub fn end_of_tag(text: &Vec<char>, k: usize) -> (end: FoundTagEnd)
    requires
        k <= text.len(),
    ensures
        end@ == tag_end(text@, k as int, None),
        match end {
            FoundTagEnd::Open(e) => k <= e < text.len(),
            FoundTagEnd::Empty(e) => k <= e < text.len(),
            FoundTagEnd::Broken => true,
        },
{
    let mut quote: Option<char> = None;
    let mut i = k;
    while i < text.len()
        invariant
            k <= i <= text.len(),
            tag_end(text@, k as int, None) == tag_end(text@, i as int, quote),
        decreases text.len() - i,
    {
        let c = text[i];
        if c == '<' {
            return FoundTagEnd::Broken;
        }
        match quote {
            Some(q) => {
                if c == q {
                    quote = None;
                }
            },
            None => {
                if c == '"' || c == '\'' {
                    quote = Some(c);
                } else if c == '>' {
                    if i > 0 && text[i - 1] == '/' {
                        return FoundTagEnd::Empty(i);
                    } else {
                        return FoundTagEnd::Open(i);
                    }
                }
            },
        }
        i += 1;
    }
    FoundTagEnd::Broken
}

/// Finds the `>` that ends the closing tag whose text goes on at `k`.
pub fn end_of_closing(text: &Vec<char>, k: usize) -> (end: Option<usize>)
    requires
        k <= text.len(),
    ensures
        match end {
            Some(e) => closing_end(text@, k as int) == Some(e as int) && k <= e < text.len(),
            None => closing_end(text@, k as int) is None,
        },
{
    let mut i = k;
    while i < text.len()
        invariant
            k <= i <= text.len(),
            closing_end(text@, k as int) == closing_end(text@, i as int),
        decreases text.len() - i,
    {
        let c = text[i];
        if c == '<' {
            return None;
        }
        if c == '>' {
            return Some(i);
        }
        i += 1;
    }
    None
}

fn digit_of(c: char, radix: u64) -> (digit: Option<u64>)
    requires
        radix == 10 || radix == 16,
    ensures
        match digit {
            Some(value) => is_digit_of(c, radix as nat) && value == hex_digit_value(c),
            None => !is_digit_of(c, radix as nat),
        },
{
    if '0' <= c && c <= '9' {
        Some((c as u32 - '0' as u32) as u64)
    } else if radix == 16 && 'a' <= c && c <= 'f' {
        Some((c as u32 - 'a' as u32 + 10) as u64)
    } else if radix == 16 && 'A' <= c && c <= 'F' {
        Some((c as u32 - 'A' as u32 + 10) as u64)
    } else {
        None
    }
}

fn numbered(text: &Vec<char>, k: usize, radix: u64) -> (found: Option<(u32, usize)>)
    requires
        k <= text.len(),
        radix == 10 || radix == 16,
    ensures
        match found {
            Some((c, next)) => numbered_reference(text@, k as int, radix as nat) == Some(
                (c, next as int),
            ) && k < next <= text.len(),
            None => numbered_reference(text@, k as int, radix as nat) is None,
        },
{
    let mut e = k;
    while e < text.len() && digit_of(text[e], radix).is_some()
        invariant
            k <= e <= text.len(),
            radix == 10 || radix == 16,
            digits_end(text@, k as int, radix as nat) == digits_end(text@, e as int, radix as nat),
            forall|m: int| k <= m < e ==> is_digit_of(#[trigger] text@[m], radix as nat),
        decreases text.len() - e,
    {
        e += 1;
    }
    let mut value: u64 = 0;
    let mut i = k;
    while i < e
        invariant
            k <= i <= e <= text.len(),
            radix == 10 || radix == 16,
            value <= BEYOND,
            forall|m: int| k <= m < e ==> is_digit_of(#[trigger] text@[m], radix as nat),
            reference_value(text@, k as int, e as int, radix as nat, 0) == reference_value(
                text@,
                i as int,
                e as int,
                radix as nat,
                value as nat,
            ),
        decreases e - i,
    {
        let digit = match digit_of(text[i], radix) {
            Some(digit) => digit,
            None => 0,
        };
        let next = value * radix + digit;
        value = if next > MAX_NUMBER {
            BEYOND
        } else {
            next
        };
        i += 1;
    }
    if e == k || e >= text.len() || value > MAX_NUMBER || text[e] != ';' {
        return None;
    }
    let c: u32 = if (0xd800 <= value && value <= 0xdfff) || value > 0x10ffff {
        0xfffd
    } else {
        value as u32
    };
    let allowed = if c < 0x20 {
        c == 0x09 || c == 0x0a || c == 0x0d
    } else {
        c != 0xffff && c != 0xfffe
    };
    if allowed {
        Some((c, e + 1))
    } else {
        None
    }
}

/// Reads the reference at `k`, where a `&` stands.
pub fn reference(text: &Vec<char>, k: usize) -> (found: Option<(u32, usize)>)
    requires
        k < text.len(),
    ensures
        match found {
            Some((c, next)) => reference_at(text@, k as int) == Some((c, next as int)) && k < next
                <= text.len(),
            None => reference_at(text@, k as int) is None,
        },
{
    let quot: Vec<char> = vec!['&', 'q', 'u', 'o', 't', ';'];
    let amp: Vec<char> = vec!['&', 'a', 'm', 'p', ';'];
    let apos: Vec<char> = vec!['&', 'a', 'p', 'o', 's', ';'];
    let lt: Vec<char> = vec!['&', 'l', 't', ';'];
    let gt: Vec<char> = vec!['&', 'g', 't', ';'];
    let hex: Vec<char> = vec!['&', '#', 'x'];
    let number: Vec<char> = vec!['&', '#'];
    if stands_at(text, k, &quot) {
        Some(('"' as u32, k + 6))
    } else if stands_at(text, k, &amp) {
        Some(('&' as u32, k + 5))
    } else if stands_at(text, k, &apos) {
        Some(('\'' as u32, k + 6))
    } else if stands_at(text, k, &lt) {
        Some(('<' as u32, k + 4))
    } else if stands_at(text, k, &gt) {
        Some(('>' as u32, k + 4))
    } else if stands_at(text, k, &hex) {
        numbered(text, k + 3, 16)
    } else if stands_at(text, k, &number) {
        numbered(text, k + 2, 10)
    } else {
        None
    }
}

/// Reads the text with which the element starts whose content starts at
/// `k`.
pub fn leading(text: &Vec<char>, k: usize) -> (run: Option<Vec<u32>>)
    requires
        k <= text.len(),
    ensures
        match run {
            Some(codes) => leading_text(text@, k as int, false, Seq::empty()) == Some(codes@),
            None => leading_text(text@, k as int, false, Seq::empty()) is None,
        },
{
    let open: Vec<char> = vec!['<', '!', '[', 'C', 'D', 'A', 'T', 'A', '['];
    let close: Vec<char> = vec![']', ']', '>'];
    let mut codes: Vec<u32> = Vec::new();
    let mut inside = false;
    let mut i = k;
    while i < text.len()
        invariant
            k <= i <= text.len(),
            open@ == cdata_start(),
            close@ == cdata_end(),
            leading_text(text@, k as int, false, Seq::empty()) == leading_text(
                text@,
                i as int,
                inside,
                codes@,
            ),
        decreases text.len() - i,
    {
        let c = text[i];
        if inside {
            if stands_at(text, i, &close) {
                inside = false;
                i += 3;
            } else {
                codes.push(c as u32);
                i += 1;
            }
        } else if stands_at(text, i, &open) {
            inside = true;
            i += 9;
        } else if c == '<' {
            return Some(codes);
        } else if c == '&' {
            match reference(text, i) {
                Some((resolved, next)) => {
                    codes.push(resolved);
                    i = next;
                },
                None => {
                    return None;
                },
            }
        } else {
            codes.push(c as u32);
            i += 1;
        }
    }
    None
}

} // verus!
