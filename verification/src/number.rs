//! How the parser reads the numbers of a document, as far as the test of a
//! document needs it: whether a text is read as the greatest 32-bit number
//! or as zero, and how many members a range of indexes has.
//!
//! A text is a sequence of code points; a part of it is given by the
//! position of its first character and the position behind its last.

use vstd::prelude::*;

verus! {

/// The greatest number that fits into 32 bits.
pub const MAX_NUMBER: u64 = 0xffff_ffff;

/// The number that stands for every count above `MAX_NUMBER`.
pub const BEYOND: u64 = 0x1_0000_0000;

/// The code point of `c`.
pub open spec fn code(c: char) -> u32 {
    c as u32
}

/// Whether the code point `c` is white space that is trimmed from both ends
/// of a text.
pub open spec fn is_white_space(c: u32) -> bool {
    (0x09 <= c <= 0x0d) || c == 0x20 || c == 0x85 || c == 0xa0 || c == 0x1680 || (0x2000 <= c
        <= 0x200a) || c == 0x2028 || c == 0x2029 || c == 0x202f || c == 0x205f || c == 0x3000
}

/// The first position from `a` on, before `b`, that holds no white space;
/// `b` where there is none.
pub open spec fn trim_start(t: Seq<u32>, a: int, b: int) -> int
    decreases b - a,
{
    if a < b && 0 <= a < t.len() && is_white_space(t[a]) {
        trim_start(t, a + 1, b)
    } else {
        a
    }
}

/// The position behind the last character before `b`, not before `a`, that
/// is no white space; `a` where there is none.
pub open spec fn trim_end(t: Seq<u32>, a: int, b: int) -> int
    decreases b - a,
{
    if a < b && 0 < b <= t.len() && is_white_space(t[b - 1]) {
        trim_end(t, a, b - 1)
    } else {
        b
    }
}

/// The ways in which a number can be written.
#[derive(Clone, Copy, Debug, PartialEq, Eq, Structural)]
pub enum Notation {
    /// Decimal digits.
    Decimal,
    /// Hexadecimal digits behind `0x` or `0X`.
    Hexadecimal,
    /// Binary digits behind `#`, where `x` and `X` stand for a zero.
    HashBinary,
    /// Binary digits behind `0b`, where `x` stands for a zero.
    Binary,
}

/// Whether `c` is read as the digit zero in `notation`.
pub open spec fn is_zero_digit(notation: Notation, c: u32) -> bool {
    match notation {
        Notation::Decimal => c == code('0'),
        Notation::Hexadecimal => c == code('0'),
        Notation::HashBinary => c == code('0') || c == code('x') || c == code('X'),
        Notation::Binary => c == code('0') || c == code('x'),
    }
}

/// The decimal digits of the greatest 32-bit number.
pub open spec fn decimal_maximum() -> Seq<u32> {
    seq![
        code('4'),
        code('2'),
        code('9'),
        code('4'),
        code('9'),
        code('6'),
        code('7'),
        code('2'),
        code('9'),
        code('5'),
    ]
}

/// The number of digits with which the greatest 32-bit number is written
/// in `notation`.
pub open spec fn maximum_length(notation: Notation) -> int {
    match notation {
        Notation::Decimal => 10,
        Notation::Hexadecimal => 8,
        Notation::HashBinary => 32,
        Notation::Binary => 32,
    }
}

/// Whether `c` is digit `position` of the greatest 32-bit number in
/// `notation`.
pub open spec fn is_maximum_digit(notation: Notation, c: u32, position: int) -> bool {
    match notation {
        Notation::Decimal => 0 <= position < 10 && c == decimal_maximum()[position],
        Notation::Hexadecimal => c == code('f') || c == code('F'),
        Notation::HashBinary => c == code('1'),
        Notation::Binary => c == code('1'),
    }
}

/// The first position from `a` on, before `b`, that holds no zero digit;
/// `b` where there is none.
pub open spec fn after_zeros(t: Seq<u32>, a: int, b: int, notation: Notation) -> int
    decreases b - a,
{
    if a < b && 0 <= a < t.len() && is_zero_digit(notation, t[a]) {
        after_zeros(t, a + 1, b, notation)
    } else {
        a
    }
}

/// The position behind the sign of the digits in `a..b`: behind a leading
/// `+`, else `a`.
pub open spec fn after_sign(t: Seq<u32>, a: int, b: int) -> int {
    if a < b && 0 <= a < t.len() && t[a] == code('+') {
        a + 1
    } else {
        a
    }
}

/// Whether the digits in `a..b` are read as the greatest 32-bit number: an
/// optional `+`, any number of zeros, and the digits of that number.
pub open spec fn digits_are_maximum(t: Seq<u32>, a: int, b: int, notation: Notation) -> bool {
    let z = after_zeros(t, after_sign(t, a, b), b, notation);
    &&& 0 <= a <= b <= t.len()
    &&& b - z == maximum_length(notation)
    &&& forall|p: int|
        0 <= p < maximum_length(notation) ==> is_maximum_digit(notation, #[trigger] t[z + p], p)
}

/// Whether the digits in `a..b` are read as zero: an optional `+` and one
/// zero or more.
pub open spec fn digits_are_zero(t: Seq<u32>, a: int, b: int, notation: Notation) -> bool {
    let s = after_sign(t, a, b);
    0 <= a <= b <= t.len() && s < b && after_zeros(t, s, b, notation) == b
}

/// The notation in which the number in `a..b` is written.
pub open spec fn notation_of(t: Seq<u32>, a: int, b: int) -> Notation {
    if a + 2 <= b && t[a] == code('0') && (t[a + 1] == code('x') || t[a + 1] == code('X')) {
        Notation::Hexadecimal
    } else if a + 1 <= b && t[a] == code('#') {
        Notation::HashBinary
    } else if a + 2 <= b && t[a] == code('0') && t[a + 1] == code('b') {
        Notation::Binary
    } else {
        Notation::Decimal
    }
}

/// The position at which the digits of the number in `a..b` start: behind
/// the mark of its notation.
pub open spec fn digits_start(t: Seq<u32>, a: int, b: int) -> int {
    match notation_of(t, a, b) {
        Notation::Decimal => a,
        Notation::Hexadecimal => a + 2,
        Notation::HashBinary => a + 1,
        Notation::Binary => a + 2,
    }
}

/// Whether the number in `a..b`, white space at both ends put aside, is
/// read as the greatest 32-bit number.
pub open spec fn number_is_maximum(t: Seq<u32>, a: int, b: int) -> bool {
    let s = trim_start(t, a, b);
    let e = trim_end(t, s, b);
    0 <= a <= b <= t.len() && digits_are_maximum(t, digits_start(t, s, e), e, notation_of(t, s, e))
}

/// Whether the number in `a..b`, white space at both ends put aside, is
/// read as zero.
pub open spec fn number_is_zero(t: Seq<u32>, a: int, b: int) -> bool {
    let s = trim_start(t, a, b);
    let e = trim_end(t, s, b);
    0 <= a <= b <= t.len() && digits_are_zero(t, digits_start(t, s, e), e, notation_of(t, s, e))
}

/// The first position from `a` on, before `b`, that holds `c`; `b` where
/// none does.
pub open spec fn position_of(t: Seq<u32>, a: int, b: int, c: u32) -> int
    decreases b - a,
{
    if a < b && 0 <= a < t.len() && t[a] != c {
        position_of(t, a + 1, b, c)
    } else {
        a
    }
}

/// Whether `c` is one of the digits `0` to `9`.
pub open spec fn is_decimal_digit(c: u32) -> bool {
    code('0') <= c <= code('9')
}

/// The value of the decimal digits in `a..b` that follow the value `so_far`,
/// or `BEYOND` where it is greater than `MAX_NUMBER`; `None` where one of
/// the characters is no digit.
pub open spec fn digits_value(t: Seq<u32>, a: int, b: int, so_far: nat) -> Option<nat>
    decreases b - a,
{
    if a >= b || a < 0 || a >= t.len() {
        Some(so_far)
    } else if !is_decimal_digit(t[a]) {
        None
    } else {
        let next = so_far * 10 + (t[a] - code('0'));
        digits_value(
            t,
            a + 1,
            b,
            if next > MAX_NUMBER {
                BEYOND as nat
            } else {
                next as nat
            },
        )
    }
}

/// The number that a decimal text in `a..b` is read as: an optional `+`
/// and one digit or more, of a value that fits into 32 bits; else `None`.
pub open spec fn decimal_number(t: Seq<u32>, a: int, b: int) -> Option<nat> {
    let s = after_sign(t, a, b);
    if 0 <= a <= b <= t.len() && s < b {
        match digits_value(t, s, b, 0) {
            Some(value) => if value <= MAX_NUMBER {
                Some(value)
            } else {
                None
            },
            None => None,
        }
    } else {
        None
    }
}

/// Whether the bit range in `a..b` makes the parser compute a width beyond
/// 32 bits: it stands in brackets, its upper end is the greatest 32-bit
/// number and its lower end is zero.
pub open spec fn range_overflows(t: Seq<u32>, a: int, b: int) -> bool {
    let first = position_of(t, a + 1, b - 1, code(':'));
    let second = position_of(t, first + 1, b - 1, code(':'));
    &&& 0 <= a && a + 2 <= b <= t.len()
    &&& t[a] == code('[') && t[b - 1] == code(']')
    &&& first < b - 1
    &&& digits_are_maximum(t, a + 1, first, Notation::Decimal)
    &&& digits_are_zero(t, first + 1, second, Notation::Decimal)
}

/// The number of members that the parser writes out for the indexes in
/// `a..b`, white space at both ends put aside: where a number stands on
/// both sides of the first `-`, the numbers from the one to the other; else
/// none. More than `MAX_NUMBER` members count as `BEYOND`.
pub open spec fn index_members(t: Seq<u32>, a: int, b: int) -> nat {
    let s = trim_start(t, a, b);
    let e = trim_end(t, s, b);
    let dash = position_of(t, s, e, code('-'));
    if 0 <= a <= b <= t.len() && dash < e {
        match (decimal_number(t, s, dash), decimal_number(t, dash + 1, e)) {
            (Some(low), Some(high)) => if low <= high {
                (high - low + 1) as nat
            } else {
                0
            },
            _ => 0,
        }
    } else {
        0
    }
}

fn white_space(c: u32) -> (white: bool)
    ensures
        white == is_white_space(c),
{
    (0x09 <= c && c <= 0x0d) || c == 0x20 || c == 0x85 || c == 0xa0 || c == 0x1680 || (0x2000 <= c
        && c <= 0x200a) || c == 0x2028 || c == 0x2029 || c == 0x202f || c == 0x205f || c == 0x3000
}

fn trimmed(t: &Vec<u32>, a: usize, b: usize) -> (ends: (usize, usize))
    requires
        a <= b <= t.len(),
    ensures
        ends.0 == trim_start(t@, a as int, b as int),
        ends.1 == trim_end(t@, ends.0 as int, b as int),
        a <= ends.0 <= ends.1 <= b,
{
    let mut s = a;
    while s < b && white_space(t[s])
        invariant
            a <= s <= b <= t.len(),
            trim_start(t@, a as int, b as int) == trim_start(t@, s as int, b as int),
        decreases b - s,
    {
        s += 1;
    }
    let mut e = b;
    while s < e && white_space(t[e - 1])
        invariant
            s <= e <= b <= t.len(),
            trim_end(t@, s as int, b as int) == trim_end(t@, s as int, e as int),
        decreases e - s,
    {
        e -= 1;
    }
    (s, e)
}

fn zero_digit(notation: Notation, c: u32) -> (zero: bool)
    ensures
        zero == is_zero_digit(notation, c),
{
    match notation {
        Notation::Decimal => c == '0' as u32,
        Notation::Hexadecimal => c == '0' as u32,
        Notation::HashBinary => c == '0' as u32 || c == 'x' as u32 || c == 'X' as u32,
        Notation::Binary => c == '0' as u32 || c == 'x' as u32,
    }
}

fn maximum_digit(notation: Notation, c: u32, position: usize) -> (digit: bool)
    ensures
        digit == is_maximum_digit(notation, c, position as int),
{
    match notation {
        Notation::Decimal => {
            let digits: [char; 10] = ['4', '2', '9', '4', '9', '6', '7', '2', '9', '5'];
            position < 10 && c == digits[position] as u32
        },
        Notation::Hexadecimal => c == 'f' as u32 || c == 'F' as u32,
        Notation::HashBinary => c == '1' as u32,
        Notation::Binary => c == '1' as u32,
    }
}

fn skip_sign(t: &Vec<u32>, a: usize, b: usize) -> (s: usize)
    requires
        a <= b <= t.len(),
    ensures
        s == after_sign(t@, a as int, b as int),
        a <= s <= b,
{
    if a < b && t[a] == '+' as u32 {
        a + 1
    } else {
        a
    }
}

fn skip_zeros(t: &Vec<u32>, a: usize, b: usize, notation: Notation) -> (z: usize)
    requires
        a <= b <= t.len(),
    ensures
        z == after_zeros(t@, a as int, b as int, notation),
        a <= z <= b,
{
    let mut z = a;
    while z < b && zero_digit(notation, t[z])
        invariant
            a <= z <= b <= t.len(),
            after_zeros(t@, a as int, b as int, notation) == after_zeros(
                t@,
                z as int,
                b as int,
                notation,
            ),
        decreases b - z,
    {
        z += 1;
    }
    z
}

fn maximum_digits(t: &Vec<u32>, a: usize, b: usize, notation: Notation) -> (maximum: bool)
    requires
        a <= b <= t.len(),
    ensures
        maximum == digits_are_maximum(t@, a as int, b as int, notation),
{
    let z = skip_zeros(t, skip_sign(t, a, b), b, notation);
    let length: usize = match notation {
        Notation::Decimal => 10,
        Notation::Hexadecimal => 8,
        Notation::HashBinary => 32,
        Notation::Binary => 32,
    };
    if b - z != length {
        return false;
    }
    let mut p: usize = 0;
    while p < length
        invariant
            0 <= p <= length,
            length == maximum_length(notation),
            z + length == b <= t.len(),
            forall|q: int| 0 <= q < p ==> is_maximum_digit(notation, #[trigger] t@[z + q], q),
        decreases length - p,
    {
        if !maximum_digit(notation, t[z + p], p) {
            return false;
        }
        p += 1;
    }
    true
}

fn zero_digits(t: &Vec<u32>, a: usize, b: usize, notation: Notation) -> (zero: bool)
    requires
        a <= b <= t.len(),
    ensures
        zero == digits_are_zero(t@, a as int, b as int, notation),
{
    let s = skip_sign(t, a, b);
    s < b && skip_zeros(t, s, b, notation) == b
}

fn notation(t: &Vec<u32>, a: usize, b: usize) -> (found: (Notation, usize))
    requires
        a <= b <= t.len(),
    ensures
        found.0 == notation_of(t@, a as int, b as int),
        found.1 == digits_start(t@, a as int, b as int),
        a <= found.1 <= b,
{
    if b - a >= 2 && t[a] == '0' as u32 && (t[a + 1] == 'x' as u32 || t[a + 1] == 'X' as u32) {
        (Notation::Hexadecimal, a + 2)
    } else if b - a >= 1 && t[a] == '#' as u32 {
        (Notation::HashBinary, a + 1)
    } else if b - a >= 2 && t[a] == '0' as u32 && t[a + 1] == 'b' as u32 {
        (Notation::Binary, a + 2)
    } else {
        (Notation::Decimal, a)
    }
}

/// Whether the parser reads the number in `a..b` as the greatest 32-bit
/// number.
pub fn reads_maximum(t: &Vec<u32>, a: usize, b: usize) -> (maximum: bool)
    requires
        a <= b <= t.len(),
    ensures
        maximum == number_is_maximum(t@, a as int, b as int),
{
    let (s, e) = trimmed(t, a, b);
    let (kind, start) = notation(t, s, e);
    maximum_digits(t, start, e, kind)
}

/// Whether the parser reads the number in `a..b` as zero.
pub fn reads_zero(t: &Vec<u32>, a: usize, b: usize) -> (zero: bool)
    requires
        a <= b <= t.len(),
    ensures
        zero == number_is_zero(t@, a as int, b as int),
{
    let (s, e) = trimmed(t, a, b);
    let (kind, start) = notation(t, s, e);
    zero_digits(t, start, e, kind)
}

fn position(t: &Vec<u32>, a: usize, b: usize, c: u32) -> (found: usize)
    requires
        a <= b <= t.len(),
    ensures
        found == position_of(t@, a as int, b as int, c),
        a <= found <= b,
{
    let mut k = a;
    while k < b && t[k] != c
        invariant
            a <= k <= b <= t.len(),
            position_of(t@, a as int, b as int, c) == position_of(t@, k as int, b as int, c),
        decreases b - k,
    {
        k += 1;
    }
    k
}

fn decimal(t: &Vec<u32>, a: usize, b: usize) -> (number: Option<u64>)
    requires
        a <= b <= t.len(),
    ensures
        match number {
            Some(value) => decimal_number(t@, a as int, b as int) == Some(value as nat),
            None => decimal_number(t@, a as int, b as int) is None,
        },
{
    let s = skip_sign(t, a, b);
    if s >= b {
        return None;
    }
    let mut value: u64 = 0;
    let mut k = s;
    while k < b
        invariant
            a <= s <= k <= b <= t.len(),
            s < b,
            s == after_sign(t@, a as int, b as int),
            value <= BEYOND,
            digits_value(t@, s as int, b as int, 0) == digits_value(
                t@,
                k as int,
                b as int,
                value as nat,
            ),
        decreases b - k,
    {
        let c = t[k];
        if !('0' as u32 <= c && c <= '9' as u32) {
            return None;
        }
        let next = value * 10 + (c - '0' as u32) as u64;
        value = if next > MAX_NUMBER {
            BEYOND
        } else {
            next
        };
        k += 1;
    }
    if value <= MAX_NUMBER {
        Some(value)
    } else {
        None
    }
}

/// Whether the bit range in `a..b` makes the parser compute a width beyond
/// 32 bits.
pub fn overflows(t: &Vec<u32>, a: usize, b: usize) -> (overflow: bool)
    requires
        a <= b <= t.len(),
    ensures
        overflow == range_overflows(t@, a as int, b as int),
{
    if b - a < 2 || t[a] != '[' as u32 || t[b - 1] != ']' as u32 {
        return false;
    }
    let first = position(t, a + 1, b - 1, ':' as u32);
    if first >= b - 1 {
        return false;
    }
    let second = position(t, first + 1, b - 1, ':' as u32);
    maximum_digits(t, a + 1, first, Notation::Decimal) && zero_digits(
        t,
        first + 1,
        second,
        Notation::Decimal,
    )
}

/// Counts the members that the parser writes out for the indexes in `a..b`.
pub fn members(t: &Vec<u32>, a: usize, b: usize) -> (count: u64)
    requires
        a <= b <= t.len(),
    ensures
        count == index_members(t@, a as int, b as int),
        count <= BEYOND,
{
    let (s, e) = trimmed(t, a, b);
    let dash = position(t, s, e, '-' as u32);
    if dash >= e {
        return 0;
    }
    match (decimal(t, s, dash), decimal(t, dash + 1, e)) {
        (Some(low), Some(high)) => {
            if low <= high {
                high - low + 1
            } else {
                0
            }
        },
        _ => 0,
    }
}

} // verus!
