//! Text by characters rather than bytes, for scripts whose own string
//! functions count bytes.

use vstd::prelude::*;
use vstd::string::*;
use crate::text::chars_of;

verus! {

/// The number of bytes that `c` takes in UTF-8.
pub open spec fn utf8_width(c: char) -> nat {
    let u = c as u32;
    if u < 0x80 {
        1
    } else if u < 0x800 {
        2
    } else if u < 0x10000 {
        3
    } else {
        4
    }
}

/// The number of bytes that the first `count` characters of `s` take in
/// UTF-8.
pub open spec fn bytes_before(s: Seq<char>, count: int) -> nat
    decreases count,
{
    if count <= 0 {
        0
    } else {
        bytes_before(s, count - 1) + utf8_width(s[count - 1])
    }
}

/// The smaller of two numbers.
pub open spec fn least(a: int, b: int) -> int {
    if a <= b {
        a
    } else {
        b
    }
}

/// The part of `s` that [`sub`] cuts out; `None` where the positions are out
/// of order.
///
/// Characters are counted from one. With no `end` the part runs to the end
/// of `s`. A `begin` after `end` gives the empty text. Else the part begins
/// at the `begin`-th character and stops before the character at position
/// `begin + end - offset`, counted from zero, where `offset` is the number
/// of bytes before the `begin`-th character; both are cut down to the length
/// of `s`. In a text of one-byte characters that is from the `begin`-th
/// character through the one after the `end`-th. A `begin` of zero, and an
/// `end` below `offset`, are out of order.
pub open spec fn sub_spec(s: Seq<char>, begin: usize, end: Option<usize>) -> Option<Seq<char>> {
    let last = match end {
        Some(e) => e,
        None => usize::MAX,
    };
    if begin > last {
        Some(Seq::empty())
    } else if begin == 0 {
        None
    } else {
        let first = least(begin - 1, s.len() as int);
        let offset = bytes_before(s, first);
        if last < offset {
            None
        } else {
            Some(s.subrange(first, least(begin + (last - offset), s.len() as int)))
        }
    }
}

/// The number of characters of `s`.
pub fn len(s: &str) -> (r: usize)
    ensures
        r == s@.len(),
{
    s.unicode_len()
}

/// The number of bytes that `c` takes in UTF-8.
fn width(c: char) -> (r: u128)
    ensures
        r == utf8_width(c),
        1 <= r <= 4,
{
    let u: u32 = c as u32;
    if u < 0x80 {
        1
    } else if u < 0x800 {
        2
    } else if u < 0x10000 {
        3
    } else {
        4
    }
}

/// Cuts a part out of `s` by the positions of characters, counted from one;
/// `None` where the positions are out of order.
pub fn sub(s: &str, begin: usize, end: Option<usize>) -> (r: Option<String>)
    ensures
        match r {
            Some(part) => sub_spec(s@, begin, end) == Some(part@),
            None => sub_spec(s@, begin, end) is None,
        },
{
    let last: usize = match end {
        Some(e) => e,
        None => usize::MAX,
    };
    if begin > last {
        return Some(String::new());
    }
    if begin == 0 {
        return None;
    }
    let chars = chars_of(s);
    let n: usize = chars.len();
    let first: usize = if begin - 1 < n {
        begin - 1
    } else {
        n
    };
    let mut offset: u128 = 0;
    let mut i: usize = 0;
    while i < first
        invariant
            i <= first <= n,
            n == chars.len(),
            chars@ == s@,
            offset == bytes_before(s@, i as int),
            offset <= 4 * i,
        decreases first - i,
    {
        offset = offset + width(chars[i]);
        i += 1;
    }
    if (last as u128) < offset {
        return None;
    }
    let stop: u128 = begin as u128 + (last as u128 - offset);
    let finish: usize = if stop < n as u128 {
        stop as usize
    } else {
        n
    };
    Some(s.substring_char(first, finish).to_owned())
}

} // verus!
