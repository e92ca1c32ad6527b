//! Character-level helpers shared by the codecs: searching and splitting
//! texts, comparing them and trimming line ends.

use vstd::prelude::*;
use vstd::string::*;

verus! {

/// `pat` stands in `s` at position `i`.
pub open spec fn occurs_at(s: Seq<char>, pat: Seq<char>, i: int) -> bool {
    0 <= i && i + pat.len() <= s.len() && s.subrange(i, i + pat.len()) == pat
}

/// `i` is the leftmost position at which `pat` stands in `s`.
pub open spec fn first_at(s: Seq<char>, pat: Seq<char>, i: int) -> bool {
    occurs_at(s, pat, i) && forall|j: int| 0 <= j < i ==> !occurs_at(s, pat, j)
}

/// The leftmost position at which `pat` stands in `s`, if there is one.
pub open spec fn find(s: Seq<char>, pat: Seq<char>) -> Option<int> {
    if exists|i: int| first_at(s, pat, i) {
        Some(choose|i: int| first_at(s, pat, i))
    } else {
        None
    }
}

/// What lies before and after the leftmost `pat` in `s`.
pub open spec fn split_once(s: Seq<char>, pat: Seq<char>) -> Option<(Seq<char>, Seq<char>)> {
    match find(s, pat) {
        Some(i) => Some((s.take(i), s.skip(i + pat.len()))),
        None => None,
    }
}

/// A leftmost occurrence is the only leftmost occurrence.
pub proof fn lemma_find_is(s: Seq<char>, pat: Seq<char>, i: int)
    requires
        first_at(s, pat, i),
    ensures
        find(s, pat) == Some(i),
{
    let k = choose|k: int| first_at(s, pat, k);
    assert(first_at(s, pat, k));
    if k < i {
        assert(!occurs_at(s, pat, k));
    } else if i < k {
        assert(!occurs_at(s, pat, i));
    }
}

/// Without any occurrence there is no leftmost one.
pub proof fn lemma_find_none(s: Seq<char>, pat: Seq<char>)
    requires
        forall|j: int| 0 <= j ==> !occurs_at(s, pat, j),
    ensures
        find(s, pat) is None,
{
    if exists|i: int| first_at(s, pat, i) {
        let k = choose|k: int| first_at(s, pat, k);
        assert(occurs_at(s, pat, k));
    }
}

/// What was split at `pat` is its two parts with `pat` between them, and
/// `pat` stands nowhere before the place of the split.
pub proof fn lemma_split_rejoins(s: Seq<char>, pat: Seq<char>)
    requires
        split_once(s, pat) is Some,
    ensures
        ({
            let (head, tail) = split_once(s, pat)->0;
            &&& s == head + pat + tail
            &&& forall|j: int| 0 <= j < head.len() ==> !occurs_at(s, pat, j)
        }),
{
    let i = find(s, pat)->0;
    assert(first_at(s, pat, i));
    let (head, tail) = split_once(s, pat)->0;
    assert(s =~= head + pat + tail);
}

/// Joining two texts with `pat` and splitting the result at `pat` gives the
/// two texts back, as long as `pat` does not already stand somewhere in the
/// joined text before the place of the join.
pub proof fn lemma_split_joined(head: Seq<char>, pat: Seq<char>, tail: Seq<char>)
    requires
        forall|j: int| 0 <= j < head.len() ==> !occurs_at(head + pat + tail, pat, j),
    ensures
        split_once(head + pat + tail, pat) == Some((head, tail)),
{
    let s = head + pat + tail;
    let i = head.len() as int;
    assert(s.subrange(i, i + pat.len()) =~= pat);
    lemma_find_is(s, pat, i);
    assert(s.take(i) =~= head);
    assert(s.skip(i + pat.len()) =~= tail);
}

/// A text in which the first character of `pat` does not occur can be
/// split off again after it was joined to another with `pat`.
pub proof fn lemma_split_clean_head(head: Seq<char>, pat: Seq<char>, tail: Seq<char>)
    requires
        pat.len() > 0,
        forall|j: int| 0 <= j < head.len() ==> head[j] != pat[0],
    ensures
        split_once(head + pat + tail, pat) == Some((head, tail)),
{
    let s = head + pat + tail;
    assert forall|j: int| 0 <= j < head.len() implies !occurs_at(s, pat, j) by {
        if occurs_at(s, pat, j) {
            assert(s.subrange(j, j + pat.len())[0] == s[j]);
            assert(s[j] == head[j]);
        }
    }
    lemma_split_joined(head, pat, tail);
}

/// Copies the characters of `s` into a vector, so that they can be indexed
/// in constant time.
pub fn chars_of(s: &str) -> (v: Vec<char>)
    ensures
        v@ == s@,
{
    let mut v: Vec<char> = Vec::new();
    for c in it: s.chars()
        invariant
            v@ == it.seq().take(it.index() as int),
    {
        v.push(c);
    }
    v
}

/// Whether `pat` stands in `hay` at position `at`.
fn matches_at(hay: &Vec<char>, pat: &Vec<char>, at: usize) -> (r: bool)
    requires
        at + pat.len() <= hay.len(),
    ensures
        r == occurs_at(hay@, pat@, at as int),
{
    let mut k: usize = 0;
    while k < pat.len()
        invariant
            k <= pat.len(),
            at + pat.len() <= hay.len(),
            forall|j: int| 0 <= j < k ==> hay@[at + j] == pat@[j],
        decreases pat.len() - k,
    {
        if hay[at + k] != pat[k] {
            proof {
                assert(hay@.subrange(at as int, at + pat.len())[k as int] == hay@[at + k]);
            }
            return false;
        }
        k += 1;
    }
    proof {
        assert(hay@.subrange(at as int, at + pat.len()) =~= pat@);
    }
    true
}

/// The leftmost position at which `pat` stands in `hay`.
pub fn find_in(hay: &Vec<char>, pat: &Vec<char>) -> (r: Option<usize>)
    ensures
        r is Some <==> find(hay@, pat@) is Some,
        r matches Some(i) ==> find(hay@, pat@) == Some(i as int),
{
    if pat.len() > hay.len() {
        proof {
            lemma_find_none(hay@, pat@);
        }
        return None;
    }
    let last: usize = hay.len() - pat.len();
    let mut i: usize = 0;
    loop
        invariant
            last == hay.len() - pat.len(),
            i <= last,
            forall|j: int| 0 <= j < i ==> !occurs_at(hay@, pat@, j),
        decreases last - i,
    {
        if matches_at(hay, pat, i) {
            proof {
                lemma_find_is(hay@, pat@, i as int);
            }
            return Some(i);
        }
        if i == last {
            proof {
                lemma_find_none(hay@, pat@);
            }
            return None;
        }
        i += 1;
    }
}

/// Splits `s` at the leftmost occurrence of `pat`, which belongs to neither
/// part. `None` when `pat` does not occur.
pub fn split_at_first<'a>(s: &'a str, pat: &str) -> (r: Option<(&'a str, &'a str)>)
    ensures
        match r {
            Some((head, tail)) => split_once(s@, pat@) == Some((head@, tail@)),
            None => split_once(s@, pat@) is None,
        },
{
    let hay = chars_of(s);
    let needle = chars_of(pat);
    match find_in(&hay, &needle) {
        Some(i) => {
            let end: usize = hay.len();
            assert(first_at(hay@, needle@, i as int));
            let head = s.substring_char(0, i);
            let tail = s.substring_char(i + needle.len(), end);
            Some((head, tail))
        },
        None => None,
    }
}

/// Whether `a` holds exactly the characters of `b`.
pub fn chars_eq(a: &Vec<char>, b: &str) -> (r: bool)
    ensures
        r == (a@ == b@),
{
    let mut i: usize = 0;
    let mut same = true;
    for c in it: b.chars()
        invariant
            it.seq() == b@,
            same ==> i == it.index() && i <= a.len(),
            same ==> forall|j: int| 0 <= j < i ==> a@[j] == b@[j],
            !same ==> a@ != b@,
    {
        if same {
            if i < a.len() && a[i] == c {
                i += 1;
            } else {
                same = false;
            }
        }
    }
    if same && i == a.len() {
        assert(a@ =~= b@);
        true
    } else {
        false
    }
}

/// Whether `a` and `b` hold the same characters.
pub fn str_eq(a: &str, b: &str) -> (r: bool)
    ensures
        r == (a@ == b@),
{
    let x = chars_of(a);
    let y = chars_of(b);
    if x.len() != y.len() {
        return false;
    }
    let mut i: usize = 0;
    while i < x.len()
        invariant
            i <= x.len(),
            x.len() == y.len(),
            x@ == a@,
            y@ == b@,
            forall|j: int| 0 <= j < i ==> x@[j] == y@[j],
        decreases x.len() - i,
    {
        if x[i] != y[i] {
            assert(x@[i as int] != y@[i as int]);
            return false;
        }
        i += 1;
    }
    proof {
        assert(x@ =~= y@);
    }
    true
}

/// Whether `c` is white space as Unicode defines it: the controls from tab
/// to carriage return, the space, next line, the no-break space and the
/// spaces and separators of the general punctuation block and beyond.
pub open spec fn is_whitespace(c: char) -> bool {
    let u = c as u32;
    ||| 0x09 <= u <= 0x0D
    ||| u == 0x20
    ||| u == 0x85
    ||| u == 0xA0
    ||| u == 0x1680
    ||| 0x2000 <= u <= 0x200A
    ||| u == 0x2028
    ||| u == 0x2029
    ||| u == 0x202F
    ||| u == 0x205F
    ||| u == 0x3000
}

/// How much of `s` is left once the white space at its end is taken off.
pub open spec fn trimmed_len(s: Seq<char>) -> nat
    decreases s.len(),
{
    if s.len() > 0 && is_whitespace(s.last()) {
        trimmed_len(s.drop_last())
    } else {
        s.len()
    }
}

/// `s` without the white space at its end.
pub open spec fn trim_end_spec(s: Seq<char>) -> Seq<char> {
    s.take(trimmed_len(s) as int)
}

/// Whether `c` is white space.
pub fn char_is_whitespace(c: char) -> (r: bool)
    ensures
        r == is_whitespace(c),
{
    let u: u32 = c as u32;
    (0x09 <= u && u <= 0x0D) || u == 0x20 || u == 0x85 || u == 0xA0 || u == 0x1680 || (0x2000
        <= u && u <= 0x200A) || u == 0x2028 || u == 0x2029 || u == 0x202F || u == 0x205F || u
        == 0x3000
}

/// Takes the white space off the end of `s`, a line terminator included.
pub fn trim_end(s: &str) -> (r: &str)
    ensures
        r@ == trim_end_spec(s@),
{
    let chars = chars_of(s);
    let mut end: usize = chars.len();
    assert(s@.take(end as int) =~= s@);
    while end > 0 && char_is_whitespace(chars[end - 1])
        invariant
            end <= chars.len(),
            chars@ == s@,
            trimmed_len(s@) == trimmed_len(s@.take(end as int)),
        decreases end,
    {
        proof {
            assert(s@.take(end as int).drop_last() =~= s@.take(end - 1));
        }
        end -= 1;
    }
    s.substring_char(0, end)
}

} // verus!
