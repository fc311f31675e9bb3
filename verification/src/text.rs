//! Small verified text helpers shared by the rest of the crate: decimal
//! rendering of counters and memory sizes, substring search for the device
//! filter, equality and trimming for the terminal command interpreter.

use vstd::prelude::*;
use vstd::string::*;

verus! {

/// Relies on String::push: appends exactly the given character at the end.
pub assume_specification[ String::push ](s: &mut String, ch: char)
    ensures
        final(s)@ == old(s)@ + seq![ch],
;

/// The character for one decimal digit.
pub open spec fn digit_char(d: int) -> char {
    if d == 0 {
        '0'
    } else if d == 1 {
        '1'
    } else if d == 2 {
        '2'
    } else if d == 3 {
        '3'
    } else if d == 4 {
        '4'
    } else if d == 5 {
        '5'
    } else if d == 6 {
        '6'
    } else if d == 7 {
        '7'
    } else if d == 8 {
        '8'
    } else {
        '9'
    }
}

/// The usual decimal rendering of `n`, most significant digit first and
/// without leading zeros (a single zero for zero itself).
pub open spec fn spec_decimal(n: nat) -> Seq<char>
    decreases n,
{
    if n < 10 {
        seq![digit_char(n as int)]
    } else {
        spec_decimal(n / 10) + seq![digit_char((n % 10) as int)]
    }
}

fn digit_to_char(d: u64) -> (c: char)
    requires
        d < 10,
    ensures
        c == digit_char(d as int),
{
    if d == 0 {
        '0'
    } else if d == 1 {
        '1'
    } else if d == 2 {
        '2'
    } else if d == 3 {
        '3'
    } else if d == 4 {
        '4'
    } else if d == 5 {
        '5'
    } else if d == 6 {
        '6'
    } else if d == 7 {
        '7'
    } else if d == 8 {
        '8'
    } else {
        '9'
    }
}

/// Renders `n` in decimal.
pub fn u64_to_string(n: u64) -> (s: String)
    ensures
        s@ == spec_decimal(n as nat),
    decreases n,
{
    if n < 10 {
        let mut s = String::new();
        s.push(digit_to_char(n));
        proof {
            assert(s@ =~= spec_decimal(n as nat));
        }
        s
    } else {
        let mut s = u64_to_string(n / 10);
        s.push(digit_to_char(n % 10));
        proof {
            assert(s@ =~= spec_decimal(n as nat));
        }
        s
    }
}

/// A value scaled to hundredths, rendered with two places after the point:
/// the whole part in decimal, a point, then exactly two digits.
pub open spec fn spec_hundredths(h: nat) -> Seq<char> {
    spec_decimal(h / 100) + seq!['.', digit_char(((h / 10) % 10) as int), digit_char(
        (h % 10) as int,
    )]
}

/// Renders a count of hundredths as a two-decimal fixed-point number.
pub fn hundredths_to_string(h: u64) -> (s: String)
    ensures
        s@ == spec_hundredths(h as nat),
{
    let mut s = u64_to_string(h / 100);
    s.push('.');
    s.push(digit_to_char((h / 10) % 10));
    s.push(digit_to_char(h % 10));
    proof {
        assert(s@ =~= spec_hundredths(h as nat));
    }
    s
}

/// `needle` occurs in `hay` starting at position `i`.
pub open spec fn occurs_at(hay: Seq<char>, needle: Seq<char>, i: int) -> bool {
    &&& 0 <= i
    &&& i + needle.len() <= hay.len()
    &&& hay.subrange(i, i + needle.len() as int) == needle
}

/// `needle` occurs somewhere in `hay`.
pub open spec fn contains_seq(hay: Seq<char>, needle: Seq<char>) -> bool {
    exists|i: int| occurs_at(hay, needle, i)
}

fn match_at(hay: &str, needle: &str, i: usize, hay_len: usize, needle_len: usize) -> (r: bool)
    requires
        hay_len == hay@.len(),
        needle_len == needle@.len(),
        i + needle_len <= hay_len,
    ensures
        r == occurs_at(hay@, needle@, i as int),
{
    let mut j: usize = 0;
    while j < needle_len
        invariant
            j <= needle_len,
            hay_len == hay@.len(),
            needle_len == needle@.len(),
            i + needle_len <= hay_len,
            forall|k: int| 0 <= k < j ==> hay@[i + k] == needle@[k],
        decreases needle_len - j,
    {
        if hay.get_char(i + j) != needle.get_char(j) {
            proof {
                let sub = hay@.subrange(i as int, i + needle@.len() as int);
                assert(sub[j as int] == hay@[i + j]);
            }
            return false;
        }
        j += 1;
    }
    proof {
        assert(hay@.subrange(i as int, i + needle@.len() as int) =~= needle@);
    }
    true
}

/// Substring search: whether `needle` occurs anywhere in `hay`.
pub fn str_contains(hay: &str, needle: &str) -> (r: bool)
    ensures
        r == contains_seq(hay@, needle@),
{
    let hay_len = hay.unicode_len();
    let needle_len = needle.unicode_len();
    if needle_len > hay_len {
        proof {
            assert(forall|i: int| !occurs_at(hay@, needle@, i));
        }
        return false;
    }
    if needle_len == 0 {
        proof {
            assert(hay@.subrange(0, 0) =~= needle@);
            assert(occurs_at(hay@, needle@, 0));
        }
        return true;
    }
    let mut i: usize = 0;
    while i <= hay_len - needle_len
        invariant
            0 < needle_len <= hay_len,
            hay_len == hay@.len(),
            needle_len == needle@.len(),
            forall|k: int| 0 <= k < i ==> !occurs_at(hay@, needle@, k),
        decreases hay_len - needle_len + 1 - i,
    {
        if match_at(hay, needle, i, hay_len, needle_len) {
            return true;
        }
        i += 1;
    }
    proof {
        assert(forall|k: int| occurs_at(hay@, needle@, k) ==> k + needle@.len() <= hay@.len());
    }
    false
}

/// Character-for-character string equality.
pub fn str_eq(a: &str, b: &str) -> (r: bool)
    ensures
        r == (a@ == b@),
{
    let a_len = a.unicode_len();
    let b_len = b.unicode_len();
    if a_len != b_len {
        return false;
    }
    let mut i: usize = 0;
    while i < a_len
        invariant
            i <= a_len,
            a_len == a@.len(),
            a_len == b@.len(),
            forall|k: int| 0 <= k < i ==> a@[k] == b@[k],
        decreases a_len - i,
    {
        if a.get_char(i) != b.get_char(i) {
            return false;
        }
        i += 1;
    }
    proof {
        assert(a@ =~= b@);
    }
    true
}

/// A line-terminator character.
pub open spec fn is_line_break(c: char) -> bool {
    c == '\n' || c == '\r'
}

/// Length of `s` once every trailing line terminator is removed.
pub open spec fn trimmed_len(s: Seq<char>) -> int
    decreases s.len(),
{
    if s.len() == 0 {
        0
    } else if is_line_break(s[s.len() - 1]) {
        trimmed_len(s.drop_last())
    } else {
        s.len() as int
    }
}

/// The trimmed length is a length: between zero and the full length.
pub proof fn lemma_trimmed_len_bounds(s: Seq<char>)
    ensures
        0 <= trimmed_len(s) <= s.len(),
    decreases s.len(),
{
    if s.len() != 0 && is_line_break(s[s.len() - 1]) {
        lemma_trimmed_len_bounds(s.drop_last());
    }
}

/// Removes every trailing line terminator (`\n` or `\r`), and nothing else.
pub fn trim_line_terminators<'a>(s: &'a str) -> (r: &'a str)
    ensures
        r@ == s@.subrange(0, trimmed_len(s@)),
{
    let len = s.unicode_len();
    let mut end = len;
    let mut done = false;
    proof {
        assert(s@.subrange(0, len as int) =~= s@);
    }
    while !done && end > 0
        invariant
            end <= len,
            len == s@.len(),
            !done ==> trimmed_len(s@) == trimmed_len(s@.subrange(0, end as int)),
            done ==> trimmed_len(s@) == end,
        decreases end + (if done { 0int } else { 1int }),
    {
        let c = s.get_char(end - 1);
        if c == '\n' || c == '\r' {
            proof {
                assert(s@.subrange(0, end as int).drop_last() =~= s@.subrange(0, end - 1));
            }
            end -= 1;
        } else {
            proof {
                assert(trimmed_len(s@.subrange(0, end as int)) == end);
            }
            done = true;
        }
    }
    proof {
        if !done {
            assert(s@.subrange(0, 0) =~= Seq::<char>::empty());
        }
    }
    s.substring_char(0, end)
}

/// Position just after the last `\n` of `s` (the whole of `s` is one line
/// when no `\n` occurs).
pub open spec fn last_line_start(s: Seq<char>) -> int
    decreases s.len(),
{
    if s.len() == 0 {
        0
    } else if s[s.len() - 1] == '\n' {
        s.len() as int
    } else {
        last_line_start(s.drop_last())
    }
}

/// The last line starts at a position within the text.
pub proof fn lemma_last_line_start_bounds(s: Seq<char>)
    ensures
        0 <= last_line_start(s) <= s.len(),
    decreases s.len(),
{
    if s.len() != 0 && s[s.len() - 1] != '\n' {
        lemma_last_line_start_bounds(s.drop_last());
    }
}

/// The text after the last line feed of `s`: the most recently entered line.
pub fn last_line<'a>(s: &'a str) -> (r: &'a str)
    ensures
        r@ == s@.subrange(last_line_start(s@), s@.len() as int),
{
    let len = s.unicode_len();
    let mut start = len;
    let mut done = false;
    proof {
        assert(s@.subrange(0, len as int) =~= s@);
    }
    while !done && start > 0
        invariant
            start <= len,
            len == s@.len(),
            !done ==> last_line_start(s@) == last_line_start(s@.subrange(0, start as int)),
            done ==> last_line_start(s@) == start,
        decreases start + (if done { 0int } else { 1int }),
    {
        let c = s.get_char(start - 1);
        if c == '\n' {
            proof {
                assert(last_line_start(s@.subrange(0, start as int)) == start);
            }
            done = true;
        } else {
            proof {
                assert(s@.subrange(0, start as int).drop_last() =~= s@.subrange(0, start - 1));
            }
            start -= 1;
        }
    }
    proof {
        if !done {
            assert(s@.subrange(0, 0) =~= Seq::<char>::empty());
        }
    }
    s.substring_char(start, len)
}

} // verus!
