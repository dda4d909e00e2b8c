//! Text helpers over the characters of a string.
//!
//! Contracts speak of a string through its view, the sequence of its
//! characters. Positions are character positions, never byte offsets.

use vstd::prelude::*;

verus! {

/// Whether `c` has the Unicode property White_Space, as `char::is_whitespace`
/// reports it.
pub uninterp spec fn white_space(c: char) -> bool;

/// Calls `char::is_whitespace`. The contract only gives the answer its name.
#[verifier::external_body]
pub(crate) fn is_white_space(c: char) -> (b: bool)
    ensures
        b == white_space(c),
{
    c.is_whitespace()
}

/// `s` without its leading white space.
pub open spec fn trim_start(s: Seq<char>) -> Seq<char>
    decreases s.len(),
{
    if s.len() > 0 && white_space(s[0]) {
        trim_start(s.drop_first())
    } else {
        s
    }
}

/// `s` without its trailing white space.
pub open spec fn trim_end(s: Seq<char>) -> Seq<char>
    decreases s.len(),
{
    if s.len() > 0 && white_space(s.last()) {
        trim_end(s.drop_last())
    } else {
        s
    }
}

/// `s` without the white space at either end.
pub open spec fn trimmed(s: Seq<char>) -> Seq<char> {
    trim_end(trim_start(s))
}

/// Whether `s` holds nothing but white space.
pub open spec fn blank(s: Seq<char>) -> bool {
    forall|i: int| 0 <= i < s.len() ==> white_space(#[trigger] s[i])
}

/// The texts of `parts`, each followed by `separator` but the last.
pub open spec fn joined(parts: Seq<Seq<char>>, separator: Seq<char>) -> Seq<char>
    decreases parts.len(),
{
    if parts.len() == 0 {
        Seq::empty()
    } else if parts.len() == 1 {
        parts[0]
    } else {
        joined(parts.drop_last(), separator) + separator + parts.last()
    }
}

/// The characters of each string in `parts`.
pub open spec fn texts_of(parts: Seq<&str>) -> Seq<Seq<char>> {
    Seq::new(parts.len(), |i: int| parts[i]@)
}

/// The digit that a character stands for.
pub open spec fn digit_of(c: char) -> nat {
    (c as nat - '0' as nat) as nat
}

/// Whether `c` is a decimal digit.
pub open spec fn is_digit(c: char) -> bool {
    '0' <= c && c <= '9'
}

/// Whether `s` holds nothing but decimal digits.
pub open spec fn all_digits(s: Seq<char>) -> bool {
    forall|i: int| 0 <= i < s.len() ==> is_digit(#[trigger] s[i])
}

/// The number that the digits of `s` write.
pub open spec fn digits_value(s: Seq<char>) -> nat
    decreases s.len(),
{
    if s.len() == 0 {
        0
    } else {
        digits_value(s.drop_last()) * 10 + digit_of(s.last())
    }
}

/// A number's text without the plus sign that may stand before its digits.
pub open spec fn unsigned_part(s: Seq<char>) -> Seq<char> {
    if s.len() > 0 && s[0] == '+' {
        s.drop_first()
    } else {
        s
    }
}

/// The number that `s` writes in decimal digits, with or without a plus
/// sign before them; `None` where `s` has no digits, holds anything else,
/// or writes a number above `limit`.
pub open spec fn decimal(s: Seq<char>, limit: nat) -> Option<nat> {
    let digits = unsigned_part(s);
    if digits.len() > 0 && all_digits(digits) && digits_value(digits) <= limit {
        Some(digits_value(digits))
    } else {
        None
    }
}

/// The three backticks that open and close a fenced block.
pub open spec fn fence() -> Seq<char> {
    seq!['`', '`', '`']
}

/// The characters of `s`, in order.
pub fn chars_of(s: &str) -> (v: Vec<char>)
    ensures
        v@ == s@,
{
    let mut v: Vec<char> = Vec::new();
    for c in it: s.chars()
        invariant
            v@ == it.seq().take(it.index()),
    {
        v.push(c);
    }
    v
}

/// Whether two strings hold the same characters.
pub fn same_text(a: &str, b: &str) -> (r: bool)
    ensures
        r == (a@ == b@),
{
    let x = a.to_owned();
    let y = b.to_owned();
    x == y
}

/// The strings of `parts` in one, with `separator` between them.
pub fn join(parts: &Vec<&str>, separator: &str) -> (r: String)
    ensures
        r@ == joined(texts_of(parts@), separator@),
{
    let mut out = String::new();
    let mut i: usize = 0;
    while i < parts.len()
        invariant
            i <= parts.len(),
            out@ == joined(texts_of(parts@).take(i as int), separator@),
        decreases parts.len() - i,
    {
        proof {
            let all = texts_of(parts@);
            assert(all.take(i + 1).drop_last() =~= all.take(i as int));
            assert(all.take(i + 1).last() == parts@[i as int]@);
            if i == 0 {
                assert(out@ + parts@[0]@ =~= parts@[0]@);
            }
        }
        if i > 0 {
            out.append(separator);
        }
        out.append(parts[i]);
        i += 1;
    }
    proof {
        assert(texts_of(parts@).take(parts.len() as int) =~= texts_of(parts@));
    }
    out
}

/// The digits of a longer text write no smaller number.
proof fn lemma_digits_grow(s: Seq<char>, k: int)
    requires
        0 <= k <= s.len(),
    ensures
        digits_value(s.take(k)) <= digits_value(s),
    decreases s.len() - k,
{
    if k == s.len() {
        assert(s.take(k) =~= s);
    } else {
        assert(s.drop_last().take(k) =~= s.take(k));
        lemma_digits_grow(s.drop_last(), k);
    }
}

/// The number that `v` writes from `from` up to `to`, if it is one and no
/// greater than `limit`.
pub fn parse_decimal(v: &Vec<char>, from: usize, to: usize, limit: u64) -> (r: Option<u64>)
    requires
        from <= to <= v.len(),
    ensures
        match r {
            Some(n) => decimal(v@.subrange(from as int, to as int), limit as nat) == Some(n as nat),
            None => decimal(v@.subrange(from as int, to as int), limit as nat) is None,
        },
{
    let ghost part = v@.subrange(from as int, to as int);
    let start = if from < to && v[from] == '+' {
        from + 1
    } else {
        from
    };
    let ghost digits = v@.subrange(start as int, to as int);
    proof {
        if from < to {
            assert(part[0] == v@[from as int]);
        }
        assert(unsigned_part(part) =~= digits);
    }
    if start == to {
        return None;
    }
    let mut value: u128 = 0;
    let mut i: usize = start;
    proof {
        assert(digits.take(0) =~= Seq::<char>::empty());
    }
    while i < to
        invariant
            start <= i <= to <= v.len(),
            start < to,
            digits == v@.subrange(start as int, to as int),
            digits == unsigned_part(v@.subrange(from as int, to as int)),
            all_digits(digits.take(i - start)),
            value == digits_value(digits.take(i - start)),
            value <= limit,
        decreases to - i,
    {
        let c = v[i];
        let ghost next = digits.take(i - start + 1);
        proof {
            assert(digits[i - start] == c);
            assert(next.drop_last() =~= digits.take(i - start));
            assert(next.last() == c);
        }
        if !('0' <= c && c <= '9') {
            assert(!is_digit(digits[i - start]));
            return None;
        }
        value = value * 10 + (c as u128 - '0' as u128);
        proof {
            assert(all_digits(next)) by {
                assert forall|j: int| 0 <= j < next.len() implies is_digit(#[trigger] next[j]) by {
                    if j < next.len() - 1 {
                        assert(next[j] == digits.take(i - start)[j]);
                    }
                }
            }
            assert(value == digits_value(next));
        }
        if value > limit as u128 {
            proof {
                lemma_digits_grow(digits, i - start + 1);
            }
            return None;
        }
        i += 1;
    }
    proof {
        assert(digits.take(to - start) =~= digits);
    }
    Some(value as u64)
}

/// The first position of `c` in `v`.
pub fn first_position(v: &Vec<char>, c: char) -> (r: Option<usize>)
    ensures
        match r {
            Some(i) => i < v.len() && v@.index_of_first(c) == Some(i as int),
            None => v@.index_of_first(c) is None,
        },
{
    let mut i: usize = 0;
    while i < v.len()
        invariant
            i <= v.len(),
            forall|k: int| 0 <= k < i ==> v@[k] != c,
        decreases v.len() - i,
    {
        if v[i] == c {
            proof {
                assert(v@.contains(c));
                v@.index_of_first_ensures(c);
            }
            return Some(i);
        }
        i += 1;
    }
    proof {
        v@.index_of_first_ensures(c);
    }
    None
}

/// The last position of `c` in `v`.
pub fn last_position(v: &Vec<char>, c: char) -> (r: Option<usize>)
    ensures
        match r {
            Some(i) => i < v.len() && v@.index_of_last(c) == Some(i as int),
            None => v@.index_of_last(c) is None,
        },
{
    let mut i: usize = v.len();
    while i > 0
        invariant
            i <= v.len(),
            forall|k: int| i <= k < v.len() ==> v@[k] != c,
        decreases i,
    {
        i -= 1;
        if v[i] == c {
            proof {
                assert(v@.contains(c));
                v@.index_of_last_ensures(c);
            }
            return Some(i);
        }
    }
    proof {
        v@.index_of_last_ensures(c);
    }
    None
}

/// Whether `v` begins with a fence.
pub fn starts_with_fence(v: &Vec<char>) -> (r: bool)
    ensures
        r == fence().is_prefix_of(v@),
{
    let r = v.len() >= 3 && v[0] == '`' && v[1] == '`' && v[2] == '`';
    proof {
        if r {
            assert(v@.subrange(0, 3) =~= fence());
        } else if v.len() >= 3 {
            assert(v@.subrange(0, 3)[0] == v@[0]);
            assert(v@.subrange(0, 3)[1] == v@[1]);
            assert(v@.subrange(0, 3)[2] == v@[2]);
        }
    }
    r
}

/// Whether `v` ends with a fence.
pub fn ends_with_fence(v: &Vec<char>) -> (r: bool)
    ensures
        r == fence().is_suffix_of(v@),
{
    let n = v.len();
    let r = n >= 3 && v[n - 3] == '`' && v[n - 2] == '`' && v[n - 1] == '`';
    proof {
        if r {
            assert(v@.subrange(n - 3, n as int) =~= fence());
        } else if n >= 3 {
            let tail = v@.subrange(n - 3, n as int);
            assert(tail[0] == v@[n - 3]);
            assert(tail[1] == v@[n - 2]);
            assert(tail[2] == v@[n - 1]);
        }
    }
    r
}

/// `s` without the white space at either end.
pub fn trim<'a>(s: &'a str) -> (r: &'a str)
    ensures
        r@ == trimmed(s@),
{
    let v = chars_of(s);
    let n = v.len();
    let mut i: usize = 0;
    assert(v@.skip(0) =~= v@);
    while i < n && is_white_space(v[i])
        invariant
            n == v.len(),
            i <= n,
            trim_start(v@) == trim_start(v@.skip(i as int)),
        decreases n - i,
    {
        proof {
            assert(v@.skip(i as int).drop_first() =~= v@.skip(i + 1));
        }
        i += 1;
    }
    assert(trim_start(v@) == v@.skip(i as int));
    let mut j: usize = n;
    while j > i && is_white_space(v[j - 1])
        invariant
            n == v.len(),
            i <= j <= n,
            trim_end(v@.skip(i as int)) == trim_end(v@.subrange(i as int, j as int)),
        decreases j,
    {
        proof {
            assert(v@.subrange(i as int, j as int).drop_last() =~= v@.subrange(i as int, j - 1));
        }
        j -= 1;
    }
    proof {
        assert(v@.skip(i as int) =~= v@.subrange(i as int, n as int));
        let part = v@.subrange(i as int, j as int);
        if j > i {
            assert(part.last() == v@[j - 1]);
        }
        assert(trim_end(part) == part);
    }
    s.substring_char(i, j)
}

/// Whether `s` holds nothing but white space.
pub fn is_blank(s: &str) -> (r: bool)
    ensures
        r == blank(s@),
{
    let v = chars_of(s);
    let mut i: usize = 0;
    while i < v.len()
        invariant
            v@ == s@,
            i <= v.len(),
            forall|k: int| 0 <= k < i ==> white_space(#[trigger] v@[k]),
        decreases v.len() - i,
    {
        if !is_white_space(v[i]) {
            return false;
        }
        i += 1;
    }
    true
}

} // verus!
