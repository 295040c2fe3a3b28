//! Character-level text operations with their mathematical meaning.
//!
//! Texts are modelled as `Seq<char>`. Executable code works on a `Vec<char>`
//! and on half-open ranges of positions in it, so that no piece is copied
//! before it is known to be needed.

use vstd::prelude::*;
use vstd::string::StrSliceExecFns;

verus! {

/// `String::push` of the standard library: the character is appended to the
/// end of the string, and nothing else of it changes.
pub assume_specification[ String::push ](s: &mut String, c: char)
    ensures
        final(s)@ == old(s)@.push(c),
;

/// Whether `c` has the Unicode property `White_Space`.
pub open spec fn is_space(c: char) -> bool {
    let n = c as u32;
    ||| 0x09 <= n <= 0x0D
    ||| n == 0x20
    ||| n == 0x85
    ||| n == 0xA0
    ||| n == 0x1680
    ||| 0x2000 <= n <= 0x200A
    ||| n == 0x2028
    ||| n == 0x2029
    ||| n == 0x202F
    ||| n == 0x205F
    ||| n == 0x3000
}

/// `s` without its leading white space.
pub open spec fn skip_space(s: Seq<char>) -> Seq<char>
    decreases s.len(),
{
    if s.len() > 0 && is_space(s[0]) {
        skip_space(s.skip(1))
    } else {
        s
    }
}

/// `s` without its trailing white space.
pub open spec fn drop_space(s: Seq<char>) -> Seq<char>
    decreases s.len(),
{
    if s.len() > 0 && is_space(s.last()) {
        drop_space(s.drop_last())
    } else {
        s
    }
}

/// `s` without leading and trailing white space.
pub open spec fn trim(s: Seq<char>) -> Seq<char> {
    drop_space(skip_space(s))
}

/// The position of the first `c` in `s`, or `s.len()` where `s` holds none.
pub open spec fn first_index(s: Seq<char>, c: char) -> int
    decreases s.len(),
{
    if s.len() == 0 {
        0
    } else if s[0] == c {
        0
    } else {
        1 + first_index(s.skip(1), c)
    }
}

/// The pieces of `s` between occurrences of `sep`: one more piece than `s`
/// holds separators, none of them holding a separator.
pub open spec fn split(s: Seq<char>, sep: char) -> Seq<Seq<char>>
    decreases s.len(),
{
    if s.len() == 0 {
        seq![Seq::<char>::empty()]
    } else {
        let before = split(s.drop_last(), sep);
        if s.last() == sep {
            before.push(Seq::<char>::empty())
        } else {
            before.update(before.len() - 1, before.last().push(s.last()))
        }
    }
}

/// What stands behind the last `c` of `s`; all of `s` where it holds none.
pub open spec fn after_last(s: Seq<char>, c: char) -> Seq<char>
    decreases s.len(),
{
    if s.len() == 0 || s.last() == c {
        Seq::<char>::empty()
    } else {
        after_last(s.drop_last(), c).push(s.last())
    }
}

/// `after_last` starts behind the last `c`.
pub proof fn lemma_after_last(s: Seq<char>, c: char, start: int)
    requires
        0 <= start <= s.len(),
        start == 0 || s[start - 1] == c,
        forall|i: int| start <= i < s.len() ==> s[i] != c,
    ensures
        after_last(s, c) == s.skip(start),
    decreases s.len(),
{
    if s.len() == start {
        assert(s.skip(start) =~= Seq::<char>::empty());
    } else {
        lemma_after_last(s.drop_last(), c, start);
        assert(s.drop_last().skip(start).push(s.last()) =~= s.skip(start));
    }
}

pub fn is_space_char(c: char) -> (b: bool)
    ensures
        b == is_space(c),
{
    let n: u32 = c as u32;
    (0x09 <= n && n <= 0x0D) || n == 0x20 || n == 0x85 || n == 0xA0 || n == 0x1680 || (0x2000 <= n
        && n <= 0x200A) || n == 0x2028 || n == 0x2029 || n == 0x202F || n == 0x205F || n == 0x3000
}

/// The characters of `s`, in order.
pub fn chars_of(s: &str) -> (v: Vec<char>)
    ensures
        v@ == s@,
{
    let n: usize = s.unicode_len();
    let mut v: Vec<char> = Vec::new();
    let mut i: usize = 0;
    while i < n
        invariant
            n == s@.len(),
            i <= n,
            v@ == s@.take(i as int),
        decreases n - i,
    {
        let c = s.get_char(i);
        v.push(c);
        i = i + 1;
        assert(v@ =~= s@.take(i as int));
    }
    assert(s@.take(n as int) =~= s@);
    v
}

/// The text that `v` holds from `lo` up to `hi`.
pub fn string_of(v: &Vec<char>, lo: usize, hi: usize) -> (r: String)
    requires
        lo <= hi <= v.len(),
    ensures
        r@ == v@.subrange(lo as int, hi as int),
{
    let mut r = String::new();
    let mut i: usize = lo;
    while i < hi
        invariant
            lo <= i <= hi <= v.len(),
            r@ == v@.subrange(lo as int, i as int),
        decreases hi - i,
    {
        r.push(v[i]);
        i = i + 1;
        assert(r@ =~= v@.subrange(lo as int, i as int));
    }
    r
}

/// A half-open range of positions in a text.
#[derive(Clone, Copy, Debug)]
pub struct Span {
    pub lo: usize,
    pub hi: usize,
}

impl Span {
    /// Whether the span lies inside `[lo, hi)`.
    pub open spec fn within(self, lo: int, hi: int) -> bool {
        lo <= self.lo <= self.hi <= hi
    }

    /// The text that the span marks in `s`.
    pub open spec fn of(self, s: Seq<char>) -> Seq<char> {
        s.subrange(self.lo as int, self.hi as int)
    }
}

/// Narrows `[lo, hi)` to the part that `trim` keeps.
pub fn trim_span(v: &Vec<char>, lo: usize, hi: usize) -> (r: Span)
    requires
        lo <= hi <= v.len(),
    ensures
        r.within(lo as int, hi as int),
        r.of(v@) == trim(v@.subrange(lo as int, hi as int)),
{
    let mut a: usize = lo;
    while a < hi && is_space_char(v[a])
        invariant
            lo <= a <= hi <= v.len(),
            skip_space(v@.subrange(lo as int, hi as int)) == skip_space(
                v@.subrange(a as int, hi as int),
            ),
        decreases hi - a,
    {
        assert(v@.subrange(a as int, hi as int).skip(1) =~= v@.subrange(a + 1, hi as int));
        a = a + 1;
    }
    let mut b: usize = hi;
    while a < b && is_space_char(v[b - 1])
        invariant
            a <= b <= hi <= v.len(),
            drop_space(v@.subrange(a as int, hi as int)) == drop_space(
                v@.subrange(a as int, b as int),
            ),
        decreases b - a,
    {
        assert(v@.subrange(a as int, b as int).drop_last() =~= v@.subrange(a as int, b - 1));
        b = b - 1;
    }
    Span { lo: a, hi: b }
}

/// The position of the first `c` in `[lo, hi)`, or `hi` where there is none.
pub fn find_char(v: &Vec<char>, lo: usize, hi: usize, c: char) -> (k: usize)
    requires
        lo <= hi <= v.len(),
    ensures
        lo <= k <= hi,
        k - lo == first_index(v@.subrange(lo as int, hi as int), c),
{
    let mut i: usize = lo;
    while i < hi && v[i] != c
        invariant
            lo <= i <= hi <= v.len(),
            first_index(v@.subrange(lo as int, hi as int), c) == (i - lo) + first_index(
                v@.subrange(i as int, hi as int),
                c,
            ),
        decreases hi - i,
    {
        assert(v@.subrange(i as int, hi as int).skip(1) =~= v@.subrange(i + 1, hi as int));
        i = i + 1;
    }
    i
}

/// The position behind the last `c` in `[lo, hi)`, or `lo` where there is
/// none.
pub fn find_last(v: &Vec<char>, lo: usize, hi: usize, c: char) -> (start: usize)
    requires
        lo <= hi <= v.len(),
    ensures
        lo <= start <= hi,
        v@.subrange(start as int, hi as int) == after_last(v@.subrange(lo as int, hi as int), c),
        start > lo ==> v@[start - 1] == c,
        start == lo ==> after_last(v@.subrange(lo as int, hi as int), c).len() == hi - lo,
{
    let mut start: usize = hi;
    while start > lo && v[start - 1] != c
        invariant
            lo <= start <= hi <= v.len(),
            forall|i: int| start <= i < hi ==> v@[i] != c,
        decreases start,
    {
        start = start - 1;
    }
    proof {
        let part = v@.subrange(lo as int, hi as int);
        lemma_after_last(part, c, start - lo);
        assert(part.skip(start - lo) =~= v@.subrange(start as int, hi as int));
    }
    start
}

/// The spans of the pieces into which `sep` splits `[lo, hi)`.
pub fn split_spans(v: &Vec<char>, lo: usize, hi: usize, sep: char) -> (r: Vec<Span>)
    requires
        lo <= hi <= v.len(),
    ensures
        r@.len() == split(v@.subrange(lo as int, hi as int), sep).len(),
        forall|j: int|
            0 <= j < r@.len() ==> (#[trigger] r@[j]).within(lo as int, hi as int) && r@[j].of(v@)
                == split(v@.subrange(lo as int, hi as int), sep)[j],
{
    let mut r: Vec<Span> = Vec::new();
    let mut start: usize = lo;
    let mut i: usize = lo;
    while i < hi
        invariant
            lo <= start <= i <= hi <= v.len(),
            split(v@.subrange(lo as int, i as int), sep).len() == r@.len() + 1,
            split(v@.subrange(lo as int, i as int), sep).last() == v@.subrange(
                start as int,
                i as int,
            ),
            forall|j: int|
                0 <= j < r@.len() ==> (#[trigger] r@[j]).within(lo as int, start as int) && r@[j].of(
                    v@,
                ) == split(v@.subrange(lo as int, i as int), sep)[j],
        decreases hi - i,
    {
        proof {
            let next = v@.subrange(lo as int, i + 1);
            assert(next.drop_last() =~= v@.subrange(lo as int, i as int));
            assert(next.last() == v@[i as int]);
        }
        if v[i] == sep {
            r.push(Span { lo: start, hi: i });
            start = i + 1;
            assert(v@.subrange(start as int, start as int) =~= Seq::<char>::empty());
        } else {
            assert(v@.subrange(start as int, i as int).push(v@[i as int]) =~= v@.subrange(
                start as int,
                i + 1,
            ));
        }
        i = i + 1;
    }
    r.push(Span { lo: start, hi: hi });
    r
}

/// Whether `[lo, hi)` of `v` holds exactly the characters of `w`.
pub fn span_equals(v: &Vec<char>, lo: usize, hi: usize, w: &Vec<char>) -> (r: bool)
    requires
        lo <= hi <= v.len(),
    ensures
        r == (v@.subrange(lo as int, hi as int) == w@),
{
    if hi - lo != w.len() {
        return false;
    }
    let ghost part = v@.subrange(lo as int, hi as int);
    let mut i: usize = 0;
    while i < w.len()
        invariant
            lo <= hi <= v.len(),
            part == v@.subrange(lo as int, hi as int),
            part.len() == w@.len(),
            i <= w@.len(),
            part.take(i as int) == w@.take(i as int),
        decreases w@.len() - i,
    {
        if v[lo + i] != w[i] {
            assert(part[i as int] != w@[i as int]);
            return false;
        }
        assert(part.take(i + 1) =~= part.take(i as int).push(part[i as int]));
        assert(w@.take(i + 1) =~= w@.take(i as int).push(w@[i as int]));
        i = i + 1;
    }
    assert(part =~= part.take(part.len() as int));
    assert(w@ =~= w@.take(w@.len() as int));
    true
}

/// Whether two texts hold the same characters.
pub fn same_text(a: &str, b: &str) -> (r: bool)
    ensures
        r == (a@ == b@),
{
    let x = chars_of(a);
    let y = chars_of(b);
    assert(x@.subrange(0, x@.len() as int) =~= x@);
    span_equals(&x, 0, x.len(), &y)
}

/// Whether `s` begins with `p`.
pub open spec fn starts_with(s: Seq<char>, p: Seq<char>) -> bool {
    p.len() <= s.len() && s.take(p.len() as int) == p
}

/// Whether `p` stands somewhere in `s`.
pub open spec fn contains_text(s: Seq<char>, p: Seq<char>) -> bool {
    exists|i: int| 0 <= i && i + p.len() <= s.len() && #[trigger] s.subrange(i, i + p.len()) == p
}

/// Whether `[lo, hi)` of `v` begins with `p`.
pub fn span_starts_with(v: &Vec<char>, lo: usize, hi: usize, p: &Vec<char>) -> (r: bool)
    requires
        lo <= hi <= v.len(),
    ensures
        r == starts_with(v@.subrange(lo as int, hi as int), p@),
{
    if hi - lo < p.len() {
        return false;
    }
    assert(v@.subrange(lo as int, lo + p@.len()) =~= v@.subrange(lo as int, hi as int).take(
        p@.len() as int,
    ));
    span_equals(v, lo, lo + p.len(), p)
}

/// Whether `p` stands somewhere in `[lo, hi)` of `v`.
pub fn span_contains(v: &Vec<char>, lo: usize, hi: usize, p: &Vec<char>) -> (r: bool)
    requires
        lo <= hi <= v.len(),
    ensures
        r == contains_text(v@.subrange(lo as int, hi as int), p@),
{
    let ghost part = v@.subrange(lo as int, hi as int);
    if hi - lo < p.len() {
        return false;
    }
    if p.len() == 0 {
        assert(part.subrange(0int, 0int + p@.len()) =~= p@);
        return true;
    }
    let last: usize = hi - p.len();
    let mut i: usize = lo;
    while i <= last
        invariant
            lo <= i <= last + 1,
            last + p@.len() == hi,
            p@.len() > 0,
            hi <= v@.len(),
            part == v@.subrange(lo as int, hi as int),
            forall|j: int| 0 <= j < i - lo ==> #[trigger] part.subrange(j, j + p@.len()) != p@,
        decreases last + 1 - i,
    {
        assert(v@.subrange(i as int, i + p@.len()) =~= part.subrange(i - lo, i - lo + p@.len()));
        if span_equals(v, i, i + p.len(), p) {
            return true;
        }
        i = i + 1;
    }
    false
}

/// The character that writes a digit.
pub open spec fn digit_char(d: nat) -> char {
    if d == 0 {
        '0'
    } else if d == 1 {
        '1'
    } else if d == 2 {
        '2'
    } else if d == 3 {
        '3'
    } else if d == 4 {
        '4'
    } else if d == 5 {
        '5'
    } else if d == 6 {
        '6'
    } else if d == 7 {
        '7'
    } else if d == 8 {
        '8'
    } else {
        '9'
    }
}

/// A number written in decimal, without leading zeros.
pub open spec fn decimal(n: nat) -> Seq<char>
    decreases n,
{
    if n < 10 {
        seq![digit_char(n)]
    } else {
        decimal(n / 10).push(digit_char(n % 10))
    }
}

fn digit(d: usize) -> (c: char)
    requires
        d < 10,
    ensures
        c == digit_char(d as nat),
{
    if d == 0 {
        '0'
    } else if d == 1 {
        '1'
    } else if d == 2 {
        '2'
    } else if d == 3 {
        '3'
    } else if d == 4 {
        '4'
    } else if d == 5 {
        '5'
    } else if d == 6 {
        '6'
    } else if d == 7 {
        '7'
    } else if d == 8 {
        '8'
    } else {
        '9'
    }
}

/// Writes a number in decimal.
pub fn decimal_string(n: usize) -> (r: String)
    ensures
        r@ == decimal(n as nat),
    decreases n,
{
    if n < 10 {
        let mut r = String::new();
        r.push(digit(n));
        assert(r@ =~= seq![digit_char(n as nat)]);
        r
    } else {
        let mut r = decimal_string(n / 10);
        r.push(digit(n % 10));
        r
    }
}

} // verus!
