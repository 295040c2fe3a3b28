//! The project descriptor: which version of which candidate a project asks for.
//!
//! A descriptor is a text of `key=value` lines. Its meaning is a finite map
//! from candidate to version, in which a later line for a candidate replaces
//! an earlier one.

use crate::utils::text::{
    chars_of, find_char, first_index, Span, split, split_spans, string_of, trim, trim_span,
};
use crate::utils::text_map::TextMap;
use vstd::prelude::*;

verus! {

/// What one line declares, if anything.
///
/// A line is trimmed first. An empty line, a line that starts with `#` and a
/// line without `=` declare nothing. Otherwise the key is what stands before
/// the first `=` and the value what stands behind it, both trimmed; either may
/// be empty.
pub open spec fn line_entry(line: Seq<char>) -> Option<(Seq<char>, Seq<char>)> {
    let t = trim(line);
    let k = first_index(t, '=');
    if t.len() == 0 || t[0] == '#' || k >= t.len() {
        None
    } else {
        Some((trim(t.take(k)), trim(t.skip(k + 1))))
    }
}

/// The map that a sequence of lines declares, later lines winning.
pub open spec fn lines_map(lines: Seq<Seq<char>>) -> Map<Seq<char>, Seq<char>>
    decreases lines.len(),
{
    if lines.len() == 0 {
        Map::<Seq<char>, Seq<char>>::empty()
    } else {
        let before = lines_map(lines.drop_last());
        match line_entry(lines.last()) {
            Some(e) => before.insert(e.0, e.1),
            None => before,
        }
    }
}

/// The map that a descriptor text declares.
///
/// Lines end at a line feed. Because every line is trimmed, a carriage return
/// before the line feed and an empty piece behind the last line feed change
/// nothing.
pub open spec fn descriptor_of(content: Seq<char>) -> Map<Seq<char>, Seq<char>> {
    lines_map(split(content, '\n'))
}

/// Reads a descriptor text.
pub fn parse_descriptor(content: &str) -> (r: TextMap)
    ensures
        r.wf(),
        r@ == descriptor_of(content@),
{
    let chars = chars_of(content);
    let spans = split_spans(&chars, 0, chars.len(), '\n');
    let ghost lines = split(content@, '\n');
    assert(chars@.subrange(0, chars@.len() as int) =~= content@);
    let mut r = TextMap::new();
    let mut j: usize = 0;
    while j < spans.len()
        invariant
            chars@ == content@,
            lines == split(content@, '\n'),
            spans@.len() == lines.len(),
            forall|n: int|
                0 <= n < spans@.len() ==> (#[trigger] spans@[n]).within(
                    0,
                    chars@.len() as int,
                ) && spans@[n].of(chars@) == lines[n],
            j <= spans@.len(),
            r.wf(),
            r@ == lines_map(lines.take(j as int)),
        decreases spans@.len() - j,
    {
        let line: Span = spans[j];
        let t = trim_span(&chars, line.lo, line.hi);
        proof {
            assert(lines.take(j + 1).drop_last() =~= lines.take(j as int));
            assert(lines.take(j + 1).last() == lines[j as int]);
        }
        if t.lo < t.hi && chars[t.lo] != '#' {
            let k = find_char(&chars, t.lo, t.hi, '=');
            if k < t.hi {
                let key = trim_span(&chars, t.lo, k);
                let value = trim_span(&chars, k + 1, t.hi);
                proof {
                    assert(chars@.subrange(t.lo as int, k as int) =~= t.of(chars@).take(
                        k - t.lo,
                    ));
                    assert(chars@.subrange(k + 1, t.hi as int) =~= t.of(chars@).skip(
                        k - t.lo + 1,
                    ));
                }
                r.insert(
                    string_of(&chars, key.lo, key.hi),
                    string_of(&chars, value.lo, value.hi),
                );
            }
        }
        j = j + 1;
    }
    assert(lines.take(spans@.len() as int) =~= lines);
    r
}

} // verus!
