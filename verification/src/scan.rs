//! Reading text that the system hands out in lines and fields: characters
//! by index, whitespace trimmed, substrings found.

use vstd::prelude::*;

verus! {

/// What `char::is_whitespace` returns: whether the character has the
/// Unicode property `White_Space`.
pub uninterp spec fn white_space(c: char) -> bool;

/// Calls `char::is_whitespace`. The answer depends on the character alone,
/// so it is `white_space` of it; which characters those are is not stated.
#[verifier::external_body]
fn is_whitespace(c: char) -> (b: bool)
    ensures
        b == white_space(c),
{
    c.is_whitespace()
}

/// The characters of a text, by index.
pub fn chars_of(s: &str) -> (v: Vec<char>)
    ensures
        v@ == s@,
{
    let mut v: Vec<char> = Vec::new();
    for c in iter: s.chars()
        invariant
            iter.seq() == s@,
            v@ == s@.take(iter.index() as int),
    {
        proof {
            let k = iter.index() as int;
            assert(s@.take(k + 1) =~= s@.take(k).push(s@[k]));
        }
        v.push(c);
    }
    proof {
        assert(s@.take(s@.len() as int) =~= s@);
    }
    v
}

/// The text made of the characters from `from` up to `to`.
pub fn text_of(v: &Vec<char>, from: usize, to: usize) -> (s: String)
    requires
        from <= to <= v@.len(),
    ensures
        s@ == v@.subrange(from as int, to as int),
{
    let mut s = String::new();
    let mut i: usize = from;
    while i < to
        invariant
            from <= i <= to <= v@.len(),
            s@ == v@.subrange(from as int, i as int),
        decreases to - i,
    {
        proof {
            assert(v@.subrange(from as int, i + 1) =~= v@.subrange(from as int, i as int).push(
                v@[i as int],
            ));
        }
        s.push(v[i]);
        i = i + 1;
    }
    s
}

/// `s` without the whitespace it begins with.
pub open spec fn trim_start(s: Seq<char>) -> Seq<char>
    decreases s.len(),
{
    if s.len() > 0 && white_space(s[0]) {
        trim_start(s.drop_first())
    } else {
        s
    }
}

/// `s` without the whitespace it ends with.
pub open spec fn trim_end(s: Seq<char>) -> Seq<char>
    decreases s.len(),
{
    if s.len() > 0 && white_space(s.last()) {
        trim_end(s.drop_last())
    } else {
        s
    }
}

/// `s` without the whitespace around it.
pub open spec fn trimmed(s: Seq<char>) -> Seq<char> {
    trim_end(trim_start(s))
}

/// Finds where the characters from `from` up to `to` begin and end once
/// the whitespace around them is left out.
pub fn trim(v: &Vec<char>, from: usize, to: usize) -> (bounds: (usize, usize))
    requires
        from <= to <= v@.len(),
    ensures
        from <= bounds.0 <= bounds.1 <= to,
        v@.subrange(bounds.0 as int, bounds.1 as int) == trimmed(
            v@.subrange(from as int, to as int),
        ),
{
    let mut a: usize = from;
    while a < to && is_whitespace(v[a])
        invariant
            from <= a <= to <= v@.len(),
            trim_start(v@.subrange(from as int, to as int)) == trim_start(
                v@.subrange(a as int, to as int),
            ),
        decreases to - a,
    {
        proof {
            assert(v@.subrange(a as int, to as int).drop_first() =~= v@.subrange(
                a + 1,
                to as int,
            ));
        }
        a = a + 1;
    }
    let mut b: usize = to;
    while a < b && is_whitespace(v[b - 1])
        invariant
            from <= a <= b <= to <= v@.len(),
            trim_start(v@.subrange(from as int, to as int)) == v@.subrange(a as int, to as int),
            trim_end(v@.subrange(a as int, to as int)) == trim_end(
                v@.subrange(a as int, b as int),
            ),
        decreases b - a,
    {
        proof {
            assert(v@.subrange(a as int, b as int).drop_last() =~= v@.subrange(a as int, b - 1));
        }
        b = b - 1;
    }
    (a, b)
}

/// `needle` stands in `s` at the index `i`.
pub open spec fn occurs_at(s: Seq<char>, needle: Seq<char>, i: int) -> bool {
    0 <= i && i + needle.len() <= s.len() && s.subrange(i, i + needle.len()) == needle
}

/// `needle` stands somewhere in `s`.
pub open spec fn occurs_in(s: Seq<char>, needle: Seq<char>) -> bool {
    exists|i: int| occurs_at(s, needle, i)
}

fn matches_at(s: &Vec<char>, needle: &Vec<char>, i: usize) -> (found: bool)
    requires
        i + needle@.len() <= s@.len(),
    ensures
        found == occurs_at(s@, needle@, i as int),
{
    let mut j: usize = 0;
    while j < needle.len()
        invariant
            j <= needle.len(),
            i + needle.len() <= s.len(),
            forall|k: int| 0 <= k < j ==> s@[i + k] == needle@[k],
        decreases needle.len() - j,
    {
        if s[i + j] != needle[j] {
            assert(s@.subrange(i as int, i + needle@.len())[j as int] == s@[i + j]);
            return false;
        }
        j = j + 1;
    }
    assert(s@.subrange(i as int, i + needle@.len()) =~= needle@);
    true
}

/// Whether `needle` stands somewhere in `s`.
pub fn contains(s: &str, needle: &str) -> (found: bool)
    ensures
        found == occurs_in(s@, needle@),
{
    let hay = chars_of(s);
    let pin = chars_of(needle);
    if pin.len() > hay.len() {
        return false;
    }
    let last: usize = hay.len() - pin.len();
    let mut i: usize = 0;
    loop
        invariant
            hay@ == s@,
            pin@ == needle@,
            last == hay.len() - pin.len(),
            i <= last,
            forall|k: int| 0 <= k < i ==> !occurs_at(s@, needle@, k),
        decreases last - i,
    {
        if matches_at(&hay, &pin, i) {
            return true;
        }
        if i == last {
            return false;
        }
        i = i + 1;
    }
}

/// What follows the last `separator` in `s`: all of `s` when there is none.
pub open spec fn after_last(s: Seq<char>, separator: char) -> Seq<char>
    decreases s.len(),
{
    if s.len() == 0 || s.last() == separator {
        Seq::empty()
    } else {
        after_last(s.drop_last(), separator).push(s.last())
    }
}

/// What follows the last `separator` in `s`.
pub fn last_segment(s: &str, separator: char) -> (segment: String)
    ensures
        segment@ == after_last(s@, separator),
{
    let v = chars_of(s);
    let mut start: usize = v.len();
    proof {
        assert(v@.take(start as int) =~= v@);
        assert(after_last(v@, separator) + v@.skip(start as int) =~= after_last(v@, separator));
    }
    while start > 0 && v[start - 1] != separator
        invariant
            v@ == s@,
            start <= v@.len(),
            after_last(v@, separator) == after_last(v@.take(start as int), separator) + v@.skip(
                start as int,
            ),
        decreases start,
    {
        proof {
            let head = v@.take(start as int);
            assert(head.drop_last() =~= v@.take(start - 1));
            assert(after_last(v@.take(start - 1), separator).push(head.last()) + v@.skip(
                start as int,
            ) =~= after_last(v@.take(start - 1), separator) + v@.skip(start - 1));
        }
        start = start - 1;
    }
    proof {
        assert(after_last(v@.take(start as int), separator) =~= Seq::<char>::empty());
        assert(Seq::<char>::empty() + v@.skip(start as int) =~= v@.subrange(
            start as int,
            v@.len() as int,
        ));
    }
    text_of(&v, start, v.len())
}

/// Where the line that begins at `from` ends: at the next line feed, or at
/// the end of the text.
pub open spec fn line_end(s: Seq<char>, from: int) -> int
    decreases s.len() - from,
{
    if from >= s.len() || s[from] == '\n' {
        from
    } else {
        line_end(s, from + 1)
    }
}

/// The end of a line is within the text, not before the beginning of the
/// line, and no line feed stands within the line.
pub proof fn lemma_line_end(s: Seq<char>, from: int)
    requires
        0 <= from <= s.len(),
    ensures
        from <= line_end(s, from) <= s.len(),
        line_end(s, from) < s.len() ==> s[line_end(s, from)] == '\n',
        forall|i: int| from <= i < line_end(s, from) ==> s[i] != '\n',
    decreases s.len() - from,
{
    if from >= s.len() || s[from] == '\n' {
    } else {
        lemma_line_end(s, from + 1);
    }
}

/// Finds where the line that begins at `from` ends.
pub fn find_line_end(v: &Vec<char>, from: usize) -> (end: usize)
    requires
        from <= v@.len(),
    ensures
        end == line_end(v@, from as int),
        from <= end <= v@.len(),
{
    let mut end: usize = from;
    while end < v.len() && v[end] != '\n'
        invariant
            from <= end <= v@.len(),
            line_end(v@, from as int) == line_end(v@, end as int),
        decreases v@.len() - end,
    {
        end = end + 1;
    }
    end
}

/// Where the field that begins at `from` ends within the line that ends at
/// `to`: at the next whitespace, or at the end of the line.
pub open spec fn field_end(s: Seq<char>, from: int, to: int) -> int
    decreases to - from,
{
    if from >= to || white_space(s[from]) {
        from
    } else {
        field_end(s, from + 1, to)
    }
}

/// Where the next field begins at or after `from` within the line that ends
/// at `to`: after the whitespace, or at the end of the line.
pub open spec fn field_start(s: Seq<char>, from: int, to: int) -> int
    decreases to - from,
{
    if from >= to || !white_space(s[from]) {
        from
    } else {
        field_start(s, from + 1, to)
    }
}

/// Finds the next field at or after `from` within the line that ends at
/// `to`: where it begins and where it ends. An empty field means that the
/// line has no more fields.
pub fn next_field(v: &Vec<char>, from: usize, to: usize) -> (bounds: (usize, usize))
    requires
        from <= to <= v@.len(),
    ensures
        bounds.0 == field_start(v@, from as int, to as int),
        bounds.1 == field_end(v@, bounds.0 as int, to as int),
        from <= bounds.0 <= bounds.1 <= to,
{
    let mut a: usize = from;
    while a < to && is_whitespace(v[a])
        invariant
            from <= a <= to <= v@.len(),
            field_start(v@, from as int, to as int) == field_start(v@, a as int, to as int),
        decreases to - a,
    {
        a = a + 1;
    }
    let mut b: usize = a;
    while b < to && !is_whitespace(v[b])
        invariant
            a <= b <= to <= v@.len(),
            field_end(v@, a as int, to as int) == field_end(v@, b as int, to as int),
        decreases to - b,
    {
        b = b + 1;
    }
    (a, b)
}

/// Whether the characters from `from` up to `to` are those of `other`.
pub fn same_text(v: &Vec<char>, from: usize, to: usize, other: &Vec<char>) -> (same: bool)
    requires
        from <= to <= v@.len(),
    ensures
        same == (v@.subrange(from as int, to as int) == other@),
{
    if to - from != other.len() {
        return false;
    }
    let found = matches_at(v, other, from);
    found
}

} // verus!
