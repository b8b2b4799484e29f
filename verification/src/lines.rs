//! Lines of a text, and texts joined from parts.

use crate::text::{append_chars, copy_range, find_char, index_of_char};
use vstd::prelude::*;
use vstd::string::StringExecFns;

verus! {

/// The views of a vector's rows.
pub open spec fn rows(v: Seq<Vec<char>>) -> Seq<Seq<char>> {
    v.map_values(|row: Vec<char>| row@)
}

/// The views of a vector's strings.
pub open spec fn strs(v: Seq<String>) -> Seq<Seq<char>> {
    v.map_values(|s: String| s@)
}

/// `s` without one carriage return at its end, where it has one.
pub open spec fn strip_cr(s: Seq<char>) -> Seq<char> {
    if s.len() > 0 && s.last() == '\r' {
        s.drop_last()
    } else {
        s
    }
}

/// The lines of `s`. A line ends at a line feed; the line feed, and a
/// carriage return right before it, belong to no line. What follows the
/// last line feed is a line unless it is empty.
pub open spec fn lines(s: Seq<char>) -> Seq<Seq<char>>
    decreases s.len(),
{
    if s.len() == 0 {
        Seq::empty()
    } else {
        let end = index_of_char(s, '\n');
        if 0 <= end < s.len() {
            seq![strip_cr(s.take(end))] + lines(s.skip(end + 1))
        } else {
            seq![s]
        }
    }
}

/// The parts, with `sep` between each two neighbours.
pub open spec fn join(parts: Seq<Seq<char>>, sep: Seq<char>) -> Seq<char>
    decreases parts.len(),
{
    if parts.len() == 0 {
        Seq::empty()
    } else if parts.len() == 1 {
        parts[0]
    } else {
        join(parts.drop_last(), sep) + sep + parts.last()
    }
}

/// Splits `chars` into its [`lines`].
pub fn split_lines(chars: &[char]) -> (out: Vec<Vec<char>>)
    ensures
        rows(out@) == lines(chars@),
{
    let n = chars.len();
    let mut out: Vec<Vec<char>> = Vec::new();
    let mut start: usize = 0;
    assert(chars@.skip(0) == chars@);
    while start < n
        invariant
            start <= n == chars.len(),
            rows(out@) + lines(chars@.skip(start as int)) == lines(chars@),
        decreases n - start,
    {
        let ghost rest = chars@.skip(start as int);
        let ghost before = rows(out@);
        let end = find_char(chars, '\n', start, n);
        assert(rest == chars@.subrange(start as int, n as int));
        if end == n {
            let line = copy_range(chars, start, n);
            out.push(line);
            start = n;
            proof {
                assert(lines(rest) == seq![rest]);
                assert(lines(chars@.skip(n as int)) == Seq::<Seq<char>>::empty());
                assert(rows(out@) == before.push(rest));
                assert(before.push(rest) + Seq::<Seq<char>>::empty() == before + seq![rest]);
            }
        } else {
            let stop: usize = if end > start && chars[end - 1] == '\r' {
                end - 1
            } else {
                end
            };
            let line = copy_range(chars, start, stop);
            out.push(line);
            proof {
                let raw = rest.take(end - start);
                assert(raw == chars@.subrange(start as int, end as int));
                assert(strip_cr(raw) == chars@.subrange(start as int, stop as int));
                assert(rest.skip(end - start + 1) == chars@.skip(end + 1));
                assert(lines(rest) == seq![strip_cr(raw)] + lines(chars@.skip(end + 1)));
                assert(rows(out@) == before.push(strip_cr(raw)));
                assert(before.push(strip_cr(raw)) + lines(chars@.skip(end + 1)) == before + (
                seq![strip_cr(raw)] + lines(chars@.skip(end + 1))));
            }
            start = end + 1;
        }
    }
    proof {
        assert(lines(chars@.skip(n as int)) == Seq::<Seq<char>>::empty());
        assert(rows(out@) + Seq::<Seq<char>>::empty() == rows(out@));
    }
    out
}

/// The parts of `s` between the occurrences of `sep`. A text without `sep`
/// is one part; a text that ends with `sep` has an empty last part.
pub open spec fn split(s: Seq<char>, sep: char) -> Seq<Seq<char>>
    decreases s.len(),
{
    let end = index_of_char(s, sep);
    if 0 <= end < s.len() {
        seq![s.take(end)] + split(s.skip(end + 1), sep)
    } else {
        seq![s]
    }
}

/// Splits `chars` at each `sep`.
pub fn split_chars(chars: &[char], sep: char) -> (out: Vec<Vec<char>>)
    ensures
        rows(out@) == split(chars@, sep),
{
    let n = chars.len();
    let mut out: Vec<Vec<char>> = Vec::new();
    let mut start: usize = 0;
    assert(chars@.skip(0) == chars@);
    loop
        invariant
            start <= n == chars.len(),
            rows(out@) + split(chars@.skip(start as int), sep) == split(chars@, sep),
        decreases n - start,
    {
        let ghost rest = chars@.skip(start as int);
        let ghost before = rows(out@);
        let end = find_char(chars, sep, start, n);
        assert(rest == chars@.subrange(start as int, n as int));
        let part = copy_range(chars, start, end);
        out.push(part);
        if end == n {
            proof {
                assert(split(rest, sep) == seq![rest]);
                assert(rows(out@) == before.push(rest));
                assert(before.push(rest) == before + seq![rest]);
            }
            return out;
        }
        proof {
            let head = rest.take(end - start);
            assert(head == chars@.subrange(start as int, end as int));
            assert(rest.skip(end - start + 1) == chars@.skip(end + 1));
            assert(split(rest, sep) == seq![head] + split(chars@.skip(end + 1), sep));
            assert(rows(out@) == before.push(head));
            assert(before.push(head) + split(chars@.skip(end + 1), sep) == before + (seq![head]
                + split(chars@.skip(end + 1), sep)));
        }
        start = end + 1;
    }
}

/// Joins `parts[from..to]` with `sep` between each two neighbours.
pub fn join_rows(parts: &Vec<Vec<char>>, from: usize, to: usize, sep: &[char]) -> (out: Vec<char>)
    requires
        from <= to <= parts.len(),
    ensures
        out@ == join(rows(parts@).subrange(from as int, to as int), sep@),
{
    let ghost all = rows(parts@);
    let mut out: Vec<char> = Vec::new();
    let mut i: usize = from;
    while i < to
        invariant
            from <= i <= to <= parts.len(),
            all == rows(parts@),
            out@ == join(all.subrange(from as int, i as int), sep@),
        decreases to - i,
    {
        let ghost done = all.subrange(from as int, i as int);
        let ghost next = all.subrange(from as int, i + 1);
        if i > from {
            append_chars(&mut out, sep);
        }
        append_chars(&mut out, parts[i].as_slice());
        proof {
            assert(next.drop_last() == done);
            assert(next.last() == parts@[i as int]@);
            if i > from {
                assert(out@ == join(done, sep@) + sep@ + next.last());
            } else {
                assert(done.len() == 0);
                assert(out@ == next[0]);
            }
        }
        i += 1;
    }
    out
}

/// The strings of `parts`, with `sep` between each two neighbours.
pub fn join_strings(parts: &Vec<String>, sep: &str) -> (out: String)
    ensures
        out@ == join(strs(parts@), sep@),
{
    let ghost all = strs(parts@);
    let mut out = String::new();
    let mut i: usize = 0;
    while i < parts.len()
        invariant
            i <= parts.len(),
            all == strs(parts@),
            out@ == join(all.take(i as int), sep@),
        decreases parts.len() - i,
    {
        let ghost done = all.take(i as int);
        let ghost next = all.take(i + 1);
        if i > 0 {
            out.append(sep);
        }
        out.append(parts[i].as_str());
        proof {
            assert(next.drop_last() == done);
            assert(next.last() == parts@[i as int]@);
            if i > 0 {
                assert(out@ == join(done, sep@) + sep@ + next.last());
            } else {
                assert(done.len() == 0);
                assert(out@ == next[0]);
            }
        }
        i += 1;
    }
    assert(all.take(parts.len() as int) == all);
    out
}

} // verus!
