//! Cutting a text down to the limits on output, by whole lines.

use crate::encoding::{
    byte_len, decimal, lemma_utf8_len_is_encoded_len, push_decimal, utf8_len,
};
use crate::inspection::InspectionLimits;
use crate::lines::{lines, rows, split_lines};
use crate::text::{append_chars, ends_with, from_chars, to_chars};
use vstd::prelude::*;

verus! {

/// What a truncation kept and what it cut from.
#[derive(Debug, Clone, Copy, Default, PartialEq, Eq, Structural)]
pub struct TruncationSummary {
    pub original_bytes: usize,
    pub original_lines: usize,
    pub kept_bytes: usize,
    pub kept_lines: usize,
    pub max_bytes: usize,
    pub max_lines: usize,
}

/// Whether `text` is within both limits as it stands.
pub open spec fn within_limits(text: Seq<char>, limits: InspectionLimits) -> bool {
    utf8_len(text) <= limits.max_output_bytes && lines(text).len() <= limits.max_output_lines
}

/// The bytes of the first `k` of `rows`, each with the line feed that ends it.
pub open spec fn bytes_of_lines(rows: Seq<Seq<char>>, k: int) -> nat
    decreases k,
{
    if k <= 0 {
        0
    } else {
        bytes_of_lines(rows, k - 1) + utf8_len(rows[k - 1]) + 1
    }
}

/// The first `k` of `rows`, each with the line feed that ends it.
pub open spec fn text_of_lines(rows: Seq<Seq<char>>, k: int) -> Seq<char>
    decreases k,
{
    if k <= 0 {
        Seq::empty()
    } else {
        text_of_lines(rows, k - 1) + rows[k - 1].push('\n')
    }
}

/// Whether the first `k` of `rows` are within both limits.
pub open spec fn lines_fit(rows: Seq<Seq<char>>, k: int, limits: InspectionLimits) -> bool {
    k <= limits.max_output_lines && bytes_of_lines(rows, k) <= limits.max_output_bytes
}

/// The number of lines kept, counting on from `k`: lines are taken in
/// order until there is none left or the next one would breach a limit.
pub open spec fn kept_from(rows: Seq<Seq<char>>, k: int, limits: InspectionLimits) -> int
    decreases rows.len() - k,
{
    if 0 <= k < rows.len() && lines_fit(rows, k + 1, limits) {
        kept_from(rows, k + 1, limits)
    } else {
        k
    }
}

/// The number of lines that a truncation of `rows` keeps.
pub open spec fn kept_lines(rows: Seq<Seq<char>>, limits: InspectionLimits) -> int {
    kept_from(rows, 0, limits)
}

/// The line that marks a truncated text.
pub open spec fn truncation_marker(summary: TruncationSummary) -> Seq<char> {
    "[truncated after "@ + decimal(summary.kept_lines as nat) + " lines/"@ + decimal(
        summary.kept_bytes as nat,
    ) + " bytes; original "@ + decimal(summary.original_lines as nat) + "/"@ + decimal(
        summary.original_bytes as nat,
    ) + "; limits "@ + decimal(summary.max_lines as nat) + "/"@ + decimal(
        summary.max_bytes as nat,
    ) + "]"@
}

/// The summary of truncating `text` to `limits`.
pub open spec fn summary_of(text: Seq<char>, limits: InspectionLimits) -> TruncationSummary {
    let kept = kept_lines(lines(text), limits);
    TruncationSummary {
        original_bytes: utf8_len(text) as usize,
        original_lines: lines(text).len() as usize,
        kept_bytes: bytes_of_lines(lines(text), kept) as usize,
        kept_lines: kept as usize,
        max_bytes: limits.max_output_bytes,
        max_lines: limits.max_output_lines,
    }
}

/// The text of truncating `text` to `limits`: the lines kept, each with
/// its line feed, and then the marker as one more line.
pub open spec fn truncated_text(text: Seq<char>, limits: InspectionLimits) -> Seq<char> {
    text_of_lines(lines(text), kept_lines(lines(text), limits)) + truncation_marker(
        summary_of(text, limits),
    )
}

/// What cutting `text` down to `limits` gives: the text, whether it was
/// cut, and the summary where it was.
pub open spec fn truncation_of(text: Seq<char>, limits: InspectionLimits) -> (
    Seq<char>,
    bool,
    Option<TruncationSummary>,
) {
    if within_limits(text, limits) {
        (text, false, None)
    } else {
        (truncated_text(text, limits), true, Some(summary_of(text, limits)))
    }
}

/// The lines kept are within both limits, and are no more than there are.
pub proof fn lemma_kept_from(rows: Seq<Seq<char>>, k: int, limits: InspectionLimits)
    requires
        0 <= k <= rows.len(),
        lines_fit(rows, k, limits),
    ensures
        k <= kept_from(rows, k, limits) <= rows.len(),
        lines_fit(rows, kept_from(rows, k, limits), limits),
        kept_from(rows, k, limits) < rows.len() ==> !lines_fit(
            rows,
            kept_from(rows, k, limits) + 1,
            limits,
        ),
    decreases rows.len() - k,
{
    if k < rows.len() && lines_fit(rows, k + 1, limits) {
        lemma_kept_from(rows, k + 1, limits);
    }
}

/// A text that was cut ends with the marker, which stands on a line of
/// its own: what goes before it is nothing or ends with a line feed. What
/// the text keeps is within both limits and is no more than there was.
pub proof fn lemma_truncated_text(text: Seq<char>, limits: InspectionLimits)
    ensures
        ends_with(truncated_text(text, limits), truncation_marker(summary_of(text, limits))),
        ({
            let kept = text_of_lines(lines(text), kept_lines(lines(text), limits));
            kept.len() == 0 || kept.last() == '\n'
        }),
        kept_lines(lines(text), limits) <= lines(text).len(),
        !within_limits(text, limits) ==> {
            &&& summary_of(text, limits).kept_lines == kept_lines(lines(text), limits)
            &&& summary_of(text, limits).kept_lines <= limits.max_output_lines
            &&& summary_of(text, limits).kept_bytes <= limits.max_output_bytes
        },
{
    let kept = text_of_lines(lines(text), kept_lines(lines(text), limits));
    let marker = truncation_marker(summary_of(text, limits));
    let whole = truncated_text(text, limits);
    assert(whole == kept + marker);
    assert(whole.subrange(whole.len() - marker.len(), whole.len() as int) == marker);
    lemma_kept_from(lines(text), 0, limits);
}

/// The bytes of the first lines grow with their number.
pub proof fn lemma_bytes_of_lines_grow(rows: Seq<Seq<char>>, j: int, k: int)
    requires
        0 <= j <= k,
    ensures
        bytes_of_lines(rows, j) <= bytes_of_lines(rows, k),
        k - j <= bytes_of_lines(rows, k) - bytes_of_lines(rows, j),
    decreases k - j,
{
    if j < k {
        lemma_bytes_of_lines_grow(rows, j, k - 1);
    }
}

/// Appends the marker of `summary` to `out`.
fn push_marker(out: &mut Vec<char>, summary: &TruncationSummary)
    ensures
        final(out)@ == old(out)@ + truncation_marker(*summary),
{
    let ghost before = out@;
    let a = to_chars("[truncated after ");
    let b = to_chars(" lines/");
    let c = to_chars(" bytes; original ");
    let d = to_chars("/");
    let e = to_chars("; limits ");
    let f = to_chars("]");
    let mut marker: Vec<char> = Vec::new();
    append_chars(&mut marker, a.as_slice());
    push_decimal(&mut marker, summary.kept_lines as u64);
    append_chars(&mut marker, b.as_slice());
    push_decimal(&mut marker, summary.kept_bytes as u64);
    append_chars(&mut marker, c.as_slice());
    push_decimal(&mut marker, summary.original_lines as u64);
    append_chars(&mut marker, d.as_slice());
    push_decimal(&mut marker, summary.original_bytes as u64);
    append_chars(&mut marker, e.as_slice());
    push_decimal(&mut marker, summary.max_lines as u64);
    append_chars(&mut marker, d.as_slice());
    push_decimal(&mut marker, summary.max_bytes as u64);
    append_chars(&mut marker, f.as_slice());
    assert(marker@ == truncation_marker(*summary));
    append_chars(out, marker.as_slice());
}

/// Cuts `text` down to `limits`.
///
/// A text within both limits comes back as it is, with `false` and no
/// summary. Any other text is cut to its first whole lines, as many as stay
/// within both limits when each is counted with its line feed; after them
/// comes the marker
/// `[truncated after K lines/B bytes; original L/Z; limits ML/MB]` as one
/// more line, and the result holds `true` and the summary. The summary
/// counts the bytes and lines of the text and of what was kept.
pub fn truncate_with_limits(text: &str, limits: &InspectionLimits) -> (out: (
    String,
    bool,
    Option<TruncationSummary>,
))
    ensures
        (out.0@, out.1, out.2) == truncation_of(text@, *limits),
        within_limits(text@, *limits) ==> out.0@ == text@ && !out.1 && out.2 is None,
        !within_limits(text@, *limits) ==> {
            &&& out.0@ == truncated_text(text@, *limits)
            &&& out.1
            &&& out.2 == Some(summary_of(text@, *limits))
            &&& summary_of(text@, *limits).kept_lines <= limits.max_output_lines
            &&& summary_of(text@, *limits).kept_bytes <= limits.max_output_bytes
            &&& summary_of(text@, *limits).kept_lines <= summary_of(text@, *limits).original_lines
            &&& ends_with(out.0@, truncation_marker(summary_of(text@, *limits)))
        },
        out.2 matches Some(summary) ==> {
            &&& summary.original_bytes == utf8_len(text@)
            &&& summary.original_lines == lines(text@).len()
            &&& summary.kept_lines == kept_lines(lines(text@), *limits)
            &&& summary.kept_bytes == bytes_of_lines(lines(text@), summary.kept_lines as int)
            &&& summary.max_bytes == limits.max_output_bytes
            &&& summary.max_lines == limits.max_output_lines
            &&& out.0@ == text_of_lines(lines(text@), summary.kept_lines as int)
                + truncation_marker(summary)
        },
{
    let chars = to_chars(text);
    let original_bytes = text.as_bytes().len();
    let all = split_lines(chars.as_slice());
    let original_lines = all.len();
    let ghost model = lines(text@);
    proof {
        lemma_utf8_len_is_encoded_len(text@);
        assert(model.len() == original_lines);
    }
    if original_bytes <= limits.max_output_bytes && original_lines <= limits.max_output_lines {
        return (from_chars(chars.as_slice()), false, None);
    }
    let mut kept_bytes: usize = 0;
    let mut kept: usize = 0;
    let mut body: Vec<char> = Vec::new();
    while kept < all.len()
        invariant
            kept <= all.len(),
            rows(all@) == model,
            lines_fit(model, kept as int, *limits),
            kept_bytes == bytes_of_lines(model, kept as int),
            body@ == text_of_lines(model, kept as int),
            kept_from(model, kept as int, *limits) == kept_lines(model, *limits),
        ensures
            kept == all.len() || !lines_fit(model, kept + 1, *limits),
        decreases all.len() - kept,
    {
        let line = &all[kept];
        assert(line@ == model[kept as int]);
        if kept + 1 > limits.max_output_lines {
            break;
        }
        let width = match byte_len(line.as_slice()) {
            Some(width) => width,
            None => { break; },
        };
        if width >= limits.max_output_bytes || kept_bytes > limits.max_output_bytes - width - 1 {
            break;
        }
        append_chars(&mut body, line.as_slice());
        body.push('\n');
        assert(body@ == text_of_lines(model, kept as int) + model[kept as int].push('\n'));
        kept_bytes = kept_bytes + width + 1;
        kept += 1;
    }
    assert(kept == kept_lines(model, *limits));
    proof {
        lemma_bytes_of_lines_grow(model, 0, kept as int);
    }
    let summary = TruncationSummary {
        original_bytes,
        original_lines,
        kept_bytes,
        kept_lines: kept,
        max_bytes: limits.max_output_bytes,
        max_lines: limits.max_output_lines,
    };
    assert(summary == summary_of(text@, *limits));
    proof {
        lemma_truncated_text(text@, *limits);
    }
    push_marker(&mut body, &summary);
    (from_chars(body.as_slice()), true, Some(summary))
}

/// The note that tells a caller that output was truncated.
pub open spec fn truncation_note_text(summary: TruncationSummary) -> Seq<char> {
    "Output truncated to "@ + decimal(summary.kept_lines as nat) + " lines/"@ + decimal(
        summary.kept_bytes as nat,
    ) + " bytes from "@ + decimal(summary.original_lines as nat) + " lines/"@ + decimal(
        summary.original_bytes as nat,
    ) + " bytes"@
}

/// The note that tells a caller that output was truncated.
pub fn truncation_note(summary: &TruncationSummary) -> (note: String)
    ensures
        note@ == truncation_note_text(*summary),
{
    let a = to_chars("Output truncated to ");
    let b = to_chars(" lines/");
    let c = to_chars(" bytes from ");
    let d = to_chars(" bytes");
    let mut note: Vec<char> = Vec::new();
    append_chars(&mut note, a.as_slice());
    push_decimal(&mut note, summary.kept_lines as u64);
    append_chars(&mut note, b.as_slice());
    push_decimal(&mut note, summary.kept_bytes as u64);
    append_chars(&mut note, c.as_slice());
    push_decimal(&mut note, summary.original_lines as u64);
    append_chars(&mut note, b.as_slice());
    push_decimal(&mut note, summary.original_bytes as u64);
    append_chars(&mut note, d.as_slice());
    from_chars(note.as_slice())
}

} // verus!
