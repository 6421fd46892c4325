//! Diagnostics for a response body that failed to decode: the line and column
//! that the decoder reported and a window of the body's lines around them.
use vstd::prelude::*;

verus! {

/// Number of characters of `s` before its first line feed (all of them if there is none).
pub open spec fn line_end(s: Seq<char>) -> nat
    decreases s.len(),
{
    if s.len() == 0 || s[0] == '\n' {
        0
    } else {
        1 + line_end(s.subrange(1, s.len() as int))
    }
}

/// A line without the carriage return of a "\r\n" ending.
pub open spec fn strip_cr(l: Seq<char>) -> Seq<char> {
    if l.len() > 0 && l.last() == '\r' {
        l.drop_last()
    } else {
        l
    }
}

/// The lines of a text: split at each "\n" or "\r\n"; the final line ending is optional,
/// and the empty text has no lines.
pub open spec fn lines_of(s: Seq<char>) -> Seq<Seq<char>>
    decreases s.len(),
{
    if s.len() == 0 {
        Seq::empty()
    } else {
        let i = line_end(s);
        if i < s.len() {
            seq![strip_cr(s.take(i as int))] + lines_of(s.skip((i + 1) as int))
        } else {
            seq![s]
        }
    }
}

/// Zero-based index of the line that a one-based line number names (line 0 counts as the first).
pub open spec fn line_index(line: nat) -> nat {
    if line > 0 {
        (line - 1) as nat
    } else {
        0
    }
}

/// The half-open range of line indices shown around a reported line: up to two lines before
/// and two after it, clipped to the `n` lines of the document.
pub open spec fn context_range(n: nat, line: nat) -> (nat, nat) {
    let idx = line_index(line);
    let end = if idx + 3 <= n { idx + 3 } else { n };
    let start = if idx >= 2 { (idx - 2) as nat } else { 0 };
    (if start <= end { start } else { end }, end)
}

/// Relies on str::lines: the text split at each "\n" or "\r\n", with the final line ending
/// optional and no line for the empty text.
#[verifier::external_body]
fn split_lines(text: &str) -> (r: Vec<String>)
    ensures
        r@.map_values(|l: String| l@) == lines_of(text@),
{
    text.lines().map(|l| l.to_string()).collect()
}

/// The range of line indices to show for an error reported at one-based `line` in a document
/// of `n` lines.
pub fn context_bounds(n: usize, line: usize) -> (r: (usize, usize))
    ensures
        (r.0 as nat, r.1 as nat) == context_range(n as nat, line as nat),
{
    let idx: usize = if line > 0 { line - 1 } else { 0 };
    let end: usize = if idx <= n && n - idx >= 3 { idx + 3 } else { n };
    let start: usize = if idx >= 2 { idx - 2 } else { 0 };
    if start <= end {
        (start, end)
    } else {
        (end, end)
    }
}

/// A response body that did not decode into the expected shape.
#[derive(Debug)]
pub struct DecodeError {
    /// The decoder's own description of the failure.
    pub message: String,
    /// One-based line at which the decoder stopped.
    pub line: usize,
    /// One-based column at which the decoder stopped.
    pub column: usize,
    /// Zero-based index, among the body's lines, of the first line of `context`.
    pub context_start: usize,
    /// The body's lines around `line`.
    pub context: Vec<String>,
}

impl DecodeError {
    /// `self` reports a failure at `line` and `column` of `text`, with the lines around it.
    pub open spec fn describes(self, text: Seq<char>, line: nat, column: nat) -> bool {
        let (start, end) = context_range(lines_of(text).len(), line);
        &&& self.line == line
        &&& self.column == column
        &&& self.context_start == start
        &&& self.context@.map_values(|l: String| l@) == lines_of(text).subrange(start as int, end as int)
    }

    /// Builds the report for a failure that the decoder placed at `line` and `column` of `text`.
    pub fn new(message: String, text: &str, line: usize, column: usize) -> (e: DecodeError)
        ensures
            e.describes(text@, line as nat, column as nat),
            e.message == message,
    {
        let lines = split_lines(text);
        let (start, end) = context_bounds(lines.len(), line);
        let mut context: Vec<String> = Vec::new();
        let mut k: usize = start;
        while k < end
            invariant
                start <= k <= end <= lines@.len(),
                context@.len() == k - start,
                forall|j: int| 0 <= j < context@.len() ==> context@[j]@ == lines@[start + j]@,
            decreases end - k,
        {
            context.push(lines[k].clone());
            k = k + 1;
        }
        assert(context@.map_values(|l: String| l@) =~= lines@.map_values(|l: String| l@).subrange(
            start as int,
            end as int,
        ));
        DecodeError { message, line, column, context_start: start, context }
    }

    /// Whether the `k`-th line of `context` is the line the decoder reported.
    pub fn is_error_line(&self, k: usize) -> (r: bool)
        ensures
            r == (self.context_start as int + k as int == line_index(self.line as nat)),
    {
        let idx: usize = if self.line > 0 { self.line - 1 } else { 0 };
        k <= idx && self.context_start == idx - k
    }
}

/// A report of a failure on a line of the document shows that line, preceded by up to two
/// lines and followed by up to two, as many as the document has on each side.
pub proof fn lemma_context_holds_error_line(e: DecodeError, text: Seq<char>, line: nat, column: nat)
    requires
        e.describes(text, line, column),
        1 <= line <= lines_of(text).len(),
    ensures
        e.line == line,
        e.context_start <= line - 1 < e.context_start + e.context@.len(),
        e.context@[line - 1 - e.context_start]@ == lines_of(text)[line - 1],
        e.context_start == (if line >= 3 { line - 3 } else { 0 }),
        e.context_start + e.context@.len() == (if line + 2 <= lines_of(text).len() {
            (line + 2) as int
        } else {
            lines_of(text).len() as int
        }),
{
    let lines = lines_of(text);
    let (start, end) = context_range(lines.len(), line);
    assert(e.context@.map_values(|l: String| l@).len() == e.context@.len());
    assert(e.context@.map_values(|l: String| l@)[line - 1 - start] == lines[line - 1]);
}

} // verus!
