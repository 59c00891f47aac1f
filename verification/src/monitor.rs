//! Classification of worker output lines: the fatal-pattern detector and
//! the formatting of lines for the per-tunnel log buffer.

use vstd::prelude::*;
use crate::text::{contains_chars, contains_seq, lower_seq, str_to_chars, to_lower};

verus! {

/// Which of the worker's two output streams a line came from.
#[derive(Clone, Copy, PartialEq, Eq, Structural, Debug)]
pub enum StreamKind {
    Stdout,
    Stderr,
}

/// A line is fatal when, case-insensitively, it contains both `error` and
/// `resolve failed`. The detector is deliberately this narrow: matching on
/// `error` alone would trip on benign warnings.
pub open spec fn is_fatal_spec(line: Seq<char>) -> bool {
    contains_seq(lower_seq(line), "error"@) && contains_seq(lower_seq(line), "resolve failed"@)
}

/// The prefix a buffered line carries: `[INFO] ` for stdout, `[ERROR] ` for
/// stderr.
pub open spec fn line_prefix_spec(kind: StreamKind) -> Seq<char> {
    match kind {
        StreamKind::Stdout => "[INFO] "@,
        StreamKind::Stderr => "[ERROR] "@,
    }
}

/// The formatted shape of a buffered line.
pub open spec fn format_line_spec(kind: StreamKind, line: Seq<char>) -> Seq<char> {
    line_prefix_spec(kind) + line
}

pub fn is_fatal_error_log(log_line: &str) -> (r: bool)
    ensures
        r == is_fatal_spec(log_line@),
{
    let chars = str_to_chars(log_line);
    let lowered = to_lower(&chars);
    let pat_error = str_to_chars("error");
    let pat_resolve = str_to_chars("resolve failed");
    let has_error = contains_chars(&lowered, &pat_error);
    let has_resolve = contains_chars(&lowered, &pat_resolve);
    has_error && has_resolve
}

pub fn format_line(kind: StreamKind, line: &str) -> (r: String)
    ensures
        r@ == format_line_spec(kind, line@),
{
    let mut s = match kind {
        StreamKind::Stdout => String::from_str("[INFO] "),
        StreamKind::Stderr => String::from_str("[ERROR] "),
    };
    s.append(line);
    s
}

/// What the monitor does with one observed line: raise the fatal signal and
/// stop consuming the stream, or buffer and forward the formatted line.
pub enum LineDecision {
    Fatal,
    Buffer { formatted: String },
}

pub fn classify_line(kind: StreamKind, line: &str) -> (r: LineDecision)
    ensures
        is_fatal_spec(line@) ==> r is Fatal,
        !is_fatal_spec(line@) ==> (r matches LineDecision::Buffer { formatted }
            && formatted@ == format_line_spec(kind, line@)),
{
    if is_fatal_error_log(line) {
        LineDecision::Fatal
    } else {
        LineDecision::Buffer { formatted: format_line(kind, line) }
    }
}

} // verus!
