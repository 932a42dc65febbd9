//! Character classes of the selector grammar and helpers on text.

use vstd::prelude::*;

verus! {

/// An ASCII letter, `[A-Za-z]`.
pub open spec fn spec_is_letter(c: char) -> bool {
    ('a' <= c && c <= 'z') || ('A' <= c && c <= 'Z')
}

/// An ASCII decimal digit, `[0-9]`.
pub open spec fn spec_is_digit(c: char) -> bool {
    '0' <= c && c <= '9'
}

/// First character of a label name: `[A-Za-z_]`.
pub open spec fn spec_label_start(c: char) -> bool {
    spec_is_letter(c) || c == '_'
}

/// Following characters of a label name: `[A-Za-z0-9_]`.
pub open spec fn spec_label_continue(c: char) -> bool {
    spec_is_letter(c) || spec_is_digit(c) || c == '_'
}

/// First character of a metric name: `[A-Za-z_:]`.
pub open spec fn spec_metric_start(c: char) -> bool {
    spec_is_letter(c) || c == '_' || c == ':'
}

/// Following characters of a metric name: `[A-Za-z0-9_:]`.
pub open spec fn spec_metric_continue(c: char) -> bool {
    spec_is_letter(c) || spec_is_digit(c) || c == '_' || c == ':'
}

/// Whether `c` can start a label name.
pub fn is_metric_label_start(c: char) -> (r: bool)
    ensures
        r == spec_label_start(c),
{
    ('a' <= c && c <= 'z') || ('A' <= c && c <= 'Z') || c == '_'
}

/// Whether `c` can follow the first character of a label name.
pub fn is_metric_label_end(c: char) -> (r: bool)
    ensures
        r == spec_label_continue(c),
{
    ('a' <= c && c <= 'z') || ('A' <= c && c <= 'Z') || ('0' <= c && c <= '9') || c == '_'
}

/// Whether `c` can start a metric name.
pub fn is_metric_name_start(c: char) -> (r: bool)
    ensures
        r == spec_metric_start(c),
{
    ('a' <= c && c <= 'z') || ('A' <= c && c <= 'Z') || c == '_' || c == ':'
}

/// Whether `c` can follow the first character of a metric name.
pub fn is_metric_name_end(c: char) -> (r: bool)
    ensures
        r == spec_metric_continue(c),
{
    ('a' <= c && c <= 'z') || ('A' <= c && c <= 'Z') || ('0' <= c && c <= '9') || c == '_'
        || c == ':'
}

/// The characters of `s`, in order.
pub fn chars_of(s: &str) -> (r: Vec<char>)
    ensures
        r@ == s@,
{
    let mut r: Vec<char> = Vec::new();
    for c in it: s.chars()
        invariant
            r@ == it.seq().take(it.index() as int),
    {
        r.push(c);
    }
    r
}

} // verus!
