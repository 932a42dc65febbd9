//! Turning a parse failure into a diagnostic whose spans are byte ranges of
//! the caller's source buffer.

use vstd::prelude::*;
use vstd::string::{StrSliceExecFns, StringExecFns};
use vstd::utf8::{char_is_scalar, encode_scalar, encode_utf8};
use crate::grammar::{Context, Expected, Failure, Frame, ParseError};
use crate::lexical::chars_of;

verus! {

/// A half-open byte range `[start, end)` of some source buffer.
#[derive(Clone, Copy, Debug, PartialEq, Eq, Structural)]
pub struct Span {
    pub start: usize,
    pub end: usize,
}

/// A message attached to a span.
#[derive(Clone, Debug, PartialEq, Eq)]
pub struct DiagnosticLabel {
    pub span: Span,
    pub message: String,
}

/// A failure as shown to a user: a title, positioned labels, help text and a
/// link to the grammar's documentation.
#[derive(Clone, Debug, PartialEq, Eq)]
pub struct Diagnostic {
    pub title: String,
    pub labels: Vec<DiagnosticLabel>,
    pub help: Option<String>,
    pub url: Option<String>,
}

pub struct LabelModel {
    pub span: Span,
    pub message: Seq<char>,
}

pub struct DiagnosticModel {
    pub title: Seq<char>,
    pub labels: Seq<LabelModel>,
    pub help: Option<Seq<char>>,
    pub url: Option<Seq<char>>,
}

impl View for DiagnosticLabel {
    type V = LabelModel;

    open spec fn view(&self) -> LabelModel {
        LabelModel { span: self.span, message: self.message@ }
    }
}

pub open spec fn labels_view(v: Seq<DiagnosticLabel>) -> Seq<LabelModel> {
    v.map_values(|l: DiagnosticLabel| l@)
}

impl View for Diagnostic {
    type V = DiagnosticModel;

    open spec fn view(&self) -> DiagnosticModel {
        DiagnosticModel {
            title: self.title@,
            labels: labels_view(self.labels@),
            help: match self.help {
                Some(h) => Some(h@),
                None => None,
            },
            url: match self.url {
                Some(u) => Some(u@),
                None => None,
            },
        }
    }
}

pub const SELECTOR_TITLE: &'static str = "invalid selector";

pub const SELECTOR_HELP: &'static str =
    "a selector is a metric name, a single label matcher, a label list, or a metric name followed by a label list, e.g. up, job=\"prometheus\", {job=\"prometheus\"} or up{job=\"prometheus\",instance=~\"local.*\"}; a label matcher is a label name, one of the operators = != =~ !~, and a double-quoted value";

pub const SELECTOR_URL: &'static str =
    "https://prometheus.io/docs/prometheus/latest/querying/basics/#time-series-selectors";

/// Number of bytes in the UTF-8 encoding of `s`.
pub open spec fn utf8_len(s: Seq<char>) -> int {
    encode_utf8(s).len() as int
}

/// Byte offset of character position `i` of `s`.
pub open spec fn byte_offset(s: Seq<char>, i: int) -> int {
    utf8_len(s.take(i))
}

/// Position `i`, but no further than `n`.
pub open spec fn clamp(i: int, n: int) -> int {
    if i < n {
        i
    } else {
        n
    }
}

/// The absolute byte position, in the buffer that `base` points into, of
/// character position `i` of `s` (at most the end of `s`), never past the
/// end of `base` when `base` is well formed.
pub open spec fn absolute(base: Span, s: Seq<char>, i: int) -> usize {
    let raw = base.start + byte_offset(s, clamp(i, s.len() as int));
    if base.start <= base.end && raw > base.end {
        base.end
    } else {
        raw as usize
    }
}

/// The name of what was expected, as shown to a user.
pub open spec fn expected_text(e: Expected) -> Seq<char> {
    match e {
        Expected::MetricName => "metric name"@,
        Expected::LabelName => "label name"@,
        Expected::Operator => "operator"@,
        Expected::ListStart => "`{`"@,
        Expected::ListEnd => "`,` or `}`"@,
        Expected::ValueStart => "opening `\"`"@,
        Expected::ValueEnd => "closing `\"`"@,
        Expected::EndOfInput => "end of input"@,
    }
}

/// The name of an enclosing construct, as shown to a user.
pub open spec fn context_text(c: Context) -> Seq<char> {
    match c {
        Context::Selector => "selector"@,
        Context::LabelList => "label list"@,
        Context::LabelMatcher => "label matcher"@,
    }
}

/// Where a failure expecting `e` at position `pos` is shown: the rest of the
/// input for trailing text, the offending character otherwise, or an empty
/// span at the end of the input when nothing was left.
pub open spec fn expected_span(base: Span, s: Seq<char>, e: Expected, pos: int) -> Span {
    if e == Expected::EndOfInput {
        Span { start: absolute(base, s, pos), end: absolute(base, s, s.len() as int) }
    } else if pos < s.len() {
        Span { start: absolute(base, s, pos), end: absolute(base, s, pos + 1) }
    } else {
        Span { start: absolute(base, s, s.len() as int), end: absolute(base, s, s.len() as int) }
    }
}

/// "expected X, found `c`", or "expected X, got empty input" when nothing was left.
pub open spec fn expected_message(s: Seq<char>, e: Expected, pos: int) -> Seq<char> {
    if 0 <= pos < s.len() {
        "expected "@ + expected_text(e) + ", found `"@ + seq![s[pos]] + "`"@
    } else {
        "expected "@ + expected_text(e) + ", got empty input"@
    }
}

/// The label for one expectation at the failure's position.
pub open spec fn expected_label(base: Span, s: Seq<char>, e: Expected, pos: int) -> LabelModel {
    LabelModel { span: expected_span(base, s, e, pos), message: expected_message(s, e, pos) }
}

/// The label for an enclosing construct: from where it began to the end of the input.
pub open spec fn frame_label(base: Span, s: Seq<char>, fr: Frame) -> LabelModel {
    LabelModel {
        span: Span { start: absolute(base, s, fr.start as int), end: absolute(base, s, s.len() as int) },
        message: "while parsing "@ + context_text(fr.context),
    }
}

/// The diagnostic for failure `f` on input `s`, which came from `base`: a
/// label for each expectation at the failure's position (first those of the
/// other readings that failed there, then the failure's own), and one for
/// each enclosing construct.
pub open spec fn spec_diagnostic(base: Span, s: Seq<char>, f: Failure) -> DiagnosticModel {
    DiagnosticModel {
        title: SELECTOR_TITLE@,
        labels: f.also.map_values(|e: Expected| expected_label(base, s, e, f.position))
            + seq![expected_label(base, s, f.expected, f.position)]
            + f.frames.map_values(|fr: Frame| frame_label(base, s, fr)),
        help: Some(SELECTOR_HELP@),
        url: Some(SELECTOR_URL@),
    }
}

/// The encoding of a concatenation is as long as the two encodings together.
pub proof fn lemma_utf8_len_concat(a: Seq<char>, b: Seq<char>)
    ensures
        utf8_len(a + b) == utf8_len(a) + utf8_len(b),
    decreases a.len(),
{
    if a.len() == 0 {
        assert(a + b =~= b);
    } else {
        assert((a + b).drop_first() =~= a.drop_first() + b);
        lemma_utf8_len_concat(a.drop_first(), b);
    }
}

/// Byte offsets grow by the width of each character and never pass the end.
pub proof fn lemma_byte_offset_step(s: Seq<char>, i: int)
    requires
        0 <= i < s.len(),
    ensures
        byte_offset(s, i + 1) == byte_offset(s, i) + encode_scalar(s[i] as u32).len(),
        byte_offset(s, i + 1) <= utf8_len(s),
{
    assert(s.take(i + 1) =~= s.take(i) + seq![s[i]]);
    lemma_utf8_len_concat(s.take(i), seq![s[i]]);
    assert(seq![s[i]].drop_first() =~= Seq::<char>::empty());
    assert(encode_utf8(Seq::<char>::empty()) =~= Seq::<u8>::empty());
    assert(encode_utf8(seq![s[i]]) =~= encode_scalar(s[i] as u32));
    assert(s =~= s.take(i + 1) + s.skip(i + 1));
    lemma_utf8_len_concat(s.take(i + 1), s.skip(i + 1));
}

/// Byte offsets never decrease along the input and stay within its encoding.
pub proof fn lemma_byte_offset_mono(s: Seq<char>, i: int, j: int)
    requires
        0 <= i <= j <= s.len(),
    ensures
        0 <= byte_offset(s, i) <= byte_offset(s, j) <= utf8_len(s),
{
    assert(s.take(j) =~= s.take(i) + s.subrange(i, j));
    lemma_utf8_len_concat(s.take(i), s.subrange(i, j));
    assert(s =~= s.take(j) + s.skip(j));
    lemma_utf8_len_concat(s.take(j), s.skip(j));
}

/// Absolute positions never decrease along the input (positions past its
/// end count as its end) and, for a well-formed
/// `base`, stay within it.
pub proof fn lemma_absolute_mono(base: Span, s: Seq<char>, i: int, j: int)
    requires
        base.start <= base.end,
        0 <= i,
        0 <= j,
        clamp(i, s.len() as int) <= clamp(j, s.len() as int),
    ensures
        base.start <= absolute(base, s, i) <= absolute(base, s, j) <= base.end,
{
    let n = s.len() as int;
    lemma_byte_offset_mono(s, clamp(i, n), clamp(j, n));
}

/// For a well-formed `base`, every span of the diagnostic lies within `base`
/// and none runs backwards, also when the input ran out or is longer than
/// `base` says.
pub proof fn lemma_diagnostic_spans_within(base: Span, s: Seq<char>, f: Failure)
    requires
        base.start <= base.end,
        0 <= f.position,
    ensures
        forall|k: int| 0 <= k < spec_diagnostic(base, s, f).labels.len() ==> {
            let sp = #[trigger] spec_diagnostic(base, s, f).labels[k].span;
            base.start <= sp.start <= sp.end <= base.end
        },
{
    let n = s.len() as int;
    let pos = f.position;
    assert forall|e: Expected| {
        let sp = #[trigger] expected_span(base, s, e, pos);
        base.start <= sp.start <= sp.end <= base.end
    } by {
        lemma_absolute_mono(base, s, pos, n);
        lemma_absolute_mono(base, s, pos, pos + 1);
        lemma_absolute_mono(base, s, n, n);
    }
    let labels = spec_diagnostic(base, s, f).labels;
    let a = f.also.len();
    assert forall|k: int| 0 <= k < labels.len() implies {
        let sp = #[trigger] labels[k].span;
        base.start <= sp.start <= sp.end <= base.end
    } by {
        if k < a {
            assert(labels[k] == expected_label(base, s, f.also[k], pos));
        } else if k == a {
            assert(labels[k] == expected_label(base, s, f.expected, pos));
        } else {
            let fr = f.frames[k - a - 1];
            assert(labels[k] == frame_label(base, s, fr));
            lemma_absolute_mono(base, s, fr.start as int, n);
        }
    }
}

/// Number of bytes that `c` takes in UTF-8.
pub fn utf8_width(c: char) -> (w: usize)
    ensures
        w == encode_scalar(c as u32).len(),
{
    proof {
        char_is_scalar(c);
    }
    let u = c as u32;
    if u <= 0x7f {
        1
    } else if u <= 0x7ff {
        2
    } else if u <= 0xffff {
        3
    } else {
        4
    }
}

/// The byte offset of every character position of `s`, its end included.
fn byte_offsets(s: &Vec<char>, total: usize) -> (r: Vec<usize>)
    requires
        total == utf8_len(s@),
    ensures
        r@.len() == s@.len() + 1,
        forall|i: int| 0 <= i <= s@.len() ==> r@[i] == byte_offset(s@, i) && r@[i] <= total,
{
    let mut r: Vec<usize> = Vec::new();
    let mut off: usize = 0;
    r.push(0);
    assert(s@.take(0) =~= Seq::<char>::empty());
    let mut i: usize = 0;
    while i < s.len()
        invariant
            total == utf8_len(s@),
            i <= s@.len(),
            r@.len() == i + 1,
            off == byte_offset(s@, i as int),
            forall|k: int| 0 <= k <= i ==> r@[k] == byte_offset(s@, k) && r@[k] <= total,
        decreases s@.len() - i,
    {
        proof {
            lemma_byte_offset_step(s@, i as int);
        }
        off = off + utf8_width(s[i]);
        i = i + 1;
        r.push(off);
    }
    r
}

fn expected_str(e: Expected) -> (r: &'static str)
    ensures
        r@ == expected_text(e),
{
    match e {
        Expected::MetricName => "metric name",
        Expected::LabelName => "label name",
        Expected::Operator => "operator",
        Expected::ListStart => "`{`",
        Expected::ListEnd => "`,` or `}`",
        Expected::ValueStart => "opening `\"`",
        Expected::ValueEnd => "closing `\"`",
        Expected::EndOfInput => "end of input",
    }
}

fn context_str(c: Context) -> (r: &'static str)
    ensures
        r@ == context_text(c),
{
    match c {
        Context::Selector => "selector",
        Context::LabelList => "label list",
        Context::LabelMatcher => "label matcher",
    }
}

/// The absolute byte position of character position `i`, read from the
/// table of byte offsets.
fn absolute_at(offs: &Vec<usize>, base: Span, i: usize, Ghost(s): Ghost<Seq<char>>) -> (r: usize)
    requires
        offs@.len() == s.len() + 1,
        forall|k: int| 0 <= k <= s.len() ==> #[trigger] offs@[k] == byte_offset(s, k) && offs@[k] <= utf8_len(s),
        base.start + utf8_len(s) <= usize::MAX,
    ensures
        r == absolute(base, s, i as int),
{
    let n = offs.len() - 1;
    let j = if i < n {
        i
    } else {
        n
    };
    assert(0 <= j as int <= s.len());
    assert(offs@[j as int] == byte_offset(s, j as int) && offs@[j as int] <= utf8_len(s));
    let raw = base.start + offs[j];
    if base.start <= base.end && raw > base.end {
        base.end
    } else {
        raw
    }
}

fn message_of(input: &str, s: &Vec<char>, e: Expected, pos: usize) -> (r: String)
    requires
        s@ == input@,
    ensures
        r@ == expected_message(s@, e, pos as int),
{
    let mut m = String::from_str("expected ");
    m.append(expected_str(e));
    if pos < s.len() {
        let found = input.substring_char(pos, pos + 1);
        assert(found@ =~= seq![s@[pos as int]]);
        m.append(", found `");
        m.append(found);
        m.append("`");
    } else {
        m.append(", got empty input");
    }
    m
}

/// The label for expectation `e` at position `pos`.
fn label_of(input: &str, s: &Vec<char>, offs: &Vec<usize>, base: Span, e: Expected, pos: usize) -> (r: DiagnosticLabel)
    requires
        s@ == input@,
        offs@.len() == s@.len() + 1,
        forall|k: int| 0 <= k <= s@.len() ==> #[trigger] offs@[k] == byte_offset(s@, k) && offs@[k] <= utf8_len(s@),
        base.start + utf8_len(s@) <= usize::MAX,
    ensures
        r@ == expected_label(base, s@, e, pos as int),
{
    let n = s.len();
    let span = if e == Expected::EndOfInput {
        Span { start: absolute_at(offs, base, pos, Ghost(s@)), end: absolute_at(offs, base, n, Ghost(s@)) }
    } else if pos < n {
        Span { start: absolute_at(offs, base, pos, Ghost(s@)), end: absolute_at(offs, base, pos + 1, Ghost(s@)) }
    } else {
        Span { start: absolute_at(offs, base, n, Ghost(s@)), end: absolute_at(offs, base, n, Ghost(s@)) }
    };
    DiagnosticLabel { span, message: message_of(input, s, e, pos) }
}

/// The diagnostic for `error`, a failure to parse `input`; its spans are byte
/// ranges of the buffer that `span` points into, `input` starting at `span.start`.
pub fn diagnostic(input: &str, span: Span, error: &ParseError) -> (d: Diagnostic)
    requires
        span.start + utf8_len(input@) <= usize::MAX,
    ensures
        d@ == spec_diagnostic(span, input@, error@),
{
    let s = chars_of(input);
    let n = s.len();
    let offs = byte_offsets(&s, input.len());
    let pos = error.position;
    let mut labels: Vec<DiagnosticLabel> = Vec::new();
    assert(labels_view(labels@) =~= error.also@.take(0).map_values(
        |e: Expected| expected_label(span, s@, e, pos as int),
    ));
    let mut k: usize = 0;
    while k < error.also.len()
        invariant
            s@ == input@,
            offs@.len() == s@.len() + 1,
            forall|i: int| 0 <= i <= s@.len() ==> #[trigger] offs@[i] == byte_offset(s@, i) && offs@[i] <= utf8_len(s@),
            span.start + utf8_len(s@) <= usize::MAX,
            pos == error.position,
            k <= error.also@.len(),
            labels_view(labels@) == error.also@.take(k as int).map_values(
                |e: Expected| expected_label(span, s@, e, pos as int),
            ),
        decreases error.also@.len() - k,
    {
        let e = error.also[k];
        let ghost before = labels_view(labels@);
        labels.push(label_of(input, &s, &offs, span, e, pos));
        proof {
            assert(labels_view(labels@) =~= before + seq![expected_label(span, s@, e, pos as int)]);
            assert(error.also@.take(k + 1) =~= error.also@.take(k as int).push(e));
            assert(error.also@.take(k + 1).map_values(|e: Expected| expected_label(span, s@, e, pos as int))
                =~= error.also@.take(k as int).map_values(|e: Expected| expected_label(span, s@, e, pos as int))
                + seq![expected_label(span, s@, e, pos as int)]);
        }
        k = k + 1;
    }
    assert(error.also@.take(k as int) =~= error.also@);
    let ghost ties = labels_view(labels@);
    labels.push(label_of(input, &s, &offs, span, error.expected, pos));
    let ghost head = ties + seq![expected_label(span, s@, error.expected, pos as int)];
    assert(labels_view(labels@) =~= head);
    assert(labels_view(labels@) =~= head + error.frames@.take(0).map_values(
        |fr: Frame| frame_label(span, s@, fr),
    ));
    let mut k: usize = 0;
    while k < error.frames.len()
        invariant
            s@ == input@,
            n == s@.len(),
            offs@.len() == s@.len() + 1,
            forall|i: int| 0 <= i <= s@.len() ==> #[trigger] offs@[i] == byte_offset(s@, i) && offs@[i] <= utf8_len(s@),
            span.start + utf8_len(s@) <= usize::MAX,
            k <= error.frames@.len(),
            labels_view(labels@) == head + error.frames@.take(k as int).map_values(
                |fr: Frame| frame_label(span, s@, fr),
            ),
        decreases error.frames@.len() - k,
    {
        let fr = error.frames[k];
        let mut message = String::from_str("while parsing ");
        message.append(context_str(fr.context));
        let label = DiagnosticLabel {
            span: Span { start: absolute_at(&offs, span, fr.start, Ghost(s@)), end: absolute_at(&offs, span, n, Ghost(s@)) },
            message,
        };
        let ghost before = labels_view(labels@);
        labels.push(label);
        proof {
            assert(labels_view(labels@) =~= before + seq![frame_label(span, s@, fr)]);
            assert(error.frames@.take(k + 1) =~= error.frames@.take(k as int).push(fr));
            assert(error.frames@.take(k + 1).map_values(|fr: Frame| frame_label(span, s@, fr))
                =~= error.frames@.take(k as int).map_values(|fr: Frame| frame_label(span, s@, fr))
                + seq![frame_label(span, s@, fr)]);
        }
        k = k + 1;
    }
    assert(error.frames@.take(k as int) =~= error.frames@);
    Diagnostic {
        title: String::from_str(SELECTOR_TITLE),
        labels,
        help: Some(String::from_str(SELECTOR_HELP)),
        url: Some(String::from_str(SELECTOR_URL)),
    }
}

} // verus!
