//! The selector grammar, stated as spec functions over the input's characters
//! and implemented by recognizers that work on character positions.
//!
//! ```text
//! selector     := ( labelList | labelMatcher | metricName labelList | metricName ) EOF
//! labelList    := '{' ( labelMatcher ( ',' labelMatcher )* )? '}'
//! labelMatcher := labelName operator quotedValue
//! operator     := '!=' | '=~' | '!~' | '='
//! labelName    := [A-Za-z_][A-Za-z0-9_]*
//! metricName   := [A-Za-z_:][A-Za-z0-9_:]*
//! quotedValue  := '"' [^"]* '"'
//! ```
//!
//! The alternatives of `selector` are tried in the order written and the
//! first that matches the whole input is taken; when none does, the failure
//! that got furthest into the input is reported; a label list that stands alone must hold at
//! least one matcher, so that every selector names a metric or a label.

use vstd::prelude::*;
use crate::lexical::{spec_label_continue, spec_label_start, spec_metric_continue, spec_metric_start};
use crate::selector::{MatcherModel, Operator, SelectorModel};

verus! {

/// The token or construct that a failed parse was looking for.
#[derive(Clone, Copy, Debug, PartialEq, Eq, Structural)]
pub enum Expected {
    MetricName,
    LabelName,
    Operator,
    /// The `{` that opens a label list.
    ListStart,
    /// A `,` or the `}` that closes a label list.
    ListEnd,
    /// The `"` that opens a value.
    ValueStart,
    /// The `"` that closes a value.
    ValueEnd,
    /// The end of the input.
    EndOfInput,
}

/// A construct of the grammar that encloses a failure.
#[derive(Clone, Copy, Debug, PartialEq, Eq, Structural)]
pub enum Context {
    Selector,
    LabelList,
    LabelMatcher,
}

/// One enclosing construct of a failure, with the character position where it began.
#[derive(Clone, Copy, Debug, PartialEq, Eq, Structural)]
pub struct Frame {
    pub context: Context,
    pub start: usize,
}

/// The category of a failed parse.
#[derive(Clone, Copy, Debug, PartialEq, Eq, Structural)]
pub enum ErrorKind {
    /// The first character cannot start a metric name.
    MetricNameInvalid,
    /// The first character cannot start a label name.
    LabelNameInvalid,
    /// None of `!=`, `=~`, `!~`, `=` stands where an operator is due.
    OperatorInvalid,
    /// A value does not start with `"`.
    ValueUnquoted,
    /// A value's opening `"` has no closing `"`.
    ValueUnterminated,
    /// A label list lacks its `{`, a `,` or its `}`.
    ListMalformed,
    /// A complete selector is followed by more text.
    TrailingInput,
    /// The input ended where a token was required.
    EmptyInput,
}

/// Why a parse failed: what was expected, at which character position, the
/// character found there (none at the end of the input), the enclosing
/// constructs from the innermost outward, and what other readings of the
/// input expected at that same position, in the order they were tried.
#[derive(Clone, Debug, PartialEq, Eq)]
pub struct ParseError {
    pub expected: Expected,
    pub position: usize,
    pub found: Option<char>,
    pub frames: Vec<Frame>,
    pub also: Vec<Expected>,
}

/// The mathematical value of a [`ParseError`].
pub struct Failure {
    pub expected: Expected,
    pub position: int,
    pub found: Option<char>,
    pub frames: Seq<Frame>,
    pub also: Seq<Expected>,
}

impl View for ParseError {
    type V = Failure;

    open spec fn view(&self) -> Failure {
        Failure {
            expected: self.expected,
            position: self.position as int,
            found: self.found,
            frames: self.frames@,
            also: self.also@,
        }
    }
}

/// The category of a failure.
pub open spec fn kind_of(f: Failure) -> ErrorKind {
    match f.expected {
        Expected::EndOfInput => ErrorKind::TrailingInput,
        Expected::ValueEnd => ErrorKind::ValueUnterminated,
        _ => if f.found is None {
            ErrorKind::EmptyInput
        } else {
            match f.expected {
                Expected::MetricName => ErrorKind::MetricNameInvalid,
                Expected::LabelName => ErrorKind::LabelNameInvalid,
                Expected::Operator => ErrorKind::OperatorInvalid,
                Expected::ValueStart => ErrorKind::ValueUnquoted,
                _ => ErrorKind::ListMalformed,
            }
        },
    }
}

impl ParseError {
    /// The category of this failure.
    pub fn kind(&self) -> (r: ErrorKind)
        ensures
            r == kind_of(self@),
    {
        match self.expected {
            Expected::EndOfInput => ErrorKind::TrailingInput,
            Expected::ValueEnd => ErrorKind::ValueUnterminated,
            _ => if self.found.is_none() {
                ErrorKind::EmptyInput
            } else {
                match self.expected {
                    Expected::MetricName => ErrorKind::MetricNameInvalid,
                    Expected::LabelName => ErrorKind::LabelNameInvalid,
                    Expected::Operator => ErrorKind::OperatorInvalid,
                    Expected::ValueStart => ErrorKind::ValueUnquoted,
                    _ => ErrorKind::ListMalformed,
                }
            },
        }
    }
}

/// A failure at position `i` of `s`, with no enclosing construct yet.
pub open spec fn fail(s: Seq<char>, expected: Expected, i: int) -> Failure {
    Failure {
        expected,
        position: i,
        found: if 0 <= i < s.len() {
            Some(s[i])
        } else {
            None
        },
        frames: seq![],
        also: seq![],
    }
}

/// `f`, seen from inside a construct `context` that began at `start`.
pub open spec fn within(f: Failure, context: Context, start: int) -> Failure {
    Failure { frames: f.frames.push(Frame { context, start: start as usize }), ..f }
}

/// The characters that may continue a token.
#[derive(Clone, Copy, Debug, PartialEq, Eq, Structural)]
pub enum CharClass {
    MetricName,
    LabelName,
    /// Anything but `"`.
    ValueText,
}

pub open spec fn continues(k: CharClass, c: char) -> bool {
    match k {
        CharClass::MetricName => spec_metric_continue(c),
        CharClass::LabelName => spec_label_continue(c),
        CharClass::ValueText => c != '"',
    }
}

/// The end of the longest run of characters of class `k` that starts at `i`.
pub open spec fn run_end(s: Seq<char>, i: int, k: CharClass) -> int
    decreases s.len() - i,
{
    if 0 <= i < s.len() && continues(k, s[i]) {
        run_end(s, i + 1, k)
    } else {
        i
    }
}

/// A metric name starting at `i`: the position where it ends.
pub open spec fn spec_metric_name(s: Seq<char>, i: int) -> Result<int, Failure> {
    if 0 <= i < s.len() && spec_metric_start(s[i]) {
        Ok(run_end(s, i + 1, CharClass::MetricName))
    } else {
        Err(fail(s, Expected::MetricName, i))
    }
}

/// A label name starting at `i`: the position where it ends.
pub open spec fn spec_label_name(s: Seq<char>, i: int) -> Result<int, Failure> {
    if 0 <= i < s.len() && spec_label_start(s[i]) {
        Ok(run_end(s, i + 1, CharClass::LabelName))
    } else {
        Err(fail(s, Expected::LabelName, i))
    }
}

/// Whether `s` holds the two characters `a`, `b` at `i`.
pub open spec fn pair_at(s: Seq<char>, i: int, a: char, b: char) -> bool {
    0 <= i && i + 1 < s.len() && s[i] == a && s[i + 1] == b
}

/// An operator at `i`, the two-character ones tried before `=`.
pub open spec fn spec_operation(s: Seq<char>, i: int) -> Result<(Operator, int), Failure> {
    if pair_at(s, i, '!', '=') {
        Ok((Operator::Ne, i + 2))
    } else if pair_at(s, i, '=', '~') {
        Ok((Operator::RegexEq, i + 2))
    } else if pair_at(s, i, '!', '~') {
        Ok((Operator::RegexNe, i + 2))
    } else if 0 <= i < s.len() && s[i] == '=' {
        Ok((Operator::Eq, i + 1))
    } else {
        Err(fail(s, Expected::Operator, i))
    }
}

/// A quoted value at `i`: the range of its contents and the position after
/// its closing quote.
pub open spec fn spec_label_value(s: Seq<char>, i: int) -> Result<((int, int), int), Failure> {
    if 0 <= i < s.len() && s[i] == '"' {
        let e = run_end(s, i + 1, CharClass::ValueText);
        if e < s.len() {
            Ok(((i + 1, e), e + 1))
        } else {
            Err(fail(s, Expected::ValueEnd, e))
        }
    } else {
        Err(fail(s, Expected::ValueStart, i))
    }
}

/// A label matcher at `i`.
pub open spec fn spec_label(s: Seq<char>, i: int) -> Result<(MatcherModel, int), Failure> {
    match spec_label_name(s, i) {
        Err(f) => Err(within(f, Context::LabelMatcher, i)),
        Ok(a) => match spec_operation(s, a) {
            Err(f) => Err(within(f, Context::LabelMatcher, i)),
            Ok((op, b)) => match spec_label_value(s, b) {
                Err(f) => Err(within(f, Context::LabelMatcher, i)),
                Ok(((vs, ve), c)) => Ok(
                    (
                        MatcherModel {
                            label: s.subrange(i, a),
                            operator: op,
                            value: s.subrange(vs, ve),
                        },
                        c,
                    ),
                ),
            },
        },
    }
}

/// The rest of a label list after its first matcher: `(',' labelMatcher)* '}'`.
pub open spec fn spec_label_rest(s: Seq<char>, j: int) -> Result<(Seq<MatcherModel>, int), Failure>
    decreases s.len() - j,
{
    if 0 <= j < s.len() && s[j] == ',' {
        match spec_label(s, j + 1) {
            Err(f) => Err(f),
            Ok((m, k)) => if j < k <= s.len() {
                match spec_label_rest(s, k) {
                    Err(f) => Err(f),
                    Ok((ms, e)) => Ok((seq![m] + ms, e)),
                }
            } else {
                Err(fail(s, Expected::ListEnd, j))
            },
        }
    } else if 0 <= j < s.len() && s[j] == '}' {
        Ok((seq![], j + 1))
    } else {
        Err(fail(s, Expected::ListEnd, j))
    }
}

/// A label list at `i`.
pub open spec fn spec_labels(s: Seq<char>, i: int) -> Result<(Seq<MatcherModel>, int), Failure> {
    if !(0 <= i < s.len() && s[i] == '{') {
        Err(within(fail(s, Expected::ListStart, i), Context::LabelList, i))
    } else if i + 1 < s.len() && s[i + 1] == '}' {
        Ok((seq![], i + 2))
    } else {
        match spec_label(s, i + 1) {
            Err(f) => Err(within(f, Context::LabelList, i)),
            Ok((m, k)) => match spec_label_rest(s, k) {
                Err(f) => Err(within(f, Context::LabelList, i)),
                Ok((ms, e)) => Ok((seq![m] + ms, e)),
            },
        }
    }
}

/// The failure of a label list alone that holds no matcher: a selector
/// needs a metric name or at least one matcher.
pub open spec fn empty_list_failure(s: Seq<char>) -> Failure {
    within(
        within(fail(s, Expected::LabelName, 1), Context::LabelMatcher, 1),
        Context::LabelList,
        0,
    )
}

/// First alternative: a label list alone, with at least one matcher.
pub open spec fn alt_list(s: Seq<char>) -> Result<(SelectorModel, int), Failure> {
    match spec_labels(s, 0) {
        Ok((ms, e)) => if ms.len() == 0 {
            Err(empty_list_failure(s))
        } else {
            Ok((SelectorModel { metric: None, matchers: ms }, e))
        },
        Err(f) => Err(f),
    }
}

/// Second alternative: one label matcher without braces.
pub open spec fn alt_matcher(s: Seq<char>) -> Result<(SelectorModel, int), Failure> {
    match spec_label(s, 0) {
        Ok((m, e)) => Ok((SelectorModel { metric: None, matchers: seq![m] }, e)),
        Err(f) => Err(f),
    }
}

/// Third alternative: a metric name followed by a label list.
pub open spec fn alt_metric_list(s: Seq<char>) -> Result<(SelectorModel, int), Failure> {
    match spec_metric_name(s, 0) {
        Err(f) => Err(f),
        Ok(a) => match spec_labels(s, a) {
            Ok((ms, e)) => Ok((SelectorModel { metric: Some(s.take(a)), matchers: ms }, e)),
            Err(f) => Err(f),
        },
    }
}

/// Fourth alternative: a metric name alone.
pub open spec fn alt_metric(s: Seq<char>) -> Result<(SelectorModel, int), Failure> {
    match spec_metric_name(s, 0) {
        Err(f) => Err(f),
        Ok(a) => Ok((SelectorModel { metric: Some(s.take(a)), matchers: seq![] }, a)),
    }
}

/// Of two failures, the one that got further into the input; on a tie, the later one.
pub open spec fn deeper(a: Failure, b: Failure) -> Failure {
    if b.position >= a.position {
        b
    } else {
        a
    }
}

/// An alternative's result as a parse of the whole input: one that stops
/// before the end fails there, expecting the end of the input.
pub open spec fn whole(s: Seq<char>, r: Result<(SelectorModel, int), Failure>) -> Result<SelectorModel, Failure> {
    match r {
        Ok((sel, e)) => if e == s.len() {
            Ok(sel)
        } else {
            Err(fail(s, Expected::EndOfInput, e))
        },
        Err(f) => Err(f),
    }
}

/// What a failure `g` of one reading adds to the deepest failure `d`: its
/// expectation, when it failed at the same position and expected something else.
pub open spec fn tied(g: Failure, d: Failure) -> Seq<Expected> {
    if g.position == d.position && g.expected != d.expected {
        seq![g.expected]
    } else {
        seq![]
    }
}

/// The deepest failure `d`, with what the earlier readings `g1`, `g2`, `g3`
/// expected at its position.
pub open spec fn with_ties(d: Failure, g1: Failure, g2: Failure, g3: Failure) -> Failure {
    Failure { also: tied(g1, d) + tied(g2, d) + tied(g3, d), ..d }
}

/// What parsing the whole of `s` as a selector yields: the first alternative,
/// in priority order, that parses and leaves nothing over; when there is none,
/// the deepest failure among the four (the last of those that tie), which also
/// records what the tying ones expected.
pub open spec fn spec_selector(s: Seq<char>) -> Result<SelectorModel, Failure> {
    match whole(s, alt_list(s)) {
        Ok(sel) => Ok(sel),
        Err(g1) => match whole(s, alt_matcher(s)) {
            Ok(sel) => Ok(sel),
            Err(g2) => match whole(s, alt_metric_list(s)) {
                Ok(sel) => Ok(sel),
                Err(g3) => match whole(s, alt_metric(s)) {
                    Ok(sel) => Ok(sel),
                    Err(g4) => Err(
                        within(
                            with_ties(deeper(deeper(deeper(g1, g2), g3), g4), g1, g2, g3),
                            Context::Selector,
                            0,
                        ),
                    ),
                },
            },
        },
    }
}

} // verus!
