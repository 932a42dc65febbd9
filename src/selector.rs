//! The value that a selector expression denotes: an optional metric name and
//! an ordered list of label matchers.

use vstd::prelude::*;
use vstd::string::StringExecFns;

verus! {

/// How a label matcher compares a label with its value.
#[derive(Clone, Copy, Debug, PartialEq, Eq, Structural)]
pub enum Operator {
    /// `=`
    Eq,
    /// `!=`
    Ne,
    /// `=~`
    RegexEq,
    /// `!~`
    RegexNe,
}

/// One constraint `label <operator> "value"`.
#[derive(Clone, Debug, PartialEq, Eq)]
pub struct LabelMatcher {
    pub label: String,
    pub operator: Operator,
    pub value: String,
}

/// The mathematical value of a [`LabelMatcher`].
pub struct MatcherModel {
    pub label: Seq<char>,
    pub operator: Operator,
    pub value: Seq<char>,
}

impl View for LabelMatcher {
    type V = MatcherModel;

    open spec fn view(&self) -> MatcherModel {
        MatcherModel { label: self.label@, operator: self.operator, value: self.value@ }
    }
}

/// A parsed selector: an optional metric name and label matchers, in order.
#[derive(Clone, Debug, PartialEq, Eq)]
pub struct Selector {
    pub metric: Option<String>,
    pub matchers: Vec<LabelMatcher>,
}

/// The mathematical value of a [`Selector`].
pub struct SelectorModel {
    pub metric: Option<Seq<char>>,
    pub matchers: Seq<MatcherModel>,
}

pub open spec fn matchers_view(v: Seq<LabelMatcher>) -> Seq<MatcherModel> {
    v.map_values(|m: LabelMatcher| m@)
}

impl View for Selector {
    type V = SelectorModel;

    open spec fn view(&self) -> SelectorModel {
        SelectorModel {
            metric: match self.metric {
                Some(m) => Some(m@),
                None => None,
            },
            matchers: matchers_view(self.matchers@),
        }
    }
}

/// The surface text of an operator.
pub open spec fn operator_text(op: Operator) -> Seq<char> {
    match op {
        Operator::Eq => seq!['='],
        Operator::Ne => seq!['!', '='],
        Operator::RegexEq => seq!['=', '~'],
        Operator::RegexNe => seq!['!', '~'],
    }
}

/// Canonical text of a matcher: `label<op>"value"`.
pub open spec fn render_matcher(m: MatcherModel) -> Seq<char> {
    m.label + operator_text(m.operator) + seq!['"'] + m.value + seq!['"']
}

/// The matchers' canonical texts joined by `,`.
pub open spec fn render_items(ms: Seq<MatcherModel>) -> Seq<char> {
    if ms.len() == 0 {
        seq![]
    } else {
        render_matcher(ms[0]) + render_tail(ms.drop_first())
    }
}

/// Each matcher's canonical text preceded by `,`.
pub open spec fn render_tail(ms: Seq<MatcherModel>) -> Seq<char>
    decreases ms.len(),
{
    if ms.len() == 0 {
        seq![]
    } else {
        seq![','] + render_matcher(ms[0]) + render_tail(ms.drop_first())
    }
}

/// A brace-delimited label list: `{m1,m2,...}`.
pub open spec fn render_list(ms: Seq<MatcherModel>) -> Seq<char> {
    seq!['{'] + render_items(ms) + seq!['}']
}

/// Canonical surface form of a selector: the bare metric name when there are
/// no matchers, otherwise the (optional) metric name followed by a label list.
pub open spec fn render(s: SelectorModel) -> Seq<char> {
    match s.metric {
        Some(m) => if s.matchers.len() == 0 {
            m
        } else {
            m + render_list(s.matchers)
        },
        None => render_list(s.matchers),
    }
}

impl Operator {
    /// The surface text of this operator.
    pub fn as_str(&self) -> (r: &'static str)
        ensures
            r@ == operator_text(*self),
    {
        match self {
            Operator::Eq => {
                proof { reveal_strlit("="); }
                "="
            },
            Operator::Ne => {
                proof { reveal_strlit("!="); }
                "!="
            },
            Operator::RegexEq => {
                proof { reveal_strlit("=~"); }
                "=~"
            },
            Operator::RegexNe => {
                proof { reveal_strlit("!~"); }
                "!~"
            },
        }
    }
}

impl LabelMatcher {
    /// Appends the canonical text of this matcher to `out`.
    pub fn render_into(&self, out: &mut String)
        ensures
            final(out)@ == old(out)@ + render_matcher(self@),
    {
        proof { reveal_strlit("\""); }
        out.append(self.label.as_str());
        out.append(self.operator.as_str());
        out.append("\"");
        out.append(self.value.as_str());
        out.append("\"");
        assert(out@ =~= old(out)@ + render_matcher(self@));
    }
}

/// `s` with one more matcher at the end.
pub open spec fn with_matcher(s: SelectorModel, label: Seq<char>, op: Operator, value: Seq<char>) -> SelectorModel {
    SelectorModel {
        metric: s.metric,
        matchers: s.matchers.push(MatcherModel { label, operator: op, value }),
    }
}

impl Selector {
    /// A selector with no metric name and no matchers.
    pub fn new() -> (r: Selector)
        ensures
            r@.metric is None,
            r@.matchers.len() == 0,
    {
        let r = Selector { metric: None, matchers: Vec::new() };
        assert(r@.matchers =~= Seq::<MatcherModel>::empty());
        r
    }

    /// This selector, restricted to the metric `metric`.
    pub fn metric(self, metric: &str) -> (r: Selector)
        ensures
            r@ == (SelectorModel { metric: Some(metric@), ..self@ }),
    {
        Selector { metric: Some(String::from_str(metric)), matchers: self.matchers }
    }

    fn with(self, label: &str, operator: Operator, value: &str) -> (r: Selector)
        ensures
            r@ == with_matcher(self@, label@, operator, value@),
    {
        let mut matchers = self.matchers;
        let m = LabelMatcher { label: String::from_str(label), operator, value: String::from_str(value) };
        let ghost before = matchers@;
        matchers.push(m);
        assert(matchers_view(matchers@) =~= matchers_view(before).push(m@));
        Selector { metric: self.metric, matchers }
    }

    /// This selector and `label="value"`.
    pub fn eq(self, label: &str, value: &str) -> (r: Selector)
        ensures
            r@ == with_matcher(self@, label@, Operator::Eq, value@),
    {
        self.with(label, Operator::Eq, value)
    }

    /// This selector and `label!="value"`.
    pub fn ne(self, label: &str, value: &str) -> (r: Selector)
        ensures
            r@ == with_matcher(self@, label@, Operator::Ne, value@),
    {
        self.with(label, Operator::Ne, value)
    }

    /// This selector and `label=~"value"`.
    pub fn regex_eq(self, label: &str, value: &str) -> (r: Selector)
        ensures
            r@ == with_matcher(self@, label@, Operator::RegexEq, value@),
    {
        self.with(label, Operator::RegexEq, value)
    }

    /// This selector and `label!~"value"`.
    pub fn regex_ne(self, label: &str, value: &str) -> (r: Selector)
        ensures
            r@ == with_matcher(self@, label@, Operator::RegexNe, value@),
    {
        self.with(label, Operator::RegexNe, value)
    }

    /// The canonical surface text of this selector.
    pub fn render(&self) -> (r: String)
        ensures
            r@ == render(self@),
    {
        let n = self.matchers.len();
        let mut out = String::new();
        match &self.metric {
            Some(m) => {
                out.append(m.as_str());
                if n == 0 {
                    return out;
                }
            },
            None => {},
        }
        let ghost head = out@;
        let ghost ms = self@.matchers;
        proof { reveal_strlit("{"); reveal_strlit("}"); reveal_strlit(","); }
        out.append("{");
        if n > 0 {
            self.matchers[0].render_into(&mut out);
            let mut i: usize = 1;
            while i < n
                invariant
                    n == self.matchers@.len(),
                    ms == self@.matchers,
                    1 <= i <= n,
                    out@ == head + seq!['{'] + render_matcher(ms[0]) + render_tail(
                        ms.subrange(1, i as int),
                    ),
                decreases n - i,
            {
                let ghost prev = out@;
                proof { reveal_strlit(","); }
                out.append(",");
                self.matchers[i].render_into(&mut out);
                proof {
                    assert(self.matchers@[i as int]@ == ms[i as int]);
                    assert(out@ =~= prev + seq![','] + render_matcher(ms[i as int]));
                    lemma_render_tail_push(ms.subrange(1, i as int), ms[i as int]);
                    assert(ms.subrange(1, i as int).push(ms[i as int]) =~= ms.subrange(1, i + 1));
                    assert(out@ =~= head + seq!['{'] + render_matcher(ms[0]) + render_tail(
                        ms.subrange(1, i + 1),
                    ));
                }
                i = i + 1;
            }
            assert(ms.subrange(1, n as int) =~= ms.drop_first());
        }
        out.append("}");
        assert(out@ =~= render(self@));
        out
    }
}

/// Appending a matcher to a list appends its text to the list's tail.
pub proof fn lemma_render_tail_push(ms: Seq<MatcherModel>, m: MatcherModel)
    ensures
        render_tail(ms.push(m)) == render_tail(ms) + seq![','] + render_matcher(m),
    decreases ms.len(),
{
    if ms.len() == 0 {
        assert(ms.push(m).drop_first() =~= Seq::<MatcherModel>::empty());
        assert(render_tail(Seq::<MatcherModel>::empty()) =~= Seq::<char>::empty());
        assert(ms.push(m)[0] == m);
        assert(render_tail(ms.push(m)) =~= render_tail(ms) + seq![','] + render_matcher(m));
    } else {
        assert(ms.push(m).drop_first() =~= ms.drop_first().push(m));
        assert(ms.push(m)[0] == ms[0]);
        lemma_render_tail_push(ms.drop_first(), m);
        assert(render_tail(ms.push(m)) == seq![','] + render_matcher(ms[0]) + render_tail(
            ms.drop_first().push(m),
        ));
        assert(render_tail(ms) == seq![','] + render_matcher(ms[0]) + render_tail(ms.drop_first()));
        assert(render_tail(ms.push(m)) =~= render_tail(ms) + seq![','] + render_matcher(m));
    }
}

} // verus!
