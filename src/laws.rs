//! Properties of the selector grammar as a whole: every selector that parsing
//! can produce is well formed, its canonical text parses back to it, and the
//! edge cases of the grammar behave as documented.

use vstd::prelude::*;
use crate::grammar::{
    CharClass, ErrorKind, Failure, alt_list, alt_matcher, alt_metric, alt_metric_list, continues,
    kind_of, whole, run_end, spec_label, spec_label_name, spec_label_rest,
    spec_label_value, spec_labels, spec_metric_name, spec_operation, spec_selector,
};
use crate::lexical::{spec_label_continue, spec_label_start, spec_metric_continue, spec_metric_start};
use crate::parser::lemma_run_end;
use crate::selector::{
    MatcherModel, Operator, SelectorModel, operator_text, render, render_list, render_matcher,
    render_items, render_tail,
};

verus! {

/// `t` is a metric name: `[A-Za-z_:][A-Za-z0-9_:]*`.
pub open spec fn is_metric_name(t: Seq<char>) -> bool {
    &&& t.len() > 0
    &&& spec_metric_start(t[0])
    &&& forall|i: int| 1 <= i < t.len() ==> spec_metric_continue(#[trigger] t[i])
}

/// `t` is a label name: `[A-Za-z_][A-Za-z0-9_]*`.
pub open spec fn is_label_name(t: Seq<char>) -> bool {
    &&& t.len() > 0
    &&& spec_label_start(t[0])
    &&& forall|i: int| 1 <= i < t.len() ==> spec_label_continue(#[trigger] t[i])
}

/// `v` can stand between quotes: it holds no `"`.
pub open spec fn is_value_text(v: Seq<char>) -> bool {
    forall|i: int| 0 <= i < v.len() ==> #[trigger] v[i] != '"'
}

pub open spec fn wf_matcher(m: MatcherModel) -> bool {
    is_label_name(m.label) && is_value_text(m.value)
}

pub open spec fn wf_matchers(ms: Seq<MatcherModel>) -> bool {
    forall|i: int| 0 <= i < ms.len() ==> wf_matcher(#[trigger] ms[i])
}

/// A selector whose names and values could have come from parsing: it has a
/// metric name or at least one matcher, and each name and value is valid.
pub open spec fn wf_selector(sel: SelectorModel) -> bool {
    &&& (sel.metric is Some || sel.matchers.len() > 0)
    &&& (sel.metric is Some ==> is_metric_name(sel.metric->0))
    &&& wf_matchers(sel.matchers)
}

/// A run of class `k` from `i` ends at `j` when everything before `j` is of
/// the class and `s[j]` is not.
pub proof fn lemma_run_end_at(s: Seq<char>, i: int, j: int, k: CharClass)
    requires
        0 <= i <= j <= s.len(),
        forall|x: int| i <= x < j ==> continues(k, #[trigger] s[x]),
        j == s.len() || !continues(k, s[j]),
    ensures
        run_end(s, i, k) == j,
    decreases j - i,
{
    if i < j {
        lemma_run_end_at(s, i + 1, j, k);
    }
}

/// The canonical text of a well-formed matcher, standing at `i` of `s`,
/// parses back to that matcher.
pub proof fn lemma_label_parses(s: Seq<char>, i: int, m: MatcherModel)
    requires
        wf_matcher(m),
        0 <= i,
        i + render_matcher(m).len() <= s.len(),
        s.subrange(i, i + render_matcher(m).len()) == render_matcher(m),
    ensures
        spec_label(s, i) == Ok::<(MatcherModel, int), Failure>((m, i + render_matcher(m).len())),
{
    let r = render_matcher(m);
    let ll = m.label.len() as int;
    let ol = operator_text(m.operator).len() as int;
    let vl = m.value.len() as int;
    let a = i + ll;
    let b = a + ol;
    assert(r.len() == ll + ol + vl + 2);
    assert forall|x: int| 0 <= x < r.len() implies s[i + x] == #[trigger] r[x] by {
        assert(s.subrange(i, i + r.len())[x] == s[i + x]);
    }
    assert forall|x: int| 0 <= x < ll implies s[i + x] == #[trigger] m.label[x] by {
        assert(r[x] == m.label[x]);
    }
    assert forall|x: int| 0 <= x < ol implies s[a + x] == #[trigger] operator_text(m.operator)[x] by {
        assert(r[ll + x] == operator_text(m.operator)[x]);
    }
    assert(s[b] == '"') by {
        assert(r[ll + ol] == '"');
    }
    assert forall|x: int| 0 <= x < vl implies s[b + 1 + x] == #[trigger] m.value[x] by {
        assert(r[ll + ol + 1 + x] == m.value[x]);
    }
    assert(s[b + 1 + vl] == '"') by {
        assert(r[ll + ol + 1 + vl] == '"');
    }
    // the label name
    assert(s[i] == m.label[0]);
    assert forall|x: int| i + 1 <= x < a implies continues(CharClass::LabelName, #[trigger] s[x]) by {
        assert(s[i + (x - i)] == m.label[x - i]);
    }
    assert(s[a] == operator_text(m.operator)[0]);
    lemma_run_end_at(s, i + 1, a, CharClass::LabelName);
    assert(spec_label_name(s, i) == Ok::<int, Failure>(a));
    // the operator
    match m.operator {
        Operator::Eq => {
            assert(s[a + 1] == '"');
        },
        Operator::Ne => {
            assert(s[a + 1] == operator_text(m.operator)[1]);
        },
        Operator::RegexEq => {
            assert(s[a + 1] == operator_text(m.operator)[1]);
        },
        Operator::RegexNe => {
            assert(s[a + 1] == operator_text(m.operator)[1]);
        },
    }
    assert(spec_operation(s, a) == Ok::<(Operator, int), Failure>((m.operator, b)));
    // the value
    assert forall|x: int| b + 1 <= x < b + 1 + vl implies continues(CharClass::ValueText, #[trigger] s[x]) by {
        assert(s[b + 1 + (x - b - 1)] == m.value[x - b - 1]);
    }
    lemma_run_end_at(s, b + 1, b + 1 + vl, CharClass::ValueText);
    assert(spec_label_value(s, b) == Ok::<((int, int), int), Failure>(((b + 1, b + 1 + vl), b + 2 + vl)));
    assert(s.subrange(i, a) =~= m.label);
    assert(s.subrange(b + 1, b + 1 + vl) =~= m.value);
}

/// `t` stands at `i` of `s`.
pub open spec fn stands_at(s: Seq<char>, i: int, t: Seq<char>) -> bool {
    0 <= i && i + t.len() <= s.len() && s.subrange(i, i + t.len()) == t
}

/// A text that stands at `i` gives the characters of `s` from `i`, and each
/// of its parts stands at its own offset.
pub proof fn lemma_stands_at_parts(s: Seq<char>, i: int, a: Seq<char>, b: Seq<char>)
    requires
        stands_at(s, i, a + b),
    ensures
        stands_at(s, i, a),
        stands_at(s, i + a.len(), b),
{
    assert forall|x: int| 0 <= x < a.len() + b.len() implies s[i + x] == #[trigger] (a + b)[x] by {
        assert(s.subrange(i, i + a.len() + b.len())[x] == s[i + x]);
    }
    assert(s.subrange(i, i + a.len()) =~= a) by {
        assert forall|x: int| 0 <= x < a.len() implies s.subrange(i, i + a.len())[x] == a[x] by {
            assert((a + b)[x] == a[x]);
        }
    }
    assert(s.subrange(i + a.len(), i + a.len() + b.len()) =~= b) by {
        assert forall|x: int| 0 <= x < b.len() implies s.subrange(i + a.len(), i + a.len() + b.len())[x] == b[x] by {
            assert((a + b)[a.len() + x] == b[x]);
        }
    }
}

/// The tail of a label list, matchers each preceded by `,` and then `}`,
/// parses back to those matchers.
pub proof fn lemma_rest_parses(s: Seq<char>, j: int, ms: Seq<MatcherModel>)
    requires
        wf_matchers(ms),
        stands_at(s, j, render_tail(ms) + seq!['}']),
    ensures
        spec_label_rest(s, j) == Ok::<(Seq<MatcherModel>, int), Failure>(
            (ms, j + render_tail(ms).len() + 1),
        ),
    decreases ms.len(),
{
    lemma_stands_at_parts(s, j, render_tail(ms), seq!['}']);
    let e = j + render_tail(ms).len();
    assert(s[e] == '}') by {
        assert(s.subrange(e, e + 1)[0] == s[e]);
    }
    if ms.len() == 0 {
        assert(render_tail(ms) =~= Seq::<char>::empty());
        assert(ms =~= seq![]);
    } else {
        let m = ms[0];
        let tail = ms.drop_first();
        let rm = render_matcher(m);
        assert(render_tail(ms) == seq![','] + rm + render_tail(tail));
        assert(render_tail(ms) + seq!['}'] =~= seq![','] + (rm + (render_tail(tail) + seq!['}'])));
        lemma_stands_at_parts(s, j, seq![','], rm + (render_tail(tail) + seq!['}']));
        lemma_stands_at_parts(s, j + 1, rm, render_tail(tail) + seq!['}']);
        assert(s[j] == ',') by {
            assert(s.subrange(j, j + 1)[0] == s[j]);
        }
        assert(wf_matcher(ms[0]));
        lemma_label_parses(s, j + 1, m);
        let k = j + 1 + rm.len();
        assert(wf_matchers(tail)) by {
            assert forall|x: int| 0 <= x < tail.len() implies wf_matcher(#[trigger] tail[x]) by {
                assert(tail[x] == ms[x + 1]);
            }
        }
        lemma_rest_parses(s, k, tail);
        assert(seq![m] + tail =~= ms);
    }
}

/// The canonical text of a label list, standing at `i` of `s`, parses back
/// to its matchers.
pub proof fn lemma_labels_parses(s: Seq<char>, i: int, ms: Seq<MatcherModel>)
    requires
        wf_matchers(ms),
        stands_at(s, i, render_list(ms)),
    ensures
        spec_labels(s, i) == Ok::<(Seq<MatcherModel>, int), Failure>(
            (ms, i + render_list(ms).len()),
        ),
{
    let rl = render_list(ms);
    assert(rl =~= seq!['{'] + (render_items(ms) + seq!['}']));
    lemma_stands_at_parts(s, i, seq!['{'], render_items(ms) + seq!['}']);
    assert(s[i] == '{') by {
        assert(s.subrange(i, i + 1)[0] == s[i]);
    }
    if ms.len() == 0 {
        assert(render_items(ms) + seq!['}'] =~= seq!['}']);
        assert(s[i + 1] == '}') by {
            assert(s.subrange(i + 1, i + 2)[0] == s[i + 1]);
        }
        assert(ms =~= seq![]);
    } else {
        let m = ms[0];
        let tail = ms.drop_first();
        let rm = render_matcher(m);
        assert(render_items(ms) + seq!['}'] =~= rm + (render_tail(tail) + seq!['}']));
        lemma_stands_at_parts(s, i + 1, rm, render_tail(tail) + seq!['}']);
        assert(wf_matcher(ms[0]));
        assert(s[i + 1] == m.label[0]) by {
            assert(s.subrange(i + 1, i + 1 + rm.len())[0] == s[i + 1]);
            assert(rm[0] == m.label[0]);
        }
        lemma_label_parses(s, i + 1, m);
        let k = i + 1 + rm.len();
        assert(wf_matchers(tail)) by {
            assert forall|x: int| 0 <= x < tail.len() implies wf_matcher(#[trigger] tail[x]) by {
                assert(tail[x] == ms[x + 1]);
            }
        }
        lemma_rest_parses(s, k, tail);
        assert(seq![m] + tail =~= ms);
    }
}

/// A selector text that starts with a metric name `n` cannot be read as a
/// single label matcher: the label name stops at a `:` of `n` or at its end,
/// where no operator follows.
proof fn lemma_metric_text_not_matcher(s: Seq<char>, n: Seq<char>)
    requires
        is_metric_name(n),
        n.len() <= s.len(),
        forall|x: int| 0 <= x < n.len() ==> s[x] == #[trigger] n[x],
        n.len() == s.len() || s[n.len() as int] == '{',
    ensures
        spec_label(s, 0) is Err,
{
    if spec_label_name(s, 0) is Ok {
        let a = run_end(s, 1, CharClass::LabelName);
        lemma_run_end(s, 1, CharClass::LabelName);
        if a > n.len() {
            assert(continues(CharClass::LabelName, s[n.len() as int]));
        }
        if a < n.len() {
            assert(s[a] == n[a]);
            assert(spec_metric_continue(n[a]));
        }
        assert(spec_operation(s, a) is Err);
    }
}

/// The text of a well-formed selector with metric name `n`: its first
/// alternatives fail and the metric name ends where `n` does.
proof fn lemma_metric_prefix(s: Seq<char>, n: Seq<char>)
    requires
        is_metric_name(n),
        n.len() <= s.len(),
        forall|x: int| 0 <= x < n.len() ==> s[x] == #[trigger] n[x],
        n.len() == s.len() || s[n.len() as int] == '{',
    ensures
        alt_list(s) is Err,
        alt_matcher(s) is Err,
        spec_metric_name(s, 0) == Ok::<int, Failure>(n.len() as int),
        s.take(n.len() as int) == n,
{
    assert(s.take(n.len() as int) =~= n);
    assert(s[0] == n[0]);
    lemma_metric_text_not_matcher(s, n);
    assert forall|x: int| 1 <= x < n.len() implies continues(CharClass::MetricName, #[trigger] s[x]) by {
        assert(s[x] == n[x]);
    }
    lemma_run_end_at(s, 1, n.len() as int, CharClass::MetricName);
}

/// A label list alone parses back to a selector without metric name.
proof fn lemma_render_parses_list(sel: SelectorModel)
    requires
        wf_selector(sel),
        sel.metric is None,
    ensures
        alt_list(render(sel)) == Ok::<(SelectorModel, int), Failure>(
            (sel, render(sel).len() as int),
        ),
{
    let s = render(sel);
    assert(s.subrange(0, s.len() as int) =~= s);
    lemma_labels_parses(s, 0, sel.matchers);
}

/// A bare metric name parses back to a selector without matchers.
proof fn lemma_render_parses_metric(sel: SelectorModel)
    requires
        wf_selector(sel),
        sel.metric is Some,
        sel.matchers.len() == 0,
    ensures
        alt_list(render(sel)) is Err,
        alt_matcher(render(sel)) is Err,
        alt_metric_list(render(sel)) is Err,
        alt_metric(render(sel)) == Ok::<(SelectorModel, int), Failure>(
            (sel, render(sel).len() as int),
        ),
{
    let s = render(sel);
    let n = sel.metric->0;
    lemma_metric_prefix(s, n);
    assert(sel.matchers =~= seq![]);
    assert(alt_metric_list(s) is Err);
}

/// A metric name followed by a label list parses back to both.
proof fn lemma_render_parses_metric_list(sel: SelectorModel)
    requires
        wf_selector(sel),
        sel.metric is Some,
        sel.matchers.len() > 0,
    ensures
        alt_list(render(sel)) is Err,
        alt_matcher(render(sel)) is Err,
        alt_metric_list(render(sel)) == Ok::<(SelectorModel, int), Failure>(
            (sel, render(sel).len() as int),
        ),
{
    let s = render(sel);
    let n = sel.metric->0;
    let ms = sel.matchers;
    assert forall|x: int| 0 <= x < n.len() implies s[x] == #[trigger] n[x] by {
        assert((n + render_list(ms))[x] == n[x]);
    }
    assert(s[n.len() as int] == '{') by {
        assert((n + render_list(ms))[n.len() as int] == render_list(ms)[0]);
    }
    lemma_metric_prefix(s, n);
    assert(stands_at(s, n.len() as int, render_list(ms))) by {
        assert(s.subrange(n.len() as int, s.len() as int) =~= render_list(ms));
    }
    lemma_labels_parses(s, n.len() as int, ms);
}

/// The canonical text of a well-formed selector parses back to it.
pub proof fn lemma_render_parses(sel: SelectorModel)
    requires
        wf_selector(sel),
    ensures
        spec_selector(render(sel)) == Ok::<SelectorModel, Failure>(sel),
{
    if sel.metric is None {
        lemma_render_parses_list(sel);
    } else if sel.matchers.len() == 0 {
        lemma_render_parses_metric(sel);
    } else {
        lemma_render_parses_metric_list(sel);
    }
}

/// A matcher that parsing produces is well formed and ends within the input.
pub proof fn lemma_label_wf(s: Seq<char>, i: int)
    requires
        0 <= i <= s.len(),
        spec_label(s, i) is Ok,
    ensures
        wf_matcher(spec_label(s, i)->Ok_0.0),
        i < spec_label(s, i)->Ok_0.1 <= s.len(),
{
    let a = run_end(s, i + 1, CharClass::LabelName);
    lemma_run_end(s, i + 1, CharClass::LabelName);
    let (op, b) = spec_operation(s, a)->Ok_0;
    let e = run_end(s, b + 1, CharClass::ValueText);
    lemma_run_end(s, b + 1, CharClass::ValueText);
    let m = spec_label(s, i)->Ok_0.0;
    assert forall|x: int| 1 <= x < m.label.len() implies spec_label_continue(#[trigger] m.label[x]) by {
        assert(m.label[x] == s[i + x]);
        assert(continues(CharClass::LabelName, s[i + x]));
    }
    assert forall|x: int| 0 <= x < m.value.len() implies #[trigger] m.value[x] != '"' by {
        assert(m.value[x] == s[b + 1 + x]);
        assert(continues(CharClass::ValueText, s[b + 1 + x]));
    }
}

/// The matchers that the tail of a label list yields are well formed.
pub proof fn lemma_rest_wf(s: Seq<char>, j: int)
    requires
        0 <= j <= s.len(),
        spec_label_rest(s, j) is Ok,
    ensures
        wf_matchers(spec_label_rest(s, j)->Ok_0.0),
        j < spec_label_rest(s, j)->Ok_0.1 <= s.len(),
    decreases s.len() - j,
{
    if s[j] == ',' {
        lemma_label_wf(s, j + 1);
        let (m, k) = spec_label(s, j + 1)->Ok_0;
        lemma_rest_wf(s, k);
        let ms = spec_label_rest(s, k)->Ok_0.0;
        assert forall|x: int| 0 <= x < (seq![m] + ms).len() implies wf_matcher(#[trigger] (seq![m] + ms)[x]) by {
            if x > 0 {
                assert((seq![m] + ms)[x] == ms[x - 1]);
            }
        }
    }
}

/// The matchers that a label list yields are well formed.
pub proof fn lemma_labels_wf(s: Seq<char>, i: int)
    requires
        0 <= i <= s.len(),
        spec_labels(s, i) is Ok,
    ensures
        wf_matchers(spec_labels(s, i)->Ok_0.0),
        i < spec_labels(s, i)->Ok_0.1 <= s.len(),
{
    if !(i + 1 < s.len() && s[i + 1] == '}') {
        lemma_label_wf(s, i + 1);
        let (m, k) = spec_label(s, i + 1)->Ok_0;
        lemma_rest_wf(s, k);
        let ms = spec_label_rest(s, k)->Ok_0.0;
        assert forall|x: int| 0 <= x < (seq![m] + ms).len() implies wf_matcher(#[trigger] (seq![m] + ms)[x]) by {
            if x > 0 {
                assert((seq![m] + ms)[x] == ms[x - 1]);
            }
        }
    }
}

/// A metric name that parsing produces is well formed.
proof fn lemma_metric_name_wf(s: Seq<char>)
    requires
        spec_metric_name(s, 0) is Ok,
    ensures
        is_metric_name(s.take(spec_metric_name(s, 0)->Ok_0)),
        0 < spec_metric_name(s, 0)->Ok_0 <= s.len(),
{
    let a = spec_metric_name(s, 0)->Ok_0;
    lemma_run_end(s, 1, CharClass::MetricName);
    let n = s.take(a);
    assert forall|x: int| 1 <= x < n.len() implies spec_metric_continue(#[trigger] n[x]) by {
        assert(continues(CharClass::MetricName, s[x]));
    }
}

/// Every selector that parsing produces is well formed; in particular it
/// has a metric name or at least one matcher.
pub proof fn lemma_parsed_wf(s: Seq<char>)
    requires
        spec_selector(s) is Ok,
    ensures
        wf_selector(spec_selector(s)->Ok_0),
{
    if whole(s, alt_list(s)) is Ok {
        lemma_labels_wf(s, 0);
    } else if whole(s, alt_matcher(s)) is Ok {
        lemma_label_wf(s, 0);
        let m = spec_label(s, 0)->Ok_0.0;
        assert(seq![m][0] == m);
    } else if whole(s, alt_metric_list(s)) is Ok {
        lemma_metric_name_wf(s);
        lemma_labels_wf(s, spec_metric_name(s, 0)->Ok_0);
    } else {
        lemma_metric_name_wf(s);
    }
}

/// Writing a parsed selector back in its canonical form and parsing that
/// text again yields the same selector.
pub proof fn lemma_reparse(s: Seq<char>)
    requires
        spec_selector(s) is Ok,
    ensures
        spec_selector(render(spec_selector(s)->Ok_0)) == spec_selector(s),
{
    lemma_parsed_wf(s);
    lemma_render_parses(spec_selector(s)->Ok_0);
}

/// A metric name alone parses to a selector with that metric and no matchers.
pub proof fn lemma_metric_name_parses(t: Seq<char>)
    requires
        is_metric_name(t),
    ensures
        spec_selector(t) == Ok::<SelectorModel, Failure>(
            SelectorModel { metric: Some(t), matchers: seq![] },
        ),
{
    let sel = SelectorModel { metric: Some(t), matchers: seq![] };
    assert(render(sel) == t);
    lemma_render_parses(sel);
}

/// A single label matcher without braces parses to a selector with no
/// metric and that one matcher, whichever its operator.
pub proof fn lemma_matcher_parses(m: MatcherModel)
    requires
        wf_matcher(m),
    ensures
        spec_selector(render_matcher(m)) == Ok::<SelectorModel, Failure>(
            SelectorModel { metric: None, matchers: seq![m] },
        ),
{
    let s = render_matcher(m);
    assert(s.subrange(0, s.len() as int) =~= s);
    lemma_label_parses(s, 0, m);
    assert(s[0] == m.label[0]);
    assert(alt_list(s) is Err);
}

/// Input whose first character can start neither a label list nor a name
/// fails on both readings, as a label name and as a metric name, and is
/// reported as an invalid metric name at position 0.
pub proof fn lemma_bad_start_fails(s: Seq<char>)
    requires
        s.len() > 0,
        s[0] != '{',
        !spec_metric_start(s[0]),
    ensures
        spec_label_name(s, 0) is Err,
        spec_metric_name(s, 0) is Err,
        spec_selector(s) is Err,
        spec_selector(s)->Err_0.position == 0,
        kind_of(spec_selector(s)->Err_0) == ErrorKind::MetricNameInvalid,
{
}

/// The empty input is rejected as empty input, not as trailing input.
pub proof fn lemma_empty_input_fails()
    ensures
        spec_selector(Seq::<char>::empty()) is Err,
        kind_of(spec_selector(Seq::<char>::empty())->Err_0) == ErrorKind::EmptyInput,
{
}

} // verus!
