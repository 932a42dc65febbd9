//! Recognizers for the selector grammar. Each one works on the input's
//! characters from a position and returns exactly what its spec function in
//! [`crate::grammar`] says.

use vstd::prelude::*;
use vstd::string::{StrSliceExecFns, StringExecFns};
use crate::grammar::{
    CharClass, Context, Expected, Failure, Frame, ParseError, continues, deeper,
    empty_list_failure, fail, pair_at, run_end, spec_label, spec_label_name, spec_label_rest, spec_label_value, spec_labels,
    spec_metric_name, spec_operation, spec_selector, within,
};
use crate::lexical::{
    chars_of, is_metric_label_end, is_metric_label_start, is_metric_name_end,
    is_metric_name_start,
};
use crate::selector::{LabelMatcher, MatcherModel, Operator, Selector, SelectorModel, matchers_view};

verus! {

/// Where a run of class `k` from `i` ends, and what holds of it.
pub proof fn lemma_run_end(s: Seq<char>, i: int, k: CharClass)
    requires
        0 <= i <= s.len(),
    ensures
        i <= run_end(s, i, k) <= s.len(),
        forall|x: int| i <= x < run_end(s, i, k) ==> continues(k, #[trigger] s[x]),
        run_end(s, i, k) == s.len() || !continues(k, s[run_end(s, i, k)]),
    decreases s.len() - i,
{
    if i < s.len() && continues(k, s[i]) {
        lemma_run_end(s, i + 1, k);
    }
}

fn continues_exec(k: CharClass, c: char) -> (r: bool)
    ensures
        r == continues(k, c),
{
    match k {
        CharClass::MetricName => is_metric_name_end(c),
        CharClass::LabelName => is_metric_label_end(c),
        CharClass::ValueText => c != '"',
    }
}

/// The end of the longest run of class `k` that starts at `i`.
fn scan(s: &Vec<char>, i: usize, k: CharClass) -> (r: usize)
    requires
        i <= s@.len(),
    ensures
        r as int == run_end(s@, i as int, k),
        i <= r <= s@.len(),
{
    let mut j: usize = i;
    while j < s.len() && continues_exec(k, s[j])
        invariant
            i <= j <= s@.len(),
            run_end(s@, i as int, k) == run_end(s@, j as int, k),
        decreases s@.len() - j,
    {
        j = j + 1;
    }
    j
}

/// A failure at `i`.
fn fail_at(s: &Vec<char>, expected: Expected, i: usize) -> (r: ParseError)
    requires
        i <= s@.len(),
    ensures
        r@ == fail(s@, expected, i as int),
{
    let found = if i < s.len() {
        Some(s[i])
    } else {
        None
    };
    let r = ParseError { expected, position: i, found, frames: Vec::new(), also: Vec::new() };
    assert(r@.frames =~= seq![]);
    assert(r@.also =~= seq![]);
    r
}

/// Records that `e` happened inside `context`, begun at `start`.
fn push_frame(e: &mut ParseError, context: Context, start: usize)
    ensures
        final(e)@ == within(old(e)@, context, start as int),
{
    e.frames.push(Frame { context, start });
}

/// A metric name at `i`: where it ends.
pub fn metric_name_at(s: &Vec<char>, i: usize) -> (r: Result<usize, ParseError>)
    requires
        i <= s@.len(),
    ensures
        match r {
            Ok(e) => spec_metric_name(s@, i as int) == Ok::<int, Failure>(e as int) && i < e
                <= s@.len(),
            Err(f) => spec_metric_name(s@, i as int) == Err::<int, Failure>(f@),
        },
{
    if i < s.len() && is_metric_name_start(s[i]) {
        Ok(scan(s, i + 1, CharClass::MetricName))
    } else {
        Err(fail_at(s, Expected::MetricName, i))
    }
}

/// A label name at `i`: where it ends.
pub fn label_name_at(s: &Vec<char>, i: usize) -> (r: Result<usize, ParseError>)
    requires
        i <= s@.len(),
    ensures
        match r {
            Ok(e) => spec_label_name(s@, i as int) == Ok::<int, Failure>(e as int) && i < e
                <= s@.len(),
            Err(f) => spec_label_name(s@, i as int) == Err::<int, Failure>(f@),
        },
{
    if i < s.len() && is_metric_label_start(s[i]) {
        Ok(scan(s, i + 1, CharClass::LabelName))
    } else {
        Err(fail_at(s, Expected::LabelName, i))
    }
}

fn pair_at_exec(s: &Vec<char>, i: usize, a: char, b: char) -> (r: bool)
    requires
        i <= s@.len(),
    ensures
        r == pair_at(s@, i as int, a, b),
        r ==> i + 2 <= s.len(),
{
    s.len() - i >= 2 && s[i] == a && s[i + 1] == b
}

/// An operator at `i`: which one, and where it ends.
pub fn operation_at(s: &Vec<char>, i: usize) -> (r: Result<(Operator, usize), ParseError>)
    requires
        i <= s@.len(),
    ensures
        match r {
            Ok((op, e)) => spec_operation(s@, i as int) == Ok::<(Operator, int), Failure>(
                (op, e as int),
            ) && i < e <= s@.len(),
            Err(f) => spec_operation(s@, i as int) == Err::<(Operator, int), Failure>(f@),
        },
{
    if pair_at_exec(s, i, '!', '=') {
        Ok((Operator::Ne, i + 2))
    } else if pair_at_exec(s, i, '=', '~') {
        Ok((Operator::RegexEq, i + 2))
    } else if pair_at_exec(s, i, '!', '~') {
        Ok((Operator::RegexNe, i + 2))
    } else if i < s.len() && s[i] == '=' {
        Ok((Operator::Eq, i + 1))
    } else {
        Err(fail_at(s, Expected::Operator, i))
    }
}

/// A quoted value at `i`: where its contents start and end, and the position
/// after its closing quote.
pub fn label_value_at(s: &Vec<char>, i: usize) -> (r: Result<(usize, usize, usize), ParseError>)
    requires
        i <= s@.len(),
    ensures
        match r {
            Ok((a, b, e)) => spec_label_value(s@, i as int) == Ok::<((int, int), int), Failure>(
                ((a as int, b as int), e as int),
            ) && i < a <= b < e <= s@.len(),
            Err(f) => spec_label_value(s@, i as int) == Err::<((int, int), int), Failure>(f@),
        },
{
    if i < s.len() && s[i] == '"' {
        let e = scan(s, i + 1, CharClass::ValueText);
        if e < s.len() {
            Ok((i + 1, e, e + 1))
        } else {
            Err(fail_at(s, Expected::ValueEnd, e))
        }
    } else {
        Err(fail_at(s, Expected::ValueStart, i))
    }
}

/// A label matcher at `i`, and the position after it.
pub fn label_at(input: &str, s: &Vec<char>, i: usize) -> (r: Result<(LabelMatcher, usize), ParseError>)
    requires
        s@ == input@,
        i <= s@.len(),
    ensures
        match r {
            Ok((m, e)) => spec_label(s@, i as int) == Ok::<(MatcherModel, int), Failure>(
                (m@, e as int),
            ) && i < e <= s@.len(),
            Err(f) => spec_label(s@, i as int) == Err::<(MatcherModel, int), Failure>(f@),
        },
{
    let a = match label_name_at(s, i) {
        Ok(a) => a,
        Err(mut f) => {
            push_frame(&mut f, Context::LabelMatcher, i);
            return Err(f);
        },
    };
    let (operator, b) = match operation_at(s, a) {
        Ok(x) => x,
        Err(mut f) => {
            push_frame(&mut f, Context::LabelMatcher, i);
            return Err(f);
        },
    };
    let (vs, ve, e) = match label_value_at(s, b) {
        Ok(x) => x,
        Err(mut f) => {
            push_frame(&mut f, Context::LabelMatcher, i);
            return Err(f);
        },
    };
    let label = String::from_str(input.substring_char(i, a));
    let value = String::from_str(input.substring_char(vs, ve));
    Ok((LabelMatcher { label, operator, value }, e))
}

/// A label list whose matchers so far are `prefix` and whose remainder parses as `rest`.
pub open spec fn labels_from(
    prefix: Seq<MatcherModel>,
    rest: Result<(Seq<MatcherModel>, int), Failure>,
    i: int,
) -> Result<(Seq<MatcherModel>, int), Failure> {
    match rest {
        Ok((ms, e)) => Ok((prefix + ms, e)),
        Err(f) => Err(within(f, Context::LabelList, i)),
    }
}

/// A label list at `i`, and the position after its `}`.
pub fn labels_at(input: &str, s: &Vec<char>, i: usize) -> (r: Result<(Vec<LabelMatcher>, usize), ParseError>)
    requires
        s@ == input@,
        i <= s@.len(),
    ensures
        match r {
            Ok((v, e)) => spec_labels(s@, i as int) == Ok::<(Seq<MatcherModel>, int), Failure>(
                (matchers_view(v@), e as int),
            ) && i < e <= s@.len(),
            Err(f) => spec_labels(s@, i as int) == Err::<(Seq<MatcherModel>, int), Failure>(f@),
        },
{
    if !(i < s.len() && s[i] == '{') {
        let mut f = fail_at(s, Expected::ListStart, i);
        push_frame(&mut f, Context::LabelList, i);
        return Err(f);
    }
    if s.len() - i >= 2 && s[i + 1] == '}' {
        let v: Vec<LabelMatcher> = Vec::new();
        assert(matchers_view(v@) =~= seq![]);
        return Ok((v, i + 2));
    }
    let (m, k) = match label_at(input, s, i + 1) {
        Ok(x) => x,
        Err(mut f) => {
            push_frame(&mut f, Context::LabelList, i);
            return Err(f);
        },
    };
    let mut v: Vec<LabelMatcher> = Vec::new();
    v.push(m);
    assert(matchers_view(v@) =~= seq![m@]);
    let mut j: usize = k;
    loop
        invariant
            s@ == input@,
            i < j <= s@.len(),
            spec_labels(s@, i as int) == labels_from(
                matchers_view(v@),
                spec_label_rest(s@, j as int),
                i as int,
            ),
        decreases s@.len() - j,
    {
        if j < s.len() && s[j] == ',' {
            match label_at(input, s, j + 1) {
                Ok((m, k)) => {
                    let ghost before = matchers_view(v@);
                    v.push(m);
                    proof {
                        assert(matchers_view(v@) =~= before + seq![m@]);
                        match spec_label_rest(s@, k as int) {
                            Ok((ms, e)) => {
                                assert(before + (seq![m@] + ms) =~= matchers_view(v@) + ms);
                            },
                            Err(_) => {},
                        }
                    }
                    j = k;
                },
                Err(mut f) => {
                    push_frame(&mut f, Context::LabelList, i);
                    return Err(f);
                },
            }
        } else if j < s.len() && s[j] == '}' {
            assert(matchers_view(v@) + seq![] =~= matchers_view(v@));
            return Ok((v, j + 1));
        } else {
            let mut f = fail_at(s, Expected::ListEnd, j);
            push_frame(&mut f, Context::LabelList, i);
            return Err(f);
        }
    }
}

/// Appends to `also` what a failure with `expected` at `position` adds to `d`.
fn add_tie(also: &mut Vec<Expected>, expected: Expected, position: usize, d: &ParseError)
    ensures
        final(also)@ == old(also)@ + (if position == d.position && expected != d.expected {
            seq![expected]
        } else {
            seq![]
        }),
{
    if position == d.position && expected != d.expected {
        also.push(expected);
    } else {
        assert(also@ =~= old(also)@ + seq![]);
    }
}

/// `d` with what the failures at (`e1`, `p1`), (`e2`, `p2`), (`e3`, `p3`)
/// expected at its position.
fn record_ties(d: &mut ParseError, e1: Expected, p1: usize, e2: Expected, p2: usize, e3: Expected, p3: usize)
    ensures
        final(d)@ == (Failure {
            also: (if p1 == old(d).position && e1 != old(d).expected { seq![e1] } else { seq![] })
                + (if p2 == old(d).position && e2 != old(d).expected { seq![e2] } else { seq![] })
                + (if p3 == old(d).position && e3 != old(d).expected { seq![e3] } else { seq![] }),
            ..old(d)@
        }),
{
    let mut also: Vec<Expected> = Vec::new();
    add_tie(&mut also, e1, p1, d);
    add_tie(&mut also, e2, p2, d);
    add_tie(&mut also, e3, p3, d);
    assert(also@ =~= Seq::<Expected>::empty()
        + (if p1 == d.position && e1 != d.expected { seq![e1] } else { seq![] })
        + (if p2 == d.position && e2 != d.expected { seq![e2] } else { seq![] })
        + (if p3 == d.position && e3 != d.expected { seq![e3] } else { seq![] }));
    d.also = also;
}

/// Of two failures, the one that got further; on a tie, `b`.
fn pick_deeper(a: ParseError, b: ParseError) -> (r: ParseError)
    ensures
        r@ == deeper(a@, b@),
{
    if b.position >= a.position {
        b
    } else {
        a
    }
}

/// The selector that the whole of `s` denotes.
fn selector_of(input: &str, s: &Vec<char>) -> (r: Result<Selector, ParseError>)
    requires
        s@ == input@,
    ensures
        match r {
            Ok(sel) => spec_selector(s@) == Ok::<SelectorModel, Failure>(sel@),
            Err(f) => spec_selector(s@) == Err::<SelectorModel, Failure>(f@),
        },
{
    let g1 = match labels_at(input, s, 0) {
        Ok((matchers, e)) => {
            if matchers.len() == 0 {
                let mut f = fail_at(s, Expected::LabelName, 1);
                push_frame(&mut f, Context::LabelMatcher, 1);
                push_frame(&mut f, Context::LabelList, 0);
                f
            } else if e == s.len() {
                return Ok(Selector { metric: None, matchers });
            } else {
                fail_at(s, Expected::EndOfInput, e)
            }
        },
        Err(f) => f,
    };
    let g2 = match label_at(input, s, 0) {
        Ok((m, e)) => {
            if e == s.len() {
                let mut matchers: Vec<LabelMatcher> = Vec::new();
                matchers.push(m);
                assert(matchers_view(matchers@) =~= seq![m@]);
                return Ok(Selector { metric: None, matchers });
            }
            fail_at(s, Expected::EndOfInput, e)
        },
        Err(f) => f,
    };
    let (e1, p1, e2, p2) = (g1.expected, g1.position, g2.expected, g2.position);
    match metric_name_at(s, 0) {
        Err(f) => {
            let (e3, p3) = (f.expected, f.position);
            let mut d = pick_deeper(pick_deeper(g1, g2), f);
            record_ties(&mut d, e1, p1, e2, p2, e3, p3);
            push_frame(&mut d, Context::Selector, 0);
            Err(d)
        },
        Ok(a) => {
            let name = String::from_str(input.substring_char(0, a));
            assert(name@ =~= s@.take(a as int));
            let g3 = match labels_at(input, s, a) {
                Ok((matchers, e)) => {
                    if e == s.len() {
                        return Ok(Selector { metric: Some(name), matchers });
                    }
                    fail_at(s, Expected::EndOfInput, e)
                },
                Err(f) => f,
            };
            if a == s.len() {
                let matchers: Vec<LabelMatcher> = Vec::new();
                assert(matchers_view(matchers@) =~= seq![]);
                return Ok(Selector { metric: Some(name), matchers });
            }
            let g4 = fail_at(s, Expected::EndOfInput, a);
            let (e3, p3) = (g3.expected, g3.position);
            let mut d = pick_deeper(pick_deeper(pick_deeper(g1, g2), g3), g4);
            record_ties(&mut d, e1, p1, e2, p2, e3, p3);
            push_frame(&mut d, Context::Selector, 0);
            Err(d)
        },
    }
}

/// A label name at the start of `input`: the rest of the input and the name.
pub fn metric_label<'a>(input: &'a str) -> (r: Result<(&'a str, &'a str), ParseError>)
    ensures
        match r {
            Ok((rest, name)) => spec_label_name(input@, 0) == Ok::<int, Failure>(name@.len() as int)
                && name@ == input@.take(name@.len() as int) && rest@ == input@.skip(
                name@.len() as int,
            ),
            Err(f) => spec_label_name(input@, 0) == Err::<int, Failure>(f@),
        },
{
    let s = chars_of(input);
    let e = label_name_at(&s, 0)?;
    let n = s.len();
    Ok((input.substring_char(e, n), input.substring_char(0, e)))
}

/// A metric name at the start of `input`: the rest of the input and the name.
pub fn metric_name<'a>(input: &'a str) -> (r: Result<(&'a str, &'a str), ParseError>)
    ensures
        match r {
            Ok((rest, name)) => spec_metric_name(input@, 0) == Ok::<int, Failure>(
                name@.len() as int,
            ) && name@ == input@.take(name@.len() as int) && rest@ == input@.skip(
                name@.len() as int,
            ),
            Err(f) => spec_metric_name(input@, 0) == Err::<int, Failure>(f@),
        },
{
    let s = chars_of(input);
    let e = metric_name_at(&s, 0)?;
    let n = s.len();
    Ok((input.substring_char(e, n), input.substring_char(0, e)))
}

/// Parses the whole of `input` as a selector.
pub fn selector(input: &str) -> (r: Result<Selector, ParseError>)
    ensures
        match r {
            Ok(sel) => spec_selector(input@) == Ok::<SelectorModel, Failure>(sel@),
            Err(f) => spec_selector(input@) == Err::<SelectorModel, Failure>(f@),
        },
{
    let s = chars_of(input);
    selector_of(input, &s)
}

} // verus!
