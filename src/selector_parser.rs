//! The entry point: a selector string and the span it came from, to a
//! selector or a diagnostic.

use vstd::prelude::*;
use crate::diagnostic::{
    Diagnostic, Span, diagnostic, lemma_diagnostic_spans_within, spec_diagnostic, utf8_len,
};
use crate::grammar::{Failure, spec_selector};
use crate::parser::selector;
use crate::laws::{is_metric_name, lemma_metric_name_parses, lemma_reparse};
use crate::selector::{Selector, SelectorModel, render};

verus! {

pub struct SelectorParser {}

impl SelectorParser {
    /// Parses `input`, which stands at `span` in some source buffer. On
    /// failure the diagnostic's spans are byte ranges of that buffer. A bare
    /// metric name parses to that metric with no matchers, and the canonical
    /// text of any result parses back to the same selector. Every span of a
    /// diagnostic lies within `span`.
    pub fn parse(input: &str, span: Span) -> (r: Result<Selector, Diagnostic>)
        requires
            span.start + utf8_len(input@) <= usize::MAX,
        ensures
            match r {
                Ok(sel) => spec_selector(input@) == Ok::<SelectorModel, Failure>(sel@),
                Err(d) => spec_selector(input@) is Err && d@ == spec_diagnostic(
                    span,
                    input@,
                    spec_selector(input@)->Err_0,
                ),
            },
            is_metric_name(input@) ==> r is Ok && r->Ok_0@ == (SelectorModel {
                metric: Some(input@),
                matchers: seq![],
            }),
            r is Ok ==> spec_selector(render(r->Ok_0@)) == Ok::<SelectorModel, Failure>(r->Ok_0@),
            r is Err && span.start <= span.end ==> forall|k: int|
                0 <= k < r->Err_0@.labels.len() ==> {
                    let sp = #[trigger] r->Err_0@.labels[k].span;
                    span.start <= sp.start <= sp.end <= span.end
                },
    {
        proof {
            if is_metric_name(input@) {
                lemma_metric_name_parses(input@);
            }
            if spec_selector(input@) is Ok {
                lemma_reparse(input@);
            } else if span.start <= span.end {
                lemma_diagnostic_spans_within(span, input@, spec_selector(input@)->Err_0);
            }
        }
        match selector(input) {
            Ok(sel) => Ok(sel),
            Err(e) => Err(diagnostic(input, span, &e)),
        }
    }
}

} // verus!
