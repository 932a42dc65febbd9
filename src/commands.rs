//! The plugin's commands: their names, descriptions, and the decisions they
//! take on their arguments before any query is made.

use vstd::prelude::*;
use vstd::string::StringExecFns;
use crate::lexical::chars_of;

verus! {

/// The plugin, which offers the commands below.
#[derive(Clone, Copy, Debug, Default)]
pub struct Prometheus;

#[derive(Clone, Copy, Debug, Default)]
pub struct LabelCommand;

impl LabelCommand {
    pub fn name(&self) -> (r: &'static str)
        ensures
            r@ == "prometheus label"@,
    {
        "prometheus label"
    }

    pub fn description(&self) -> (r: &'static str)
        ensures
            r@ == "Prometheus label names and values"@,
    {
        "Prometheus label names and values"
    }
}

#[derive(Clone, Copy, Debug, Default)]
pub struct LabelNamesCommand;

impl LabelNamesCommand {
    pub fn name(&self) -> (r: &'static str)
        ensures
            r@ == "prometheus label names"@,
    {
        "prometheus label names"
    }

    pub fn description(&self) -> (r: &'static str)
        ensures
            r@ == "Query for label names"@,
    {
        "Query for label names"
    }
}

#[derive(Clone, Copy, Debug, Default)]
pub struct LabelValuesCommand;

impl LabelValuesCommand {
    pub fn name(&self) -> (r: &'static str)
        ensures
            r@ == "prometheus label values"@,
    {
        "prometheus label values"
    }

    pub fn description(&self) -> (r: &'static str)
        ensures
            r@ == "Query for label values"@,
    {
        "Query for label values"
    }
}

#[derive(Clone, Copy, Debug, Default)]
pub struct LabelsCommand;

impl LabelsCommand {
    pub fn name(&self) -> (r: &'static str)
        ensures
            r@ == "prometheus labels"@,
    {
        "prometheus labels"
    }

    pub fn description(&self) -> (r: &'static str)
        ensures
            r@ == "Query for label names"@,
    {
        "Query for label names"
    }
}

#[derive(Clone, Copy, Debug, Default)]
pub struct MetricMetadataCommand;

impl MetricMetadataCommand {
    pub fn name(&self) -> (r: &'static str)
        ensures
            r@ == "prometheus metric metadata"@,
    {
        "prometheus metric metadata"
    }

    pub fn description(&self) -> (r: &'static str)
        ensures
            r@ == "Retrieve metric metadata"@,
    {
        "Retrieve metric metadata"
    }
}

#[derive(Clone, Copy, Debug, Default)]
pub struct ParseCommand;

impl ParseCommand {
    pub fn name(&self) -> (r: &'static str)
        ensures
            r@ == "prometheus parse"@,
    {
        "prometheus parse"
    }

    pub fn description(&self) -> (r: &'static str)
        ensures
            r@ == "Parse prometheus or openmetrics output"@,
    {
        "Parse prometheus or openmetrics output"
    }
}

#[derive(Clone, Copy, Debug, Default)]
pub struct PrometheusCommand;

impl PrometheusCommand {
    pub fn name(&self) -> (r: &'static str)
        ensures
            r@ == "prometheus"@,
    {
        "prometheus"
    }

    pub fn description(&self) -> (r: &'static str)
        ensures
            r@ == "Prometheus plugin"@,
    {
        "Prometheus plugin"
    }
}

#[derive(Clone, Copy, Debug, Default)]
pub struct QueryCommand;

impl QueryCommand {
    pub fn name(&self) -> (r: &'static str)
        ensures
            r@ == "prometheus query"@,
    {
        "prometheus query"
    }

    pub fn description(&self) -> (r: &'static str)
        ensures
            r@ == "Run an instant query"@,
    {
        "Run an instant query"
    }
}

#[derive(Clone, Copy, Debug, Default)]
pub struct QueryRangeCommand;

impl QueryRangeCommand {
    pub fn name(&self) -> (r: &'static str)
        ensures
            r@ == "prometheus query range"@,
    {
        "prometheus query range"
    }

    pub fn description(&self) -> (r: &'static str)
        ensures
            r@ == "Run a range query"@,
    {
        "Run a range query"
    }
}

#[derive(Clone, Copy, Debug, Default)]
pub struct ScrapeCommand;

impl ScrapeCommand {
    pub fn name(&self) -> (r: &'static str)
        ensures
            r@ == "prometheus scrape"@,
    {
        "prometheus scrape"
    }

    pub fn description(&self) -> (r: &'static str)
        ensures
            r@ == "Scrape a prometheus target"@,
    {
        "Scrape a prometheus target"
    }
}

#[derive(Clone, Copy, Debug, Default)]
pub struct SeriesCommand;

impl SeriesCommand {
    pub fn name(&self) -> (r: &'static str)
        ensures
            r@ == "prometheus series"@,
    {
        "prometheus series"
    }

    pub fn description(&self) -> (r: &'static str)
        ensures
            r@ == "Query for series"@,
    {
        "Query for series"
    }
}

#[derive(Clone, Copy, Debug, Default)]
pub struct SourcesCommand;

impl SourcesCommand {
    pub fn name(&self) -> (r: &'static str)
        ensures
            r@ == "prometheus sources"@,
    {
        "prometheus sources"
    }

    pub fn description(&self) -> (r: &'static str)
        ensures
            r@ == "List configured sources"@,
    {
        "List configured sources"
    }
}

#[derive(Clone, Copy, Debug, Default)]
pub struct TargetsCommand;

impl TargetsCommand {
    pub fn name(&self) -> (r: &'static str)
        ensures
            r@ == "prometheus targets"@,
    {
        "prometheus targets"
    }

    pub fn description(&self) -> (r: &'static str)
        ensures
            r@ == "Show target discovery state"@,
    {
        "Show target discovery state"
    }
}

/// Which exposition format `prometheus parse` reads.
#[derive(Clone, Copy, Debug, PartialEq, Eq, Structural)]
pub enum ParseFormat {
    Prometheus,
    Openmetrics,
}

impl Default for ParseFormat {
    fn default() -> (r: ParseFormat)
        ensures
            r == ParseFormat::Prometheus,
    {
        ParseFormat::Prometheus
    }
}

/// Whether two character sequences are equal.
fn chars_equal(a: &Vec<char>, b: &Vec<char>) -> (r: bool)
    ensures
        r == (a@ == b@),
{
    if a.len() != b.len() {
        return false;
    }
    let mut i: usize = 0;
    while i < a.len()
        invariant
            a@.len() == b@.len(),
            i <= a@.len(),
            forall|k: int| 0 <= k < i ==> a@[k] == b@[k],
        decreases a@.len() - i,
    {
        if a[i] != b[i] {
            return false;
        }
        i = i + 1;
    }
    assert(a@ =~= b@);
    true
}

/// The format that a `--format` value names.
pub open spec fn spec_format_named(name: Seq<char>) -> Option<ParseFormat> {
    if name == "prometheus"@ {
        Some(ParseFormat::Prometheus)
    } else if name == "openmetrics"@ {
        Some(ParseFormat::Openmetrics)
    } else {
        None
    }
}

impl ParseFormat {
    /// The format named `name`: `prometheus` or `openmetrics`.
    pub fn from_name(name: &str) -> (r: Option<ParseFormat>)
        ensures
            r == spec_format_named(name@),
    {
        let n = chars_of(name);
        if chars_equal(&n, &chars_of("prometheus")) {
            Some(ParseFormat::Prometheus)
        } else if chars_equal(&n, &chars_of("openmetrics")) {
            Some(ParseFormat::Openmetrics)
        } else {
            None
        }
    }
}

/// Which targets `prometheus targets` lists.
#[derive(Clone, Copy, Debug, PartialEq, Eq, Structural)]
pub enum TargetState {
    Active,
    Dropped,
    Any,
}

/// `c` with an ASCII capital letter made small.
pub open spec fn ascii_lower(c: char) -> char {
    if 'A' <= c && c <= 'Z' {
        (((c as u8) + 32) as u8) as char
    } else {
        c
    }
}

/// `s` with its ASCII capital letters made small.
pub open spec fn ascii_lowercase(s: Seq<char>) -> Seq<char> {
    s.map_values(|c: char| ascii_lower(c))
}

/// The target state that a state argument names, in any ASCII case.
pub open spec fn spec_target_state(state: Seq<char>) -> Option<TargetState> {
    let s = ascii_lowercase(state);
    if s == "active"@ {
        Some(TargetState::Active)
    } else if s == "any"@ {
        Some(TargetState::Any)
    } else if s == "dropped"@ {
        Some(TargetState::Dropped)
    } else {
        None
    }
}

fn lower_char(c: char) -> (r: char)
    ensures
        r == ascii_lower(c),
{
    if 'A' <= c && c <= 'Z' {
        ((c as u8) + 32) as char
    } else {
        c
    }
}

/// The characters of `s` with ASCII capitals made small.
fn lowercase_chars(s: &str) -> (r: Vec<char>)
    ensures
        r@ == ascii_lowercase(s@),
{
    let v = chars_of(s);
    let mut r: Vec<char> = Vec::new();
    let mut i: usize = 0;
    while i < v.len()
        invariant
            v@ == s@,
            i <= v@.len(),
            r@ == ascii_lowercase(v@.take(i as int)),
        decreases v@.len() - i,
    {
        r.push(lower_char(v[i]));
        proof {
            assert(v@.take(i + 1) =~= v@.take(i as int).push(v@[i as int]));
            assert(ascii_lowercase(v@.take(i + 1)) =~= ascii_lowercase(v@.take(i as int)).push(
                ascii_lower(v@[i as int]),
            ));
        }
        i = i + 1;
    }
    assert(v@.take(i as int) =~= v@);
    r
}

impl TargetsCommand {
    /// The target state that the state argument names: `active`, `any` or
    /// `dropped`, in any ASCII case.
    pub fn target_state(state: &str) -> (r: Option<TargetState>)
        ensures
            r == spec_target_state(state@),
    {
        let s = lowercase_chars(state);
        if chars_equal(&s, &chars_of("active")) {
            Some(TargetState::Active)
        } else if chars_equal(&s, &chars_of("any")) {
            Some(TargetState::Any)
        } else if chars_equal(&s, &chars_of("dropped")) {
            Some(TargetState::Dropped)
        } else {
            None
        }
    }
}

/// The items joined by `, `.
pub open spec fn join_comma(items: Seq<Seq<char>>) -> Seq<char>
    decreases items.len(),
{
    if items.len() == 0 {
        seq![]
    } else if items.len() == 1 {
        items[0]
    } else {
        join_comma(items.drop_last()) + ", "@ + items.last()
    }
}

/// The range flags that were not given, in the order start, end, step.
pub open spec fn missing_flags(start: bool, end: bool, step: bool) -> Seq<Seq<char>> {
    let a = if start {
        seq![]
    } else {
        seq!["--start"@]
    };
    let b = if end {
        a
    } else {
        a.push("--end"@)
    };
    if step {
        b
    } else {
        b.push("--step"@)
    }
}

/// Appends `item` to a comma-separated list held in `out`.
fn append_item(out: &mut String, first: bool, item: &str, Ghost(items): Ghost<Seq<Seq<char>>>)
    requires
        old(out)@ == join_comma(items),
        first == (items.len() == 0),
    ensures
        final(out)@ == join_comma(items.push(item@)),
{
    assert(items.push(item@).drop_last() =~= items);
    if !first {
        out.append(", ");
    }
    out.append(item);
    if first {
        assert(join_comma(items) =~= Seq::<char>::empty());
        assert(join_comma(items.push(item@)) == item@);
        assert(final(out)@ =~= item@);
    }
}

impl QueryRangeCommand {
    /// The message for a range query that lacks some of `--start`, `--end`
    /// and `--step`: "Missing: " and the missing flags joined by `, `.
    pub fn missing_arguments(start: bool, end: bool, step: bool) -> (r: String)
        ensures
            r@ == "Missing: "@ + join_comma(missing_flags(start, end, step)),
    {
        let ghost mut items: Seq<Seq<char>> = seq![];
        let mut list = String::new();
        if !start {
            append_item(&mut list, true, "--start", Ghost(items));
            proof { items = items.push("--start"@); }
        }
        if !end {
            append_item(&mut list, start, "--end", Ghost(items));
            proof { items = items.push("--end"@); }
        }
        if !step {
            append_item(&mut list, start && end, "--step", Ghost(items));
            proof { items = items.push("--step"@); }
        }
        assert(items =~= missing_flags(start, end, step));
        let mut r = String::from_str("Missing: ");
        r.append(list.as_str());
        r
    }
}

} // verus!
