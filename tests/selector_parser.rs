use nu_plugin_prometheus::diagnostic::utf8_width;
use nu_plugin_prometheus::grammar::{Context, Expected, Frame};
use nu_plugin_prometheus::lexical::{
    is_metric_label_end, is_metric_label_start, is_metric_name_end, is_metric_name_start,
};
use nu_plugin_prometheus::parser::{metric_label, metric_name, selector};
use nu_plugin_prometheus::{ErrorKind, Operator, Selector, SelectorParser, Span};

fn unknown() -> Span {
    Span { start: 0, end: 0 }
}

fn parse(input: &str) -> Selector {
    SelectorParser::parse(input, unknown()).unwrap()
}

#[test]
fn eq() {
    let metric = parse(r#"label="value""#);

    assert_eq!(Selector::new().eq("label", "value"), metric);
}

#[test]
fn metric() {
    let metric = parse("metric");

    assert_eq!(Selector::new().metric("metric"), metric);
}

#[test]
fn metric_label_error() {
    let input = "0";

    let Err(error) = metric_label(input) else {
        unreachable!("input {input} must error");
    };

    assert_eq!(0, error.position);
    assert_eq!(Some('0'), error.found);
    assert_eq!(Expected::LabelName, error.expected);
    assert_eq!(ErrorKind::LabelNameInvalid, error.kind());
}

fn check_metric_label_ok(input: &str, expected_rest: &str, expected_parsed: &str) {
    let Ok((rest, parsed)) = metric_label(input) else {
        unreachable!("Unable to parse valid input {input}");
    };

    assert_eq!(expected_parsed, parsed, "parsed mismatch, expected {expected_parsed} got {parsed}");
    assert_eq!(expected_rest, rest, "rest mismatch, expected {expected_rest} got {rest}");
}

#[test]
fn metric_label_ok() {
    check_metric_label_ok("A0", "", "A0");
    check_metric_label_ok("__name__", "", "__name__");
    check_metric_label_ok("a0", "", "a0");
    check_metric_label_ok("name_0_more", "", "name_0_more");
    check_metric_label_ok("rule:name", ":name", "rule");
    check_metric_label_ok("up", "", "up");
    check_metric_label_ok("up{", "{", "up");
}

#[test]
fn metric_name_error() {
    let input = "0";

    let Err(error) = metric_name(input) else {
        unreachable!("input {input} must error");
    };

    assert_eq!(0, error.position);
    assert_eq!(Some('0'), error.found);
    assert_eq!(Expected::MetricName, error.expected);
    assert_eq!(ErrorKind::MetricNameInvalid, error.kind());
}

fn check_metric_name_ok(input: &str, expected_rest: &str, expected_parsed: &str) {
    let Ok((rest, parsed)) = metric_name(input) else {
        unreachable!("Unable to parse valid input {input}");
    };

    assert_eq!(expected_parsed, parsed, "parsed mismatch, expected {expected_parsed} got {parsed}");
    assert_eq!(expected_rest, rest, "rest mismatch, expected {expected_rest} got {rest}");
}

#[test]
fn metric_name_ok() {
    check_metric_name_ok("A0", "", "A0");
    check_metric_name_ok("__name__", "", "__name__");
    check_metric_name_ok("a0", "", "a0");
    check_metric_name_ok("name_0_more", "", "name_0_more");
    check_metric_name_ok("rule:name", "", "rule:name");
    check_metric_name_ok("up", "", "up");
    check_metric_name_ok("up{", "{", "up");
}

#[test]
fn ne() {
    let metric = parse(r#"label!="value""#);

    assert_eq!(Selector::new().ne("label", "value"), metric);
}

#[test]
fn regex_eq() {
    let metric = parse(r#"label=~"value""#);

    assert_eq!(Selector::new().regex_eq("label", "value"), metric);
}

#[test]
fn regex_ne() {
    let metric = parse(r#"label!~"value""#);

    assert_eq!(Selector::new().regex_ne("label", "value"), metric);
}

#[test]
fn parse_cases() {
    let cases = vec![
        ("up", Selector::new().metric("up")),
        (r#"job="prometheus""#, Selector::new().eq("job", "prometheus")),
        (r#"job!="prometheus""#, Selector::new().ne("job", "prometheus")),
        (r#"job=~"p.+""#, Selector::new().regex_eq("job", "p.+")),
        (r#"job!~"p.+""#, Selector::new().regex_ne("job", "p.+")),
        (r#"up{job="prometheus"}"#, Selector::new().metric("up").eq("job", "prometheus")),
    ];
    for (input, expected) in cases {
        let parsed = parse(input);
        assert_eq!(expected, parsed, "input: {input} parsed: {}", parsed.render());
    }
}

#[test]
fn metric_names_parse_alone() {
    for name in ["up", "A0", "__name__", "rule:name", ":x", "node_cpu_seconds_total"] {
        let parsed = parse(name);
        assert_eq!(Some(name.to_string()), parsed.metric);
        assert!(parsed.matchers.is_empty());
    }
}

#[test]
fn single_matcher_without_braces() {
    let parsed = parse(r#"job="prometheus""#);
    assert_eq!(None, parsed.metric);
    assert_eq!(1, parsed.matchers.len());
    assert_eq!("job", parsed.matchers[0].label);
    assert_eq!(Operator::Eq, parsed.matchers[0].operator);
    assert_eq!("prometheus", parsed.matchers[0].value);
}

#[test]
fn metric_with_label_list() {
    let parsed = parse(r#"up{job="prometheus"}"#);
    assert_eq!(Some("up".to_string()), parsed.metric);
    assert_eq!(1, parsed.matchers.len());
    assert_eq!("job", parsed.matchers[0].label);
    assert_eq!(Operator::Eq, parsed.matchers[0].operator);
    assert_eq!("prometheus", parsed.matchers[0].value);
}

#[test]
fn two_character_operators_win() {
    let parsed = parse(r#"job!~"p.+""#);
    assert_eq!(1, parsed.matchers.len());
    assert_eq!(Operator::RegexNe, parsed.matchers[0].operator);
    assert_eq!("p.+", parsed.matchers[0].value);

    let parsed = parse(r#"job=~"p.+""#);
    assert_eq!(Operator::RegexEq, parsed.matchers[0].operator);
    assert_eq!("p.+", parsed.matchers[0].value);

    let parsed = parse(r#"job!="p""#);
    assert_eq!(Operator::Ne, parsed.matchers[0].operator);
    assert_eq!("p", parsed.matchers[0].value);
}

#[test]
fn label_list_alone() {
    let parsed = parse(r#"{job="prometheus",instance=~"local.*"}"#);
    assert_eq!(
        Selector::new().eq("job", "prometheus").regex_eq("instance", "local.*"),
        parsed
    );
}

#[test]
fn empty_label_list() {
    assert_eq!(Selector::new().metric("up"), parse("up{}"));

    // Without a metric name, a selector needs at least one matcher.
    let error = selector("{}").unwrap_err();
    assert_eq!(ErrorKind::LabelNameInvalid, error.kind());
    assert_eq!(1, error.position);
    assert_eq!(Some('}'), error.found);
}

#[test]
fn trailing_comma_is_rejected() {
    let error = selector(r#"{job="x",}"#).unwrap_err();
    assert_eq!(ErrorKind::LabelNameInvalid, error.kind());
    assert_eq!(9, error.position);
}

#[test]
fn unicode_value_passes_through() {
    let parsed = parse(r#"up{job="☃ snow"}"#);
    assert_eq!(Selector::new().metric("up").eq("job", "☃ snow"), parsed);
}

#[test]
fn digit_start_fails_both_ways() {
    let error = selector("0a").unwrap_err();
    assert_eq!(ErrorKind::MetricNameInvalid, error.kind());
    assert_eq!(0, error.position);
    assert_eq!(vec![Frame { context: Context::Selector, start: 0 }], error.frames);
    assert_eq!(vec![Expected::ListStart, Expected::LabelName], error.also);

    let label_error = metric_label("0a").unwrap_err();
    assert_eq!(ErrorKind::LabelNameInvalid, label_error.kind());

    let diagnostic = SelectorParser::parse("0a", Span { start: 0, end: 2 }).unwrap_err();
    assert_eq!(4, diagnostic.labels.len());
    assert_eq!(Span { start: 0, end: 1 }, diagnostic.labels[0].span);
    assert_eq!("expected `{`, found `0`", diagnostic.labels[0].message);
    assert_eq!(Span { start: 0, end: 1 }, diagnostic.labels[1].span);
    assert_eq!("expected label name, found `0`", diagnostic.labels[1].message);
    assert_eq!(Span { start: 0, end: 1 }, diagnostic.labels[2].span);
    assert_eq!("expected metric name, found `0`", diagnostic.labels[2].message);
    assert_eq!(Span { start: 0, end: 2 }, diagnostic.labels[3].span);
    assert_eq!("while parsing selector", diagnostic.labels[3].message);
}

#[test]
fn spans_stay_within_a_short_base() {
    // The base span is shorter than the text: no label runs past its end.
    let diagnostic = SelectorParser::parse(r#"up{job="☃"} junk"#, Span { start: 4, end: 9 }).unwrap_err();
    assert_eq!(Span { start: 9, end: 9 }, diagnostic.labels[0].span);
    assert_eq!(Span { start: 4, end: 9 }, diagnostic.labels[1].span);

    let diagnostic = SelectorParser::parse("0a", Span { start: 0, end: 0 }).unwrap_err();
    for label in &diagnostic.labels {
        assert_eq!(Span { start: 0, end: 0 }, label.span);
    }
}

#[test]
fn trailing_input_span_counts_bytes() {
    let input = r#"up{job="☃"} junk"#;
    let error = selector(input).unwrap_err();
    assert_eq!(ErrorKind::TrailingInput, error.kind());
    assert_eq!(11, error.position);

    let diagnostic = SelectorParser::parse(input, Span { start: 0, end: 18 }).unwrap_err();
    assert_eq!(Span { start: 13, end: 18 }, diagnostic.labels[0].span);
    assert_eq!("expected end of input, found ` `", diagnostic.labels[0].message);
}

#[test]
fn spans_are_offset_by_the_base() {
    let input = r#"up{job="☃"} junk"#;
    let diagnostic = SelectorParser::parse(input, Span { start: 100, end: 118 }).unwrap_err();
    assert_eq!(Span { start: 113, end: 118 }, diagnostic.labels[0].span);
    assert_eq!(Span { start: 100, end: 118 }, diagnostic.labels[1].span);
}

#[test]
fn empty_input_is_empty_input() {
    let error = selector("").unwrap_err();
    assert_eq!(ErrorKind::EmptyInput, error.kind());
    assert_ne!(ErrorKind::TrailingInput, error.kind());

    let diagnostic = SelectorParser::parse("", Span { start: 5, end: 5 }).unwrap_err();
    assert_eq!("invalid selector", diagnostic.title);
    assert_eq!(4, diagnostic.labels.len());
    assert_eq!("expected `{`, got empty input", diagnostic.labels[0].message);
    assert_eq!("expected label name, got empty input", diagnostic.labels[1].message);
    assert_eq!(Span { start: 5, end: 5 }, diagnostic.labels[2].span);
    assert_eq!("expected metric name, got empty input", diagnostic.labels[2].message);
    assert!(diagnostic.help.is_some());
    assert!(diagnostic.url.unwrap().starts_with("https://prometheus.io/"));
}

#[test]
fn operator_invalid() {
    let error = selector("{job}").unwrap_err();
    assert_eq!(ErrorKind::OperatorInvalid, error.kind());
    assert_eq!(4, error.position);
    assert_eq!(
        vec![
            Frame { context: Context::LabelMatcher, start: 1 },
            Frame { context: Context::LabelList, start: 0 },
            Frame { context: Context::Selector, start: 0 },
        ],
        error.frames
    );
    let diagnostic = SelectorParser::parse("{job}", Span { start: 0, end: 5 }).unwrap_err();
    assert_eq!(4, diagnostic.labels.len());
    assert_eq!(Span { start: 4, end: 5 }, diagnostic.labels[0].span);
    assert_eq!("expected operator, found `}`", diagnostic.labels[0].message);
    assert_eq!(Span { start: 1, end: 5 }, diagnostic.labels[1].span);
    assert_eq!("while parsing label matcher", diagnostic.labels[1].message);
    assert_eq!("while parsing label list", diagnostic.labels[2].message);
}

#[test]
fn value_unquoted() {
    let error = selector("{job=x}").unwrap_err();
    assert_eq!(ErrorKind::ValueUnquoted, error.kind());
    assert_eq!(5, error.position);
}

#[test]
fn value_unterminated() {
    let error = selector(r#"{job="x"#).unwrap_err();
    assert_eq!(ErrorKind::ValueUnterminated, error.kind());
    assert_eq!(7, error.position);
    assert_eq!(None, error.found);
}

#[test]
fn list_malformed() {
    let error = selector(r#"{job="x";}"#).unwrap_err();
    assert_eq!(ErrorKind::ListMalformed, error.kind());
    assert_eq!(8, error.position);
    assert_eq!(Some(';'), error.found);
}

#[test]
fn input_ends_inside_matcher() {
    let error = selector("{job=").unwrap_err();
    assert_eq!(ErrorKind::EmptyInput, error.kind());
    assert_eq!(Expected::ValueStart, error.expected);

    let diagnostic = SelectorParser::parse("{job=", Span { start: 0, end: 5 }).unwrap_err();
    assert_eq!(Span { start: 5, end: 5 }, diagnostic.labels[0].span);
    assert_eq!("expected opening `\"`, got empty input", diagnostic.labels[0].message);
}

#[test]
fn label_name_invalid() {
    let error = selector(r#"{0="x"}"#).unwrap_err();
    assert_eq!(ErrorKind::LabelNameInvalid, error.kind());
    assert_eq!(1, error.position);
}

#[test]
fn metric_then_garbage_is_trailing_input() {
    let error = selector("up junk").unwrap_err();
    assert_eq!(ErrorKind::TrailingInput, error.kind());
    assert_eq!(2, error.position);
}

// Known limitation: a backslash does not escape a quote inside a value, so
// the value ends at the first `"` and the rest is left over.
#[test]
fn escaped_quote_is_not_supported() {
    let error = selector(r#"job="a\"b""#).unwrap_err();
    assert_eq!(ErrorKind::TrailingInput, error.kind());
    assert_eq!(8, error.position);
}

#[test]
fn render_is_canonical() {
    assert_eq!("up", Selector::new().metric("up").render());
    assert_eq!(
        r#"up{job="prometheus",instance!~"a.*"}"#,
        Selector::new().metric("up").eq("job", "prometheus").regex_ne("instance", "a.*").render()
    );
    assert_eq!(r#"{job!="x"}"#, Selector::new().ne("job", "x").render());
    assert_eq!("{}", Selector::new().render());
}

#[test]
fn reparse_gives_the_same_selector() {
    for input in [
        "up",
        "rule:name",
        r#"job="prometheus""#,
        r#"job!~"p.+""#,
        r#"up{job="prometheus"}"#,
        r#"{a="1",b!="2",c=~"3",d!~"☃"}"#,
        "up{}",
    ] {
        let parsed = parse(input);
        let again = parse(&parsed.render());
        assert_eq!(parsed, again, "input: {input}");
    }
}

#[test]
fn character_classes() {
    assert!(is_metric_name_start(':'));
    assert!(is_metric_name_start('_'));
    assert!(is_metric_name_start('a'));
    assert!(!is_metric_name_start('0'));
    assert!(is_metric_name_end('0'));
    assert!(is_metric_name_end(':'));
    assert!(!is_metric_name_end('{'));
    assert!(!is_metric_label_start(':'));
    assert!(is_metric_label_start('Z'));
    assert!(!is_metric_label_end(':'));
    assert!(is_metric_label_end('9'));
    assert!(!is_metric_label_start('é'));
    assert!(!is_metric_name_end('☃'));
}

#[test]
fn utf8_widths() {
    assert_eq!(1, utf8_width('a'));
    assert_eq!(2, utf8_width('é'));
    assert_eq!(3, utf8_width('☃'));
    assert_eq!(4, utf8_width('😀'));
}

#[test]
fn unterminated_value_after_metric() {
    let input = r#"up{job="abc}"#;
    let error = selector(input).unwrap_err();
    assert_eq!(ErrorKind::ValueUnterminated, error.kind());
    assert_eq!(12, error.position);
    assert_eq!(None, error.found);

    let diagnostic = SelectorParser::parse(input, Span { start: 0, end: 12 }).unwrap_err();
    assert_eq!(Span { start: 12, end: 12 }, diagnostic.labels[0].span);
    assert_eq!("expected closing `\"`, got empty input", diagnostic.labels[0].message);
}

#[test]
fn unterminated_value_without_braces() {
    let error = selector(r#"job="abc"#).unwrap_err();
    assert_eq!(ErrorKind::ValueUnterminated, error.kind());
    assert_eq!(8, error.position);

    let error = selector(r#"a="abc"#).unwrap_err();
    assert_eq!(ErrorKind::ValueUnterminated, error.kind());
    assert_eq!(6, error.position);
}

#[test]
fn deepest_failure_wins_over_partial_parse() {
    // The bare metric name `up` parses, but the label list goes further
    // before it fails, so its failure is the one reported.
    let error = selector(r#"up{job=x}"#).unwrap_err();
    assert_eq!(ErrorKind::ValueUnquoted, error.kind());
    assert_eq!(7, error.position);
}
