use nu_plugin_prometheus::commands::{
    ParseCommand, PrometheusCommand, QueryRangeCommand, TargetsCommand,
};
use nu_plugin_prometheus::query::{series_name, shown_label};
use nu_plugin_prometheus::{ParseFormat, Scrape, TargetState};

#[test]
fn parse_formats() {
    assert_eq!(ParseFormat::Prometheus, ParseFormat::default());
    assert_eq!(Some(ParseFormat::Prometheus), ParseFormat::from_name("prometheus"));
    assert_eq!(Some(ParseFormat::Openmetrics), ParseFormat::from_name("openmetrics"));
    assert_eq!(None, ParseFormat::from_name("Prometheus"));
    assert_eq!(None, ParseFormat::from_name("json"));
    assert_eq!(None, ParseFormat::from_name(""));
}

#[test]
fn target_states() {
    assert_eq!(Some(TargetState::Active), TargetsCommand::target_state("active"));
    assert_eq!(Some(TargetState::Active), TargetsCommand::target_state("ACTIVE"));
    assert_eq!(Some(TargetState::Any), TargetsCommand::target_state("Any"));
    assert_eq!(Some(TargetState::Dropped), TargetsCommand::target_state("dropped"));
    assert_eq!(None, TargetsCommand::target_state("all"));
    assert_eq!(None, TargetsCommand::target_state(""));
}

#[test]
fn missing_range_arguments() {
    assert_eq!("Missing: --start, --end, --step", QueryRangeCommand::missing_arguments(false, false, false));
    assert_eq!("Missing: --start, --step", QueryRangeCommand::missing_arguments(false, true, false));
    assert_eq!("Missing: --end", QueryRangeCommand::missing_arguments(true, false, true));
    assert_eq!("Missing: --step", QueryRangeCommand::missing_arguments(true, true, false));
    assert_eq!("Missing: ", QueryRangeCommand::missing_arguments(true, true, true));
}

#[test]
fn command_names() {
    assert_eq!("prometheus parse", ParseCommand.name());
    assert_eq!("prometheus", PrometheusCommand.name());
    assert_eq!("prometheus query range", QueryRangeCommand.name());
    assert_eq!("Show target discovery state", TargetsCommand.description());
}

#[test]
fn scrape_target() {
    let scrape = Scrape::new("http://localhost:9100/metrics".to_string());
    assert_eq!("http://localhost:9100/metrics", scrape.target());
}

#[test]
fn shown_labels() {
    assert!(!shown_label("__name__"));
    assert!(shown_label("job"));
    assert!(shown_label("__name"));
    assert!(shown_label(""));
}

#[test]
fn series_names() {
    assert_eq!("up", series_name(Some("up")));
    assert_eq!("[UNKNOWN]", series_name(None));
}
