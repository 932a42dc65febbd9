use nu_plugin_prometheus::source::{choose_source, identity_items, SourceChoice};
use nu_plugin_prometheus::source::missing_entry as missing_tls_entry;
use nu_plugin_prometheus::Span;

#[test]
fn missing_entry() {
    let err = missing_tls_entry("first", "second", Span { start: 0, end: 0 });

    assert_eq!("Missing TLS item", err.title);

    let label = err.labels.first().unwrap();
    assert_eq!("Have first, missing second", label.message);
}

#[test]
fn make_identity() {
    let cert = Span { start: 1, end: 2 };
    let key = Span { start: 3, end: 4 };

    assert_eq!(Ok(false), identity_items(None, None));
    assert_eq!(Ok(true), identity_items(Some(cert), Some(key)));
    assert_eq!(Err(missing_tls_entry("client key", "cert", key)), identity_items(None, Some(key)));
    assert_eq!(Err(missing_tls_entry("client cert", "key", cert)), identity_items(Some(cert), None));
}

#[test]
fn source_choice() {
    let span = Span { start: 7, end: 11 };
    let names = vec!["local".to_string(), "prod".to_string(), "prod".to_string()];

    assert_eq!(Ok(SourceChoice::Url), choose_source(true, None, &names));
    assert_eq!(Ok(SourceChoice::Configured(1)), choose_source(false, Some(("prod", span)), &names));

    let both = choose_source(true, Some(("prod", span)), &names).unwrap_err();
    assert_eq!("Argument error", both.title);
    assert_eq!(span, both.labels[0].span);
    assert_eq!("Supply only --source or --url, not both", both.labels[0].message);

    let unknown = choose_source(false, Some(("staging", span)), &names).unwrap_err();
    assert_eq!("Matching source not found", unknown.title);
    assert_eq!("this source is not configured", unknown.labels[0].message);

    let neither = choose_source(false, None, &names).unwrap_err();
    assert_eq!("Prometheus server not specified", neither.title);
    assert!(neither.labels.is_empty());
    assert!(neither.help.is_some());
}
