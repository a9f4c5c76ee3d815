use postnl::formatted::{err_to_str, fill_placeholder, render_param, FormattedStatus, RawFormattedStatus};

#[test]
fn test_formatting() {
    let raw = RawFormattedStatus {
        title: "Bezorgd op".to_string(),
        body: "{DateAbs:2019-08-27T12:28:12+02:00}\n{time:2019-08-27T12:28:12+02:00} uur"
            .to_string(),
        short: "Bezorgd op {dateAbs:2019-08-27T12:28:12+02:00}".to_string(),
    };

    let formatted: FormattedStatus = FormattedStatus::try_from(raw).unwrap();
    assert_eq!(formatted.short(), "Bezorgd op Tuesday 27 August");
    assert_eq!(formatted.body(), "Tuesday 27 August\n12:28:12 uur");
}

#[test]
fn unknown_parameter_kind_is_refused() {
    let raw = RawFormattedStatus {
        title: String::new(),
        body: "{week:2019-08-27T12:28:12+02:00}".to_string(),
        short: String::new(),
    };
    assert_eq!(FormattedStatus::try_from(raw).unwrap_err(), "Invalid type: week");
}

#[test]
fn malformed_timestamp_is_refused() {
    assert!(FormattedStatus::extract_params("{date:yesterday}").is_err());
    assert!(render_param(&"time".to_string(), "12:00").is_err());
}

#[test]
fn parameter_kinds_render() {
    let v = "2019-08-27T12:28:12+02:00";
    assert_eq!(render_param(&"date".to_string(), v).unwrap(), "2019-08-27+02:00");
    assert_eq!(render_param(&"time".to_string(), v).unwrap(), "12:28:12");
    assert_eq!(render_param(&"datetime".to_string(), v).unwrap(), "2019-08-27 12:28:12 +02:00");
    assert_eq!(render_param(&"dateabs".to_string(), v).unwrap(), "Tuesday 27 August");
}

#[test]
fn placeholders_fill_in_order() {
    assert_eq!(fill_placeholder("a{}b{}", "X"), "aXb{}");
    assert_eq!(fill_placeholder("no slots", "X"), "no slots");
    assert_eq!(fill_placeholder("{", "X"), "{");
    assert_eq!(fill_placeholder("{}", ""), "");
    let params = vec!["1".to_string(), "2".to_string()];
    assert_eq!(FormattedStatus::format("{}-{}-{}", &params), "1-2-{}");
}

#[test]
fn template_without_parameters_is_kept() {
    let raw = RawFormattedStatus {
        title: "T".to_string(),
        body: "plain".to_string(),
        short: "{x}".to_string(),
    };
    let f = FormattedStatus::try_from(raw).unwrap();
    assert_eq!(f.body(), "plain");
    assert_eq!(f.short(), "{}");
    assert!(FormattedStatus::extract_params("plain").unwrap().is_empty());
}

#[test]
fn error_text_is_its_display() {
    assert_eq!(err_to_str(42), "42");
    assert_eq!(err_to_str("boom"), "boom");
}

#[test]
fn parse_error_text_is_reported() {
    let expected = chrono::DateTime::parse_from_rfc3339("yesterday").unwrap_err().to_string();
    assert_eq!(render_param(&"date".to_string(), "yesterday").unwrap_err(), expected);
    assert_eq!(FormattedStatus::extract_params("a {time:ok} b {week:x}").unwrap_err(), {
        chrono::DateTime::parse_from_rfc3339("ok").unwrap_err().to_string()
    });
}

#[test]
fn body_errors_come_before_short_errors() {
    let raw = RawFormattedStatus {
        title: String::new(),
        body: "{Week:1}".to_string(),
        short: "{month:2}".to_string(),
    };
    assert_eq!(FormattedStatus::try_from(raw).unwrap_err(), "Invalid type: week");
    let raw = RawFormattedStatus {
        title: String::new(),
        body: "fine".to_string(),
        short: "{month:2}".to_string(),
    };
    assert_eq!(FormattedStatus::try_from(raw).unwrap_err(), "Invalid type: month");
}
