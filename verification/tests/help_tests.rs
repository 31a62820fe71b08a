use qalias::config::{AliasRecord, Config};
use qalias::errors::QError;

fn record(name: &str, help: Option<&str>) -> AliasRecord {
    AliasRecord {
        name: name.to_string(),
        command: Some("true".to_string()),
        help: help.map(|s| s.to_string()),
    }
}

#[test]
fn render_help_formats_each_record() {
    let c = Config {
        records: vec![record("show files", Some("this is help info"))],
    };
    assert_eq!(c.render_help().unwrap(), "show files \"this is help info\"");
}

#[test]
fn render_help_one_line_per_record_in_order() {
    let c = Config {
        records: vec![
            record("b", Some("hb")),
            record("a", Some("ha")),
            record("c", Some("hc")),
        ],
    };
    let text = c.render_help().unwrap();
    let lines: Vec<&str> = text.split('\n').collect();
    assert_eq!(lines.len(), 3);
    assert_eq!(lines[0], "b \"hb\"");
    assert_eq!(lines[1], "a \"ha\"");
    assert_eq!(lines[2], "c \"hc\"");
}

#[test]
fn render_help_of_empty_configuration_is_empty() {
    let c = Config { records: vec![] };
    assert_eq!(c.render_help().unwrap(), "");
}

#[test]
fn render_help_missing_help_aborts_whole_render() {
    let c = Config {
        records: vec![record("a", Some("ha")), record("b", None)],
    };
    assert_eq!(c.render_help().unwrap_err(), QError::MissingField);
}
