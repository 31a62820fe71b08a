use qalias::config::{AliasRecord, Config};
use qalias::errors::QError;

fn record(name: &str, command: Option<&str>, help: Option<&str>) -> AliasRecord {
    AliasRecord {
        name: name.to_string(),
        command: command.map(|s| s.to_string()),
        help: help.map(|s| s.to_string()),
    }
}

fn three_records() -> Config {
    Config {
        records: vec![
            record("show files", Some("ls -lh"), Some("list files")),
            record("disk", Some("df -h"), Some("disk usage")),
            record("show files", Some("ls"), Some("shadowed duplicate")),
        ],
    }
}

#[test]
fn resolve_exact_name_finds_record() {
    let c = three_records();
    assert_eq!(c.resolve(&"disk".to_string()).unwrap(), 1);
}

#[test]
fn resolve_first_match_wins_on_duplicate_names() {
    let c = three_records();
    assert_eq!(c.resolve(&"show files".to_string()).unwrap(), 0);
    assert_eq!(
        c.command_for(&"show files".to_string()).unwrap(),
        "ls -lh"
    );
}

#[test]
fn resolve_unknown_name_is_command_not_found() {
    let c = three_records();
    assert_eq!(
        c.resolve(&"missing".to_string()).unwrap_err(),
        QError::CommandNotFound
    );
    assert_eq!(
        c.command_for(&"missing".to_string()).unwrap_err(),
        QError::CommandNotFound
    );
}

#[test]
fn resolve_is_exact_no_prefix_or_case_match() {
    let c = three_records();
    assert!(c.resolve(&"show".to_string()).is_err());
    assert!(c.resolve(&"Show files".to_string()).is_err());
    assert!(c.resolve(&"show files ".to_string()).is_err());
}

#[test]
fn resolve_empty_configuration_finds_nothing() {
    let c = Config { records: vec![] };
    assert_eq!(
        c.resolve(&"anything".to_string()).unwrap_err(),
        QError::CommandNotFound
    );
}

#[test]
fn command_for_missing_command_field_fails() {
    let c = Config {
        records: vec![record("bare", None, Some("no command"))],
    };
    assert_eq!(
        c.command_for(&"bare".to_string()).unwrap_err(),
        QError::MissingField
    );
}
