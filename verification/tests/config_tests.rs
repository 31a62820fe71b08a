use qalias::config::{AliasRecord, Config};
use qalias::errors::QError;
use qalias::init::default_config_text;

fn record(name: &str, command: &str, help: &str) -> AliasRecord {
    AliasRecord {
        name: name.to_string(),
        command: Some(command.to_string()),
        help: Some(help.to_string()),
    }
}

#[test]
fn load_default_text_yields_default_record() {
    let c = Config::load(default_config_text()).unwrap();
    assert_eq!(c.records.len(), 1);
    assert_eq!(c.records[0].name, "show files");
    assert_eq!(c.records[0].command.as_deref(), Some("ls -lh"));
    assert_eq!(c.records[0].help.as_deref(), Some("this is help info"));
}

#[test]
fn load_keeps_document_order() {
    let text = "group = [\n\
                { name = \"b\", command = \"echo b\", help = \"hb\" },\n\
                { name = \"a\", command = \"echo a\", help = \"ha\" },\n\
                ]";
    let c = Config::load(text).unwrap();
    assert_eq!(c.records.len(), 2);
    assert_eq!(c.records[0].name, "b");
    assert_eq!(c.records[1].name, "a");
}

#[test]
fn load_allows_absent_command_and_help() {
    let text = "group = [ { name = \"bare\" } ]";
    let c = Config::load(text).unwrap();
    assert_eq!(c.records.len(), 1);
    assert_eq!(c.records[0].name, "bare");
    assert_eq!(c.records[0].command, None);
    assert_eq!(c.records[0].help, None);
}

#[test]
fn load_rejects_record_without_name() {
    let text = "group = [ { command = \"ls\", help = \"h\" } ]";
    assert_eq!(Config::load(text).unwrap_err(), QError::ConfigParseError);
}

#[test]
fn load_rejects_missing_group() {
    assert_eq!(Config::load("").unwrap_err(), QError::ConfigParseError);
    assert_eq!(
        Config::load("other = [ { name = \"x\" } ]").unwrap_err(),
        QError::ConfigParseError
    );
}

#[test]
fn load_rejects_malformed_toml() {
    assert_eq!(
        Config::load("group = [ { name = ").unwrap_err(),
        QError::ConfigParseError
    );
    assert_eq!(
        Config::load("group = 3").unwrap_err(),
        QError::ConfigParseError
    );
}

#[test]
fn load_rejects_non_string_field() {
    let text = "group = [ { name = \"x\", command = 7 } ]";
    assert_eq!(Config::load(text).unwrap_err(), QError::ConfigParseError);
}

#[test]
fn config_len_counts_records() {
    let c = Config {
        records: vec![record("a", "ca", "ha"), record("b", "cb", "hb")],
    };
    assert_eq!(c.len(), 2);
}
