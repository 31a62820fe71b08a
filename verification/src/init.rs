//! Initialization: what an `init` run does and what it writes. The decision
//! is a function of whether the configuration file already exists; the
//! filesystem work itself lives with the surrounding program.
use vstd::prelude::*;
use vstd::string::StringExecFns;

use crate::config::{AliasRecord, AliasRecordView, Config};

verus! {

/// What one `init` run does.
#[derive(Clone, Copy, Debug, PartialEq, Eq, Structural)]
pub enum InitAction {
    /// The file is absent: create its parent directories and write the
    /// default configuration.
    CreateDefault,
    /// The file is already there: write nothing.
    AlreadyExists,
}

/// Decides an `init` run: a missing configuration file is created with the
/// default content, an existing one is left untouched — so a second run
/// performs no write.
pub fn init_action(config_exists: bool) -> (r: InitAction)
    ensures
        r == (if config_exists {
            InitAction::AlreadyExists
        } else {
            InitAction::CreateDefault
        }),
{
    if config_exists {
        InitAction::AlreadyExists
    } else {
        InitAction::CreateDefault
    }
}

/// The fixed path of the configuration file.
pub fn default_config_path() -> (r: &'static str)
    ensures
        r@ == "/usr/local/etc/q/q.toml"@,
{
    "/usr/local/etc/q/q.toml"
}

/// The text an `init` run writes when the file is absent.
pub open spec fn default_text() -> Seq<char> {
    "group = [\n{ name = \"show files\", command = \"ls -lh\", help = \"this is help info\" }\n]"@
}

/// The default configuration text, as written to a fresh file.
pub fn default_config_text() -> (r: &'static str)
    ensures
        r@ == default_text(),
{
    "group = [\n{ name = \"show files\", command = \"ls -lh\", help = \"this is help info\" }\n]"
}

/// The record the default configuration consists of.
pub open spec fn default_record() -> AliasRecordView {
    AliasRecordView {
        name: "show files"@,
        command: Some("ls -lh"@),
        help: Some("this is help info"@),
    }
}

/// The default configuration as a value: one record aliasing `show files`
/// to `ls -lh`.
pub fn default_config() -> (c: Config)
    ensures
        c@ =~= seq![default_record()],
{
    let mut records: Vec<AliasRecord> = Vec::new();
    records.push(
        AliasRecord {
            name: String::from_str("show files"),
            command: Some(String::from_str("ls -lh")),
            help: Some(String::from_str("this is help info")),
        },
    );
    Config { records }
}

/// The message an `init` run reports, for each action.
pub open spec fn init_message_spec(action: InitAction, path: Seq<char>) -> Seq<char> {
    match action {
        InitAction::CreateDefault => "create "@ + path + " ok"@,
        InitAction::AlreadyExists => path + " is existed!"@,
    }
}

/// Renders the message an `init` run reports.
pub fn init_message(action: InitAction, path: &str) -> (r: String)
    ensures
        r@ == init_message_spec(action, path@),
{
    let mut out = String::new();
    match action {
        InitAction::CreateDefault => {
            out.append("create ");
            out.append(path);
            out.append(" ok");
        },
        InitAction::AlreadyExists => {
            out.append(path);
            out.append(" is existed!");
        },
    }
    proof {
        assert(out@ =~= init_message_spec(action, path@));
    }
    out
}

} // verus!
