//! The configuration: an ordered sequence of alias records, loaded from the
//! text of a TOML document with a top-level `group` array of tables. Ordering
//! is significant: help text lists the records in sequence order and alias
//! resolution takes the first match.
use vstd::prelude::*;

use crate::errors::QError;

verus! {

/// A record exactly as the document supplies it: every field may be absent.
#[derive(Debug)]
pub struct RawRecord {
    pub name: Option<String>,
    pub command: Option<String>,
    pub help: Option<String>,
}

impl View for RawRecord {
    type V = (Option<Seq<char>>, Option<Seq<char>>, Option<Seq<char>>);

    open spec fn view(&self) -> Self::V {
        (self.name.deep_view(), self.command.deep_view(), self.help.deep_view())
    }
}

/// The views of a sequence of raw records, in order.
pub open spec fn raw_views(rs: Seq<RawRecord>) -> Seq<
    (Option<Seq<char>>, Option<Seq<char>>, Option<Seq<char>>),
> {
    rs.map_values(|r: RawRecord| r@)
}

/// What parsing a configuration text yields: `None` when the text is not a
/// TOML document of the expected shape, otherwise the `name`, `command` and
/// `help` strings of each record of the `group` array, in document order with
/// absent fields as `None`. The result is a function of the text alone.
pub uninterp spec fn toml_group_records(text: Seq<char>) -> Option<
    Seq<(Option<Seq<char>>, Option<Seq<char>>, Option<Seq<char>>)>,
>;

/// Relies on `toml::from_str`: deserializes the text as a TOML document whose
/// top-level entries map string keys to arrays of string-to-string tables,
/// then reads the `group` array and each record's `name`, `command` and
/// `help` entries. Any other document shape fails the parse. The outcome,
/// named `toml_group_records`, depends on the text alone.
#[verifier::external_body]
fn parse_records(text: &str) -> (r: Option<Vec<RawRecord>>)
    ensures
        r is Some <==> toml_group_records(text@) is Some,
        (r matches Some(v) ==> raw_views(v@) == toml_group_records(text@)->0),
{
    let doc: std::collections::HashMap<String, Vec<std::collections::HashMap<String, String>>> =
        toml::from_str(text).ok()?;
    let group = doc.get("group")?;
    Some(group.iter().map(|m| RawRecord {
        name: m.get("name").cloned(),
        command: m.get("command").cloned(),
        help: m.get("help").cloned(),
    }).collect())
}

/// An alias record after validation: the name is always present, the command
/// and help text are looked up only when an operation needs them.
#[derive(Debug)]
pub struct AliasRecord {
    pub name: String,
    pub command: Option<String>,
    pub help: Option<String>,
}

/// The mathematical shape of an alias record.
pub ghost struct AliasRecordView {
    pub name: Seq<char>,
    pub command: Option<Seq<char>>,
    pub help: Option<Seq<char>>,
}

impl View for AliasRecord {
    type V = AliasRecordView;

    open spec fn view(&self) -> AliasRecordView {
        AliasRecordView {
            name: self.name@,
            command: self.command.deep_view(),
            help: self.help.deep_view(),
        }
    }
}

impl DeepView for AliasRecord {
    type V = AliasRecordView;

    open spec fn deep_view(&self) -> AliasRecordView {
        self.view()
    }
}

/// Whether every raw record supplies a `name`.
pub open spec fn all_named(
    rs: Seq<(Option<Seq<char>>, Option<Seq<char>>, Option<Seq<char>>)>,
) -> bool {
    forall|i: int| 0 <= i < rs.len() ==> rs[i].0 is Some
}

/// The validated record a raw record turns into, once its name is known to
/// be present.
pub open spec fn to_record(
    t: (Option<Seq<char>>, Option<Seq<char>>, Option<Seq<char>>),
) -> AliasRecordView
    recommends
        t.0 is Some,
{
    AliasRecordView { name: t.0->0, command: t.1, help: t.2 }
}

/// The validated records of a raw sequence, in order.
pub open spec fn records_of(
    rs: Seq<(Option<Seq<char>>, Option<Seq<char>>, Option<Seq<char>>)>,
) -> Seq<AliasRecordView> {
    rs.map_values(|t: (Option<Seq<char>>, Option<Seq<char>>, Option<Seq<char>>)| to_record(t))
}

/// The ordered sequence of alias records of one invocation. Immutable after
/// load; names need not be unique, resolution takes the first match.
#[derive(Debug)]
pub struct Config {
    pub records: Vec<AliasRecord>,
}

impl View for Config {
    type V = Seq<AliasRecordView>;

    open spec fn view(&self) -> Seq<AliasRecordView> {
        self.records.deep_view()
    }
}

fn clone_opt(o: &Option<String>) -> (r: Option<String>)
    ensures
        r == *o,
{
    match o {
        None => None,
        Some(s) => Some(s.clone()),
    }
}

impl Config {
    /// Parses and validates a configuration text. Succeeds exactly when the
    /// text is a document of the expected shape in which every record
    /// supplies a `name`; everything else is a parse error.
    pub fn load(text: &str) -> (r: Result<Config, QError>)
        ensures
            r is Ok <==> (toml_group_records(text@) matches Some(rs) && all_named(rs)),
            (r matches Ok(c) ==> c@ == records_of(toml_group_records(text@)->0)),
            (r matches Err(e) ==> e == QError::ConfigParseError),
    {
        let raw = match parse_records(text) {
            None => { return Err(QError::ConfigParseError) },
            Some(v) => v,
        };
        let ghost rs = toml_group_records(text@)->0;
        let mut records: Vec<AliasRecord> = Vec::new();
        let mut i: usize = 0;
        while i < raw.len()
            invariant
                i <= raw@.len(),
                toml_group_records(text@) == Some(rs),
                rs == raw_views(raw@),
                records@.len() == i,
                forall|j: int| 0 <= j < i ==> rs[j].0 is Some,
                forall|j: int| 0 <= j < i ==> records@[j]@ == to_record(rs[j]),
            decreases raw@.len() - i,
        {
            assert(rs[i as int] == raw@[i as int]@);
            let name = match &raw[i].name {
                None => { return Err(QError::ConfigParseError) },
                Some(n) => n.clone(),
            };
            let command = clone_opt(&raw[i].command);
            let help = clone_opt(&raw[i].help);
            records.push(AliasRecord { name, command, help });
            i += 1;
        }
        let c = Config { records };
        proof {
            assert(c@ =~= records_of(rs));
        }
        Ok(c)
    }

    /// The number of records.
    pub fn len(&self) -> (n: usize)
        ensures
            n == self@.len(),
    {
        self.records.len()
    }
}

} // verus!
