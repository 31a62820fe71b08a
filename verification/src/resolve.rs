//! Alias resolution: the invocation text is matched against the records'
//! names by exact string equality, in sequence order, and the first match
//! wins. No prefix matching, no trimming, no case normalization.
use vstd::prelude::*;

use crate::config::{AliasRecordView, Config};
use crate::errors::QError;

verus! {

/// The index of the first record at or after `i` whose name equals the
/// invocation text, if any.
pub open spec fn first_match_from(
    records: Seq<AliasRecordView>,
    invocation: Seq<char>,
    i: int,
) -> Option<int>
    decreases records.len() - i when 0 <= i <= records.len()
{
    if i >= records.len() {
        None
    } else if records[i].name == invocation {
        Some(i)
    } else {
        first_match_from(records, invocation, i + 1)
    }
}

/// The index of the first record whose name equals the invocation text.
pub open spec fn first_match(records: Seq<AliasRecordView>, invocation: Seq<char>) -> Option<int> {
    first_match_from(records, invocation, 0)
}

/// The first match is a match, nothing before it matches, and when there is
/// no first match nothing matches at all: matching a record's name resolves
/// that record and no other, even when several records share the name.
pub proof fn lemma_first_match_is_first(records: Seq<AliasRecordView>, invocation: Seq<char>)
    ensures
        (first_match(records, invocation) matches Some(i) ==> {
            &&& 0 <= i < records.len()
            &&& records[i].name == invocation
            &&& forall|j: int| 0 <= j < i ==> records[j].name != invocation
        }),
        (first_match(records, invocation) is None ==> forall|j: int|
            0 <= j < records.len() ==> records[j].name != invocation),
{
    lemma_first_match_from(records, invocation, 0);
}

proof fn lemma_first_match_from(records: Seq<AliasRecordView>, invocation: Seq<char>, i: int)
    requires
        0 <= i <= records.len(),
    ensures
        (first_match_from(records, invocation, i) matches Some(k) ==> {
            &&& i <= k < records.len()
            &&& records[k].name == invocation
            &&& forall|j: int| i <= j < k ==> records[j].name != invocation
        }),
        (first_match_from(records, invocation, i) is None ==> forall|j: int|
            i <= j < records.len() ==> records[j].name != invocation),
    decreases records.len() - i,
{
    if i < records.len() && records[i].name != invocation {
        lemma_first_match_from(records, invocation, i + 1);
    }
}

impl Config {
    /// Finds the index of the first record whose name equals the invocation
    /// text; fails with `CommandNotFound` when no record's name does.
    pub fn resolve(&self, invocation: &String) -> (r: Result<usize, QError>)
        ensures
            r is Ok <==> first_match(self@, invocation@) is Some,
            (r matches Ok(i) ==> Some(i as int) == first_match(self@, invocation@)),
            (r matches Err(e) ==> e == QError::CommandNotFound),
    {
        let n = self.records.len();
        let mut i: usize = 0;
        while i < n
            invariant
                n == self@.len(),
                0 <= i <= n,
                first_match(self@, invocation@) == first_match_from(self@, invocation@, i as int),
            decreases n - i,
        {
            if self.records[i].name == *invocation {
                return Ok(i);
            }
            i += 1;
        }
        Err(QError::CommandNotFound)
    }

    /// The shell command line of the record the invocation text resolves to:
    /// `CommandNotFound` when no record matches, `MissingField` when the
    /// matched record supplies no `command`.
    pub fn command_for(&self, invocation: &String) -> (r: Result<String, QError>)
        ensures
            r is Ok <==> (first_match(self@, invocation@) matches Some(i)
                && self@[i].command is Some),
            (r matches Ok(c) ==> (first_match(self@, invocation@) matches Some(i)
                && self@[i].command == Some(c@))),
            (r matches Err(e) ==> match first_match(self@, invocation@) {
                Option::None => e == QError::CommandNotFound,
                Option::Some(i) => self@[i].command is None && e == QError::MissingField,
            }),
    {
        let i = match self.resolve(invocation) {
            Err(e) => { return Err(e) },
            Ok(i) => i,
        };
        proof {
            lemma_first_match_is_first(self@, invocation@);
        }
        match &self.records[i].command {
            Some(c) => Ok(c.clone()),
            None => Err(QError::MissingField),
        }
    }
}

} // verus!
