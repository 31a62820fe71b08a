//! Help rendering: one line per record, `name "help"`, in sequence order,
//! joined with newlines. Every record must supply both fields; a missing one
//! aborts the whole render.
use vstd::prelude::*;
use vstd::string::StringExecFns;

use crate::config::{AliasRecordView, Config};
use crate::errors::QError;

verus! {

/// The help line of one record: its name, then its help text in quotes.
pub open spec fn help_line(rec: AliasRecordView) -> Seq<char>
    recommends
        rec.help is Some,
{
    rec.name + seq![' ', '"'] + rec.help->0 + seq!['"']
}

/// Whether every record supplies a help text.
pub open spec fn all_help_present(records: Seq<AliasRecordView>) -> bool {
    forall|i: int| 0 <= i < records.len() ==> records[i].help is Some
}

/// The whole help text: the records' help lines in order, joined with `'\n'`.
pub open spec fn rendered_help(records: Seq<AliasRecordView>) -> Seq<char>
    recommends
        all_help_present(records),
    decreases records.len(),
{
    if records.len() == 0 {
        Seq::empty()
    } else if records.len() == 1 {
        help_line(records[0])
    } else {
        rendered_help(records.drop_last()) + seq!['\n'] + help_line(records.last())
    }
}

impl Config {
    /// Renders the help text. Succeeds exactly when every record supplies a
    /// help text; a record without one fails the whole render.
    pub fn render_help(&self) -> (r: Result<String, QError>)
        ensures
            r is Ok <==> all_help_present(self@),
            (r matches Ok(s) ==> s@ == rendered_help(self@)),
            (r matches Err(e) ==> e == QError::MissingField),
    {
        let mut out = String::new();
        let n = self.records.len();
        let mut i: usize = 0;
        while i < n
            invariant
                n == self@.len(),
                0 <= i <= n,
                forall|j: int| 0 <= j < i ==> self@[j].help is Some,
                out@ == rendered_help(self@.take(i as int)),
            decreases n - i,
        {
            let rec = &self.records[i];
            let help = match &rec.help {
                None => { return Err(QError::MissingField) },
                Some(h) => h,
            };
            if i > 0 {
                out.append("\n");
            }
            out.append(rec.name.as_str());
            out.append(" \"");
            out.append(help.as_str());
            out.append("\"");
            proof {
                reveal_strlit("\n");
                reveal_strlit(" \"");
                reveal_strlit("\"");
                assert("\n"@ =~= seq!['\n']);
                assert(" \""@ =~= seq![' ', '"']);
                assert("\""@ =~= seq!['"']);
                assert(self@.take(i as int + 1).drop_last() =~= self@.take(i as int));
                assert(self@.take(i as int + 1).last() == self@[i as int]);
                assert(out@ =~= rendered_help(self@.take(i as int + 1)));
            }
            i += 1;
        }
        proof {
            assert(self@.take(n as int) =~= self@);
        }
        Ok(out)
    }
}

/// The number of `'\n'` characters in a text.
pub open spec fn newline_count(s: Seq<char>) -> int
    decreases s.len(),
{
    if s.len() == 0 {
        0
    } else {
        newline_count(s.drop_last()) + if s.last() == '\n' {
            1int
        } else {
            0int
        }
    }
}

/// The number of lines of a text without a trailing newline: zero when the
/// text is empty, otherwise one more than its newline count.
pub open spec fn line_count(s: Seq<char>) -> int {
    if s.len() == 0 {
        0
    } else {
        newline_count(s) + 1
    }
}

/// Whether a text contains no newline.
pub open spec fn newline_free(s: Seq<char>) -> bool {
    forall|i: int| 0 <= i < s.len() ==> s[i] != '\n'
}

proof fn lemma_newline_count_concat(a: Seq<char>, b: Seq<char>)
    ensures
        newline_count(a + b) == newline_count(a) + newline_count(b),
    decreases b.len(),
{
    if b.len() == 0 {
        assert(a + b =~= a);
    } else {
        assert((a + b).drop_last() =~= a + b.drop_last());
        lemma_newline_count_concat(a, b.drop_last());
    }
}

proof fn lemma_newline_free_count(s: Seq<char>)
    requires
        newline_free(s),
    ensures
        newline_count(s) == 0,
    decreases s.len(),
{
    if s.len() > 0 {
        lemma_newline_free_count(s.drop_last());
    }
}

/// For every configuration whose records all supply a help text and whose
/// names and help texts contain no newline, the rendered help has exactly one
/// line per record, in sequence order.
pub proof fn lemma_rendered_help_line_count(records: Seq<AliasRecordView>)
    requires
        all_help_present(records),
        forall|i: int|
            0 <= i < records.len() ==> newline_free(records[i].name) && newline_free(
                records[i].help->0,
            ),
    ensures
        line_count(rendered_help(records)) == records.len(),
        records.len() > 0 ==> rendered_help(records).len() > 0,
    decreases records.len(),
{
    if records.len() == 0 {
    } else {
        let last = records.last();
        let line = help_line(last);
        lemma_newline_free_count(last.name);
        lemma_newline_free_count(last.help->0);
        lemma_newline_count_concat(last.name, seq![' ', '"']);
        lemma_newline_count_concat(last.name + seq![' ', '"'], last.help->0);
        lemma_newline_count_concat(last.name + seq![' ', '"'] + last.help->0, seq!['"']);
        lemma_newline_free_count(seq![' ', '"']);
        lemma_newline_free_count(seq!['"']);
        assert(newline_count(line) == 0);
        if records.len() == 1 {
        } else {
            let prefix = records.drop_last();
            lemma_rendered_help_line_count(prefix);
            lemma_newline_count_concat(rendered_help(prefix), seq!['\n']);
            lemma_newline_count_concat(rendered_help(prefix) + seq!['\n'], line);
            assert(seq!['\n'].drop_last() =~= Seq::<char>::empty());
            assert(newline_count(Seq::<char>::empty()) == 0);
            assert(seq!['\n'].last() == '\n');
            assert(newline_count(seq!['\n']) == 1);
        }
    }
}

} // verus!
