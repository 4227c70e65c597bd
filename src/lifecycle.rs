use vstd::prelude::*;
use crate::message::CrashEvent;

verus! {

/// How the log file is opened for one record.
#[derive(PartialEq, Eq, Structural, Clone, Copy, Debug)]
pub enum FileDisposition {
    /// Create the file afresh, dropping whatever an earlier run left in it.
    Truncate,
    /// Open the file for appending, creating it if it is missing.
    Append,
}

/// The disposition owed to a record, given whether this run has already created the file.
pub open spec fn disposition_for(already_created: bool) -> FileDisposition {
    if already_created {
        FileDisposition::Append
    } else {
        FileDisposition::Truncate
    }
}

/// The file's contents after `record` is written with `disposition`.
pub open spec fn write_record(disposition: FileDisposition, file: Seq<char>, record: Seq<char>) -> Seq<char> {
    match disposition {
        FileDisposition::Truncate => record,
        FileDisposition::Append => file + record,
    }
}

/// The file's contents after the faults of `events` are recorded one after another, in that
/// order, starting from the contents `file` and the created flag `created`.
pub open spec fn log_after(file: Seq<char>, created: bool, events: Seq<CrashEvent>) -> Seq<char>
    decreases events.len(),
{
    if events.len() == 0 {
        file
    } else {
        log_after(
            write_record(disposition_for(created), file, events[0].record()),
            true,
            events.drop_first(),
        )
    }
}

/// The records of `events`, one after another.
pub open spec fn records_of(events: Seq<CrashEvent>) -> Seq<char>
    decreases events.len(),
{
    if events.len() == 0 {
        Seq::empty()
    } else {
        events[0].record() + records_of(events.drop_first())
    }
}

/// The number of line breaks in `s`.
pub open spec fn line_count(s: Seq<char>) -> nat
    decreases s.len(),
{
    if s.len() == 0 {
        0
    } else {
        (if s[0] == '\n' { 1nat } else { 0nat }) + line_count(s.drop_first())
    }
}

impl FileDisposition {
    /// Picks the disposition from the created flag as it stood before this record set it:
    /// the first record of a run truncates, every later one appends.
    pub fn from_previous_flag(already_created: bool) -> (r: FileDisposition)
        ensures
            r == disposition_for(already_created),
    {
        if already_created {
            FileDisposition::Append
        } else {
            FileDisposition::Truncate
        }
    }
}

/// Once the file has been created in this run, recording more faults only appends their
/// records: nothing already in the file is lost.
pub proof fn lemma_created_log_only_grows(file: Seq<char>, events: Seq<CrashEvent>)
    ensures
        log_after(file, true, events) == file + records_of(events),
    decreases events.len(),
{
    if events.len() == 0 {
        assert(file + records_of(events) =~= file);
    } else {
        let rest = events.drop_first();
        lemma_created_log_only_grows(file + events[0].record(), rest);
        assert(file + events[0].record() + records_of(rest) =~= file + records_of(events));
    }
}

/// In a fresh run, whatever an earlier run left in the file, recording a non-empty series of
/// faults leaves exactly their complete records in the order they were written: only the
/// first one truncates.
pub proof fn lemma_fresh_run_keeps_every_record(earlier: Seq<char>, events: Seq<CrashEvent>)
    requires
        events.len() > 0,
    ensures
        log_after(earlier, false, events) == records_of(events),
{
    lemma_created_log_only_grows(events[0].record(), events.drop_first());
}

proof fn lemma_line_count_concat(a: Seq<char>, b: Seq<char>)
    ensures
        line_count(a + b) == line_count(a) + line_count(b),
    decreases a.len(),
{
    if a.len() == 0 {
        assert(a + b =~= b);
    } else {
        lemma_line_count_concat(a.drop_first(), b);
        assert((a + b).drop_first() =~= a.drop_first() + b);
    }
}

/// Where no message holds a line break, the records of `events` make exactly one line each.
pub proof fn lemma_one_line_per_record(events: Seq<CrashEvent>)
    requires
        forall|i: int| 0 <= i < events.len() ==> line_count(#[trigger] events[i].message()) == 0,
    ensures
        line_count(records_of(events)) == events.len(),
    decreases events.len(),
{
    if events.len() > 0 {
        let rest = events.drop_first();
        assert forall|i: int| 0 <= i < rest.len() implies line_count(#[trigger] rest[i].message()) == 0 by {
            assert(rest[i] == events[i + 1]);
        }
        lemma_one_line_per_record(rest);
        reveal_strlit("\n");
        lemma_line_count_concat(events[0].message(), "\n"@);
        lemma_line_count_concat(events[0].record(), records_of(rest));
        assert(line_count("\n"@) == 1) by {
            reveal_strlit("\n");
            assert("\n"@.drop_first() =~= Seq::<char>::empty());
            assert(line_count(Seq::<char>::empty()) == 0);
        }
    }
}

/// A fresh run in which `events` fault one after another leaves a file of one line per fault,
/// each a whole record, whatever the file held before.
pub proof fn lemma_fresh_run_line_per_fault(earlier: Seq<char>, events: Seq<CrashEvent>)
    requires
        events.len() > 0,
        forall|i: int| 0 <= i < events.len() ==> line_count(#[trigger] events[i].message()) == 0,
    ensures
        log_after(earlier, false, events) == records_of(events),
        line_count(log_after(earlier, false, events)) == events.len(),
{
    lemma_fresh_run_keeps_every_record(earlier, events);
    lemma_one_line_per_record(events);
}

} // verus!
