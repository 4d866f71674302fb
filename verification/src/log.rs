//! Log records: a severity level and a message.

use vstd::prelude::*;

verus! {

/// The severity level of an informational record. Every record that the
/// handlers write has this level.
pub const INFO: i32 = 3;

/// One line for the host's log. It is handed to the host at once and never
/// kept.
#[derive(Debug, PartialEq, Eq)]
pub struct LogRecord {
    pub level: i32,
    pub message: String,
}

/// What a [`LogRecord`] says: its level and the characters of its message.
pub ghost struct LogEntry {
    pub level: int,
    pub message: Seq<char>,
}

impl View for LogRecord {
    type V = LogEntry;

    open spec fn view(&self) -> LogEntry {
        LogEntry { level: self.level as int, message: self.message@ }
    }
}

impl DeepView for LogRecord {
    type V = LogEntry;

    open spec fn deep_view(&self) -> LogEntry {
        self@
    }
}

/// The informational entry with the given message.
pub open spec fn info(message: Seq<char>) -> LogEntry {
    LogEntry { level: INFO as int, message }
}

/// The record that logs `message` at the informational level.
pub fn log_info(message: &str) -> (record: LogRecord)
    ensures
        record@ == info(message@),
{
    LogRecord { level: INFO, message: message.to_owned() }
}

/// The list without a record.
pub fn no_logs() -> (logs: Vec<LogRecord>)
    ensures
        logs.deep_view() == Seq::<LogEntry>::empty(),
{
    let logs: Vec<LogRecord> = Vec::new();
    assert(logs.deep_view() =~= Seq::<LogEntry>::empty());
    logs
}

/// The list of the one record `record`.
pub fn one_log(record: LogRecord) -> (logs: Vec<LogRecord>)
    ensures
        logs.deep_view() == seq![record@],
{
    let mut logs = no_logs();
    push_log(&mut logs, record);
    assert(logs.deep_view() =~= seq![record@]);
    logs
}

/// Appends `record` to `logs`.
pub fn push_log(logs: &mut Vec<LogRecord>, record: LogRecord)
    ensures
        final(logs).deep_view() == old(logs).deep_view().push(record@),
{
    let ghost before = logs.deep_view();
    logs.push(record);
    proof {
        let after = logs.deep_view();
        assert(after.len() == before.len() + 1);
        assert forall|i: int| 0 <= i < after.len() implies after[i] == before.push(record@)[i] by {
            if i < before.len() {
                assert(before[i] == old(logs)@[i]@);
            }
        }
        assert(after =~= before.push(record@));
    }
}

} // verus!
