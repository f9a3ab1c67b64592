use vstd::prelude::*;

verus! {

/// One record of the session log: who ran which command, and what came of it.
#[derive(Clone, Debug)]
pub struct LogEntry {
    pub user: String,
    pub command: String,
    pub details: String,
}

/// What a `LogEntry` says, as plain text.
pub struct LogEntryView {
    pub user: Seq<char>,
    pub command: Seq<char>,
    pub details: Seq<char>,
}

impl View for LogEntry {
    type V = LogEntryView;

    open spec fn view(&self) -> LogEntryView {
        LogEntryView { user: self.user@, command: self.command@, details: self.details@ }
    }
}

impl DeepView for LogEntry {
    type V = LogEntryView;

    open spec fn deep_view(&self) -> LogEntryView {
        self@
    }
}

/// The whole record of a session, as it is kept when the shell exits.
#[derive(Debug)]
pub struct Session {
    pub user: String,
    pub log: Vec<LogEntry>,
}

/// What a `Session` says, as plain text.
pub struct SessionView {
    pub user: Seq<char>,
    pub log: Seq<LogEntryView>,
}

impl View for Session {
    type V = SessionView;

    open spec fn view(&self) -> SessionView {
        SessionView { user: self.user@, log: self.log.deep_view() }
    }
}

impl LogEntry {
    /// A record of `command` run by `user`, with `details`.
    pub fn new(user: &str, command: &str, details: String) -> (entry: LogEntry)
        ensures
            entry@ == (LogEntryView { user: user@, command: command@, details: details@ }),
    {
        LogEntry { user: user.to_owned(), command: command.to_owned(), details }
    }

    /// A second record with the same text.
    pub fn duplicate(&self) -> (entry: LogEntry)
        ensures
            entry@ == self@,
    {
        LogEntry {
            user: self.user.clone(),
            command: self.command.clone(),
            details: self.details.clone(),
        }
    }
}

/// A copy of `entries`, record by record and in the same order.
pub fn duplicate_entries(entries: &Vec<LogEntry>) -> (copy: Vec<LogEntry>)
    ensures
        copy.deep_view() == entries.deep_view(),
{
    let mut copy: Vec<LogEntry> = Vec::new();
    let mut i: usize = 0;
    while i < entries.len()
        invariant
            i <= entries.len(),
            copy.len() == i,
            forall|j: int| 0 <= j < i ==> copy[j]@ == entries[j]@,
        decreases entries.len() - i,
    {
        copy.push(entries[i].duplicate());
        i += 1;
    }
    assert(copy.deep_view() =~= entries.deep_view());
    copy
}

} // verus!
