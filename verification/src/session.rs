//! The session that request handling reads and writes.

use crate::entries::Entries;
use vstd::prelude::*;

verus! {

/// What has happened to a session while a request was handled.
#[derive(Clone, Copy, Debug, PartialEq, Eq, Structural)]
pub enum SessionStatus {
    /// Nothing was written.
    Unchanged,
    /// An entry was written or dropped.
    Changed,
    /// The session is to continue under a new identifier.
    Renewed,
    /// The session is to be destroyed.
    Purged,
}

impl SessionStatus {
    /// The status after an entry was written or dropped: `Unchanged` becomes
    /// `Changed`, and a status that says more stays.
    pub open spec fn touched(self) -> SessionStatus {
        if self == SessionStatus::Unchanged {
            SessionStatus::Changed
        } else {
            self
        }
    }
}

/// A session as a value: its entries and its status.
pub struct SessionView {
    pub entries: Map<Seq<char>, Seq<char>>,
    pub status: SessionStatus,
}

impl SessionView {
    /// A session that holds `entries` and has not been written to.
    pub open spec fn fresh(entries: Map<Seq<char>, Seq<char>>) -> SessionView {
        SessionView { entries, status: SessionStatus::Unchanged }
    }

    /// The session of a request that presented no identifier.
    pub open spec fn anonymous() -> SessionView {
        SessionView::fresh(Map::empty())
    }

    /// The value under `key`, if there is one.
    pub open spec fn get(self, key: Seq<char>) -> Option<Seq<char>> {
        if self.entries.contains_key(key) {
            Some(self.entries[key])
        } else {
            None
        }
    }

    /// The session after `value` was stored under `key`.
    pub open spec fn set(self, key: Seq<char>, value: Seq<char>) -> SessionView {
        SessionView { entries: self.entries.insert(key, value), status: self.status.touched() }
    }

    /// The session after `key` was dropped.
    pub open spec fn remove(self, key: Seq<char>) -> SessionView {
        SessionView { entries: self.entries.remove(key), status: self.status.touched() }
    }

    /// The session after a new identifier was asked for.
    pub open spec fn renew(self) -> SessionView {
        SessionView { entries: self.entries, status: SessionStatus::Renewed }
    }

    /// The session after its destruction was asked for.
    pub open spec fn purge(self) -> SessionView {
        SessionView { entries: self.entries, status: SessionStatus::Purged }
    }
}

/// The entries of one session and the record of what a request did to them.
///
/// A session belongs to one request. The handler gets it by reference, and
/// what it leaves behind decides what is written back.
#[derive(Debug)]
pub struct Session {
    entries: Entries,
    status: SessionStatus,
}

impl View for Session {
    type V = SessionView;

    closed spec fn view(&self) -> SessionView {
        SessionView { entries: self.entries@, status: self.status }
    }
}

impl Default for Session {
    /// The session of a request that presented no identifier: no entries,
    /// status `Unchanged`.
    fn default() -> (session: Self)
        ensures
            session@ == SessionView::anonymous(),
    {
        Session { entries: Entries::new(), status: SessionStatus::Unchanged }
    }
}

impl Session {
    /// A session that holds the entries found in the store, status
    /// `Unchanged`.
    pub fn new(entries: Entries) -> (session: Self)
        ensures
            session@ == SessionView::fresh(entries@),
    {
        Session { entries, status: SessionStatus::Unchanged }
    }

    /// The value under `key`, if there is one. Reading leaves the status as
    /// it is.
    pub fn get(&self, key: &str) -> (value: Option<&String>)
        ensures
            match value {
                Some(v) => self@.get(key@) == Some(v@),
                None => self@.get(key@) is None,
            },
    {
        self.entries.get(key)
    }

    /// Stores `value` under `key`. A status of `Unchanged` becomes `Changed`.
    pub fn set(&mut self, key: &str, value: &str)
        ensures
            final(self)@ == old(self)@.set(key@, value@),
    {
        self.entries.insert(key.to_owned(), value.to_owned());
        self.status = advance(self.status);
    }

    /// Drops `key`. A status of `Unchanged` becomes `Changed`, whether or
    /// not the key was there.
    pub fn remove(&mut self, key: &str)
        ensures
            final(self)@ == old(self)@.remove(key@),
    {
        self.entries.remove(key);
        self.status = advance(self.status);
    }

    /// Asks for a new identifier: the status becomes `Renewed`, whatever it
    /// was. The entries stay.
    pub fn renew(&mut self)
        ensures
            final(self)@ == old(self)@.renew(),
    {
        self.status = SessionStatus::Renewed;
    }

    /// Asks for the session's destruction: the status becomes `Purged`,
    /// whatever it was.
    pub fn purge(&mut self)
        ensures
            final(self)@ == old(self)@.purge(),
    {
        self.status = SessionStatus::Purged;
    }

    /// The status that the session has reached.
    pub fn status(&self) -> (status: SessionStatus)
        ensures
            status == self@.status,
    {
        self.status
    }

    /// The entries as they stand.
    pub fn entries(&self) -> (entries: &Entries)
        ensures
            entries@ == self@.entries,
    {
        &self.entries
    }

    /// Gives up the session for its entries.
    pub fn into_entries(self) -> (entries: Entries)
        ensures
            entries@ == self@.entries,
    {
        self.entries
    }
}

fn advance(status: SessionStatus) -> (next: SessionStatus)
    ensures
        next == status.touched(),
{
    match status {
        SessionStatus::Unchanged => SessionStatus::Changed,
        other => other,
    }
}

} // verus!
