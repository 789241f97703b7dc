//! The steps of one request, as values that a caller can hold and perform.
//!
//! A request is a short conversation. The library opens it with a
//! [`Directive`]; the caller does what it says and reports the outcome as an
//! [`Event`]; the library answers with the next directive, until one says
//! `Respond` or `Fail`. Between two directives the caller keeps the
//! [`Phase`].

use crate::entries::Entries;
use crate::model;
use crate::model::{ActionView, CookieChangeView, DirectiveView, EventView, PhaseView};
use crate::session::{Session, SessionStatus};
use std::time::Duration;
use vstd::prelude::*;

verus! {

/// A failure of the store: it could not be reached, a read or a write
/// failed, or a record could not be encoded or decoded. The message is the
/// store's own.
#[derive(Debug)]
pub struct StorageError {
    message: String,
}

impl View for StorageError {
    type V = Seq<char>;

    closed spec fn view(&self) -> Seq<char> {
        self.message@
    }
}

impl StorageError {
    /// A storage error with the store's message.
    pub fn new(message: String) -> (error: Self)
        ensures
            error@ == message@,
    {
        StorageError { message }
    }

    /// The store's message.
    pub fn message(&self) -> (message: &String)
        ensures
            message@ == self@,
    {
        &self.message
    }
}

/// Where a request stands: what the middleware is waiting for.
#[derive(Debug)]
pub enum Phase {
    /// For the store to answer a load of `id`.
    Loading { id: String },
    /// For the inner handler to return. `prior` is the identifier that the
    /// request presented.
    Handling { prior: Option<String> },
    /// For the store to answer the removal of the prior record. `rotate`
    /// holds the entries that then go under a new identifier; without them
    /// the cookie is removed instead.
    Removing { rotate: Option<Entries> },
    /// For the store to answer the last write.
    Updating,
    /// For nothing: the request was answered or has failed.
    Closed,
}

/// What the caller reports back.
#[derive(Debug)]
pub enum Event {
    /// The store answered a load. An identifier that the store does not
    /// know gives no entries; that is no error.
    Loaded { result: Result<Entries, StorageError> },
    /// The inner handler returned, well or not, and left the session like
    /// this.
    Handled { session: Session },
    /// The store answered a removal or a write.
    Stored { outcome: Result<(), StorageError> },
}

/// What is staged on the cookie jar.
#[derive(Debug)]
pub enum CookieChange {
    /// Nothing.
    Keep,
    /// A cookie that carries `id`.
    Assign { id: String },
    /// The cookie's removal.
    Remove,
}

/// What the caller does next.
#[derive(Debug)]
pub enum Action {
    /// Ask the store for the entries under `id`, and report `Loaded`.
    Load { id: String },
    /// Hand `session` to the inner handler, and report `Handled` with the
    /// session as the handler left it.
    Handle { session: Session },
    /// Ask the store to delete the record under `id`, and report `Stored`.
    Remove { id: String },
    /// Ask the store to write `entries` under `id`, to expire after `ttl`,
    /// and report `Stored`.
    Update { id: String, entries: Entries, ttl: Duration },
    /// Return what the inner handler returned.
    Respond,
    /// Fail the request with this error.
    Fail { error: StorageError },
}

/// One decision: the cookie change to stage first, then the action to take.
#[derive(Debug)]
pub struct Directive {
    pub cookie: CookieChange,
    pub action: Action,
}

impl View for Phase {
    type V = PhaseView;

    open spec fn view(&self) -> PhaseView {
        match *self {
            Phase::Loading { id } => PhaseView::Loading { id: id@ },
            Phase::Handling { prior } => PhaseView::Handling { prior: prior.deep_view() },
            Phase::Removing { rotate } => PhaseView::Removing {
                rotate: match rotate {
                    Some(entries) => Some(entries@),
                    None => None,
                },
            },
            Phase::Updating => PhaseView::Updating,
            Phase::Closed => PhaseView::Closed,
        }
    }
}

impl View for Event {
    type V = EventView;

    open spec fn view(&self) -> EventView {
        match *self {
            Event::Loaded { result } => EventView::Loaded {
                result: match result {
                    Ok(entries) => Ok(entries@),
                    Err(error) => Err(error@),
                },
            },
            Event::Handled { session } => EventView::Handled { session: session@ },
            Event::Stored { outcome } => EventView::Stored {
                outcome: match outcome {
                    Ok(_) => Ok(()),
                    Err(error) => Err(error@),
                },
            },
        }
    }
}

impl View for CookieChange {
    type V = CookieChangeView;

    open spec fn view(&self) -> CookieChangeView {
        match *self {
            CookieChange::Keep => CookieChangeView::Keep,
            CookieChange::Assign { id } => CookieChangeView::Assign { id: id@ },
            CookieChange::Remove => CookieChangeView::Remove,
        }
    }
}

impl View for Action {
    type V = ActionView;

    open spec fn view(&self) -> ActionView {
        match *self {
            Action::Load { id } => ActionView::Load { id: id@ },
            Action::Handle { session } => ActionView::Handle { session: session@ },
            Action::Remove { id } => ActionView::Remove { id: id@ },
            Action::Update { id, entries, ttl } => ActionView::Update {
                id: id@,
                entries: entries@,
                ttl,
            },
            Action::Respond => ActionView::Respond,
            Action::Fail { error } => ActionView::Fail { error: error@ },
        }
    }
}

impl View for Directive {
    type V = DirectiveView;

    open spec fn view(&self) -> DirectiveView {
        DirectiveView { cookie: self.cookie@, action: self.action@ }
    }
}

/// Whether `phase` waits for an event of the kind of `event`.
pub fn expects(phase: &Phase, event: &Event) -> (yes: bool)
    ensures
        yes == model::expects(phase@, event@),
{
    match (phase, event) {
        (Phase::Loading { .. }, Event::Loaded { .. }) => true,
        (Phase::Handling { .. }, Event::Handled { .. }) => true,
        (Phase::Removing { .. }, Event::Stored { .. }) => true,
        (Phase::Updating, Event::Stored { .. }) => true,
        _ => false,
    }
}

/// Whether the step from `phase` on `event` puts the session under a new
/// identifier.
pub fn issues(phase: &Phase, event: &Event) -> (yes: bool)
    ensures
        yes == model::issues(phase@, event@),
{
    match (phase, event) {
        (Phase::Handling { prior }, Event::Handled { session }) => {
            prior.is_none() && match session.status() {
                SessionStatus::Changed => true,
                SessionStatus::Renewed => true,
                _ => false,
            }
        },
        (Phase::Removing { rotate }, Event::Stored { outcome }) => rotate.is_some()
            && outcome.is_ok(),
        _ => false,
    }
}

fn finish(cookie: CookieChange) -> (out: (Phase, Directive))
    ensures
        (out.0@, out.1@) == model::finish(cookie@),
{
    (Phase::Closed, Directive { cookie, action: Action::Respond })
}

fn abort(error: StorageError) -> (out: (Phase, Directive))
    ensures
        (out.0@, out.1@) == model::abort(error@),
{
    (Phase::Closed, Directive { cookie: CookieChange::Keep, action: Action::Fail { error } })
}

fn issue(ttl: Duration, entries: Entries, fresh: Option<String>) -> (out: Option<
    (Phase, Directive),
>)
    ensures
        match out {
            Some((phase, directive)) => model::issue(ttl, entries@, fresh.deep_view()) == Some(
                (phase@, directive@),
            ),
            None => model::issue(ttl, entries@, fresh.deep_view()) is None,
        },
{
    match fresh {
        Some(id) => {
            let cookie = CookieChange::Assign { id: id.clone() };
            Some((Phase::Updating, Directive { cookie, action: Action::Update { id, entries, ttl } }))
        },
        None => None,
    }
}

/// The first decision of a request. `cookie` is the identifier that the
/// request's cookie carries; a cookie that is missing or cannot be read is
/// `None`.
///
/// With an identifier the store is asked for its entries. Without one the
/// handler gets an empty session at once.
pub fn begin(cookie: Option<String>) -> (out: (Phase, Directive))
    ensures
        (out.0@, out.1@) == model::begin(cookie.deep_view()),
{
    match cookie {
        Some(id) => {
            let phase = Phase::Loading { id: id.clone() };
            (phase, Directive { cookie: CookieChange::Keep, action: Action::Load { id } })
        },
        None => {
            let session = Session::default();
            (
                Phase::Handling { prior: None },
                Directive { cookie: CookieChange::Keep, action: Action::Handle { session } },
            )
        },
    }
}

/// The first step after the handler has returned.
///
/// | status | `prior` | what follows |
/// |---|---|---|
/// | `Unchanged` | any | respond |
/// | `Changed` | some | write the entries under `prior` |
/// | `Changed` | none | set the cookie to `fresh`, write the entries under it |
/// | `Renewed` | some | delete the record under `prior`; then as without one |
/// | `Renewed` | none | set the cookie to `fresh`, write the entries under it |
/// | `Purged` | some | delete the record under `prior`; then remove the cookie |
/// | `Purged` | none | respond |
///
/// `None` comes only where the table asks for `fresh` and there is none.
pub fn reconcile(ttl: Duration, prior: Option<String>, session: Session, fresh: Option<String>) -> (out:
    Option<(Phase, Directive)>)
    ensures
        match out {
            Some((phase, directive)) => model::reconcile(
                ttl,
                prior.deep_view(),
                session@,
                fresh.deep_view(),
            ) == Some((phase@, directive@)),
            None => model::reconcile(ttl, prior.deep_view(), session@, fresh.deep_view()) is None,
        },
        out is None <==> {
            &&& prior is None
            &&& fresh is None
            &&& session@.status == SessionStatus::Changed || session@.status
                == SessionStatus::Renewed
        },
{
    match session.status() {
        SessionStatus::Unchanged => Some(finish(CookieChange::Keep)),
        SessionStatus::Changed => match prior {
            Some(id) => {
                let entries = session.into_entries();
                Some(
                    (
                        Phase::Updating,
                        Directive {
                            cookie: CookieChange::Keep,
                            action: Action::Update { id, entries, ttl },
                        },
                    ),
                )
            },
            None => issue(ttl, session.into_entries(), fresh),
        },
        SessionStatus::Renewed => match prior {
            Some(id) => {
                let rotate = Some(session.into_entries());
                Some(
                    (
                        Phase::Removing { rotate },
                        Directive { cookie: CookieChange::Keep, action: Action::Remove { id } },
                    ),
                )
            },
            None => issue(ttl, session.into_entries(), fresh),
        },
        SessionStatus::Purged => match prior {
            Some(id) => Some(
                (
                    Phase::Removing { rotate: None },
                    Directive { cookie: CookieChange::Keep, action: Action::Remove { id } },
                ),
            ),
            None => Some(finish(CookieChange::Keep)),
        },
    }
}

/// The decision on `event` in `phase`, and the phase that follows. `fresh`
/// is the identifier to use if the step issues one; it is dropped
/// otherwise.
///
/// `None` comes where the phase does not expect the event, and where the
/// step issues an identifier and `fresh` is `None`.
pub fn transition(ttl: Duration, phase: Phase, event: Event, fresh: Option<String>) -> (out: Option<
    (Phase, Directive),
>)
    ensures
        match out {
            Some((next, directive)) => model::step(ttl, phase@, event@, fresh.deep_view()) == Some(
                (next@, directive@),
            ),
            None => model::step(ttl, phase@, event@, fresh.deep_view()) is None,
        },
        out is Some <==> {
            &&& model::expects(phase@, event@)
            &&& model::issues(phase@, event@) ==> fresh is Some
        },
{
    match (phase, event) {
        (Phase::Loading { id }, Event::Loaded { result }) => match result {
            Ok(entries) => {
                let session = Session::new(entries);
                Some(
                    (
                        Phase::Handling { prior: Some(id) },
                        Directive { cookie: CookieChange::Keep, action: Action::Handle { session } },
                    ),
                )
            },
            Err(error) => Some(abort(error)),
        },
        (Phase::Handling { prior }, Event::Handled { session }) => reconcile(
            ttl,
            prior,
            session,
            fresh,
        ),
        (Phase::Removing { rotate }, Event::Stored { outcome }) => match outcome {
            Ok(_) => match rotate {
                Some(entries) => issue(ttl, entries, fresh),
                None => Some(finish(CookieChange::Remove)),
            },
            Err(error) => Some(abort(error)),
        },
        (Phase::Updating, Event::Stored { outcome }) => match outcome {
            Ok(_) => Some(finish(CookieChange::Keep)),
            Err(error) => Some(abort(error)),
        },
        _ => None,
    }
}

} // verus!
