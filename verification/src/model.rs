//! The lifecycle as mathematics: what each step of a request decides, and
//! what a request does to a store and to the client's cookie.
//!
//! Identifiers and entry keys and values are sequences of characters, a
//! session's entries are a map, and a store is a map from identifiers to
//! entries.

use crate::session::{SessionStatus, SessionView};
use std::time::Duration;
use vstd::prelude::*;

verus! {

/// Where a request stands: what the middleware is waiting for.
pub enum PhaseView {
    /// For the store to answer a load of `id`.
    Loading { id: Seq<char> },
    /// For the inner handler to return. `prior` is the identifier that the
    /// request presented.
    Handling { prior: Option<Seq<char>> },
    /// For the store to answer the removal of the prior record. `rotate`
    /// holds the entries that then go under a new identifier; without them
    /// the cookie is removed instead.
    Removing { rotate: Option<Map<Seq<char>, Seq<char>>> },
    /// For the store to answer the last write.
    Updating,
    /// For nothing: the request was answered or has failed.
    Closed,
}

/// What the caller reports back.
pub enum EventView {
    /// The store answered a load.
    Loaded { result: Result<Map<Seq<char>, Seq<char>>, Seq<char>> },
    /// The inner handler returned and left the session like this.
    Handled { session: SessionView },
    /// The store answered a removal or a write.
    Stored { outcome: Result<(), Seq<char>> },
}

/// What is staged on the cookie jar.
pub enum CookieChangeView {
    /// Nothing.
    Keep,
    /// A cookie that carries `id`.
    Assign { id: Seq<char> },
    /// The cookie's removal.
    Remove,
}

/// What the caller does next.
pub enum ActionView {
    /// Ask the store for the entries under `id`.
    Load { id: Seq<char> },
    /// Hand `session` to the inner handler.
    Handle { session: SessionView },
    /// Ask the store to delete the record under `id`.
    Remove { id: Seq<char> },
    /// Ask the store to write `entries` under `id`, to expire after `ttl`.
    Update { id: Seq<char>, entries: Map<Seq<char>, Seq<char>>, ttl: Duration },
    /// Return what the inner handler returned.
    Respond,
    /// Fail the request with a storage error.
    Fail { error: Seq<char> },
}

/// One decision: the cookie change to stage, then the action to take.
pub struct DirectiveView {
    pub cookie: CookieChangeView,
    pub action: ActionView,
}

/// Whether `phase` waits for an event of the kind of `event`.
pub open spec fn expects(phase: PhaseView, event: EventView) -> bool {
    match (phase, event) {
        (PhaseView::Loading { .. }, EventView::Loaded { .. }) => true,
        (PhaseView::Handling { .. }, EventView::Handled { .. }) => true,
        (PhaseView::Removing { .. }, EventView::Stored { .. }) => true,
        (PhaseView::Updating, EventView::Stored { .. }) => true,
        _ => false,
    }
}

/// Whether the step from `phase` on `event` puts the session under a new
/// identifier.
pub open spec fn issues(phase: PhaseView, event: EventView) -> bool {
    match (phase, event) {
        (PhaseView::Handling { prior }, EventView::Handled { session }) => {
            &&& prior is None
            &&& session.status == SessionStatus::Changed || session.status
                == SessionStatus::Renewed
        },
        (PhaseView::Removing { rotate }, EventView::Stored { outcome }) => {
            &&& rotate is Some
            &&& outcome is Ok
        },
        _ => false,
    }
}

/// The identifier that a directive puts into the cookie, if it sets one.
pub open spec fn issued(directive: DirectiveView) -> Option<Seq<char>> {
    match directive.cookie {
        CookieChangeView::Assign { id } => Some(id),
        _ => None,
    }
}

/// The request ends with the handler's output.
pub open spec fn finish(cookie: CookieChangeView) -> (PhaseView, DirectiveView) {
    (PhaseView::Closed, DirectiveView { cookie, action: ActionView::Respond })
}

/// The request ends with a storage error.
pub open spec fn abort(error: Seq<char>) -> (PhaseView, DirectiveView) {
    (
        PhaseView::Closed,
        DirectiveView { cookie: CookieChangeView::Keep, action: ActionView::Fail { error } },
    )
}

/// The entries stay under the identifier that the request presented.
pub open spec fn refresh(ttl: Duration, id: Seq<char>, entries: Map<Seq<char>, Seq<char>>) -> (
    PhaseView,
    DirectiveView,
) {
    (
        PhaseView::Updating,
        DirectiveView {
            cookie: CookieChangeView::Keep,
            action: ActionView::Update { id, entries, ttl },
        },
    )
}

/// The prior record goes first; `rotate` says what follows.
pub open spec fn retire(id: Seq<char>, rotate: Option<Map<Seq<char>, Seq<char>>>) -> (
    PhaseView,
    DirectiveView,
) {
    (
        PhaseView::Removing { rotate },
        DirectiveView { cookie: CookieChangeView::Keep, action: ActionView::Remove { id } },
    )
}

/// The entries go under the new identifier `fresh`: the cookie is set to it,
/// then the store is written. Without an identifier there is no such step.
pub open spec fn issue(
    ttl: Duration,
    entries: Map<Seq<char>, Seq<char>>,
    fresh: Option<Seq<char>>,
) -> Option<(PhaseView, DirectiveView)> {
    match fresh {
        Some(id) => Some(
            (
                PhaseView::Updating,
                DirectiveView {
                    cookie: CookieChangeView::Assign { id },
                    action: ActionView::Update { id, entries, ttl },
                },
            ),
        ),
        None => None,
    }
}

/// The first step after the handler has returned, by the session's status
/// and by whether the request presented an identifier.
pub open spec fn reconcile(
    ttl: Duration,
    prior: Option<Seq<char>>,
    session: SessionView,
    fresh: Option<Seq<char>>,
) -> Option<(PhaseView, DirectiveView)> {
    match session.status {
        SessionStatus::Unchanged => Some(finish(CookieChangeView::Keep)),
        SessionStatus::Changed => match prior {
            Some(id) => Some(refresh(ttl, id, session.entries)),
            None => issue(ttl, session.entries, fresh),
        },
        SessionStatus::Renewed => match prior {
            Some(id) => Some(retire(id, Some(session.entries))),
            None => issue(ttl, session.entries, fresh),
        },
        SessionStatus::Purged => match prior {
            Some(id) => Some(retire(id, None)),
            None => Some(finish(CookieChangeView::Keep)),
        },
    }
}

/// The first decision of a request, by the identifier in its cookie.
pub open spec fn begin(cookie: Option<Seq<char>>) -> (PhaseView, DirectiveView) {
    match cookie {
        Some(id) => (
            PhaseView::Loading { id },
            DirectiveView { cookie: CookieChangeView::Keep, action: ActionView::Load { id } },
        ),
        None => (
            PhaseView::Handling { prior: None },
            DirectiveView {
                cookie: CookieChangeView::Keep,
                action: ActionView::Handle { session: SessionView::anonymous() },
            },
        ),
    }
}

/// The decision on `event` in `phase`, and the phase that follows. `fresh`
/// is the identifier to use if the step issues one. There is no step where
/// the phase does not expect the event, nor where an identifier is needed
/// and none is given.
pub open spec fn step(
    ttl: Duration,
    phase: PhaseView,
    event: EventView,
    fresh: Option<Seq<char>>,
) -> Option<(PhaseView, DirectiveView)> {
    match (phase, event) {
        (PhaseView::Loading { id }, EventView::Loaded { result }) => match result {
            Ok(entries) => Some(
                (
                    PhaseView::Handling { prior: Some(id) },
                    DirectiveView {
                        cookie: CookieChangeView::Keep,
                        action: ActionView::Handle { session: SessionView::fresh(entries) },
                    },
                ),
            ),
            Err(error) => Some(abort(error)),
        },
        (PhaseView::Handling { prior }, EventView::Handled { session }) => reconcile(
            ttl,
            prior,
            session,
            fresh,
        ),
        (PhaseView::Removing { rotate }, EventView::Stored { outcome }) => match outcome {
            Ok(_) => match rotate {
                Some(entries) => issue(ttl, entries, fresh),
                None => Some(finish(CookieChangeView::Remove)),
            },
            Err(error) => Some(abort(error)),
        },
        (PhaseView::Updating, EventView::Stored { outcome }) => match outcome {
            Ok(_) => Some(finish(CookieChangeView::Keep)),
            Err(error) => Some(abort(error)),
        },
        _ => None,
    }
}

/// What lies outside a request: the records of the store, and the
/// identifier in the cookie that the client holds.
pub struct World {
    pub store: Map<Seq<char>, Map<Seq<char>, Seq<char>>>,
    pub cookie: Option<Seq<char>>,
}

/// What a store answers to a load of `id`: the record under it, and no
/// entries where there is none.
pub open spec fn lookup(
    store: Map<Seq<char>, Map<Seq<char>, Seq<char>>>,
    id: Seq<char>,
) -> Map<Seq<char>, Seq<char>> {
    if store.contains_key(id) {
        store[id]
    } else {
        Map::empty()
    }
}

/// The session that the handler of a request gets in `world`.
pub open spec fn admitted(world: World) -> SessionView {
    match world.cookie {
        Some(id) => SessionView::fresh(lookup(world.store, id)),
        None => SessionView::anonymous(),
    }
}

/// The world after `directive` was carried out, and the event to report.
/// The store does not fail here, the cookie stage does what it is told, and
/// the inner handler leaves the session as `handler` says. After `Respond`
/// and `Fail` there is nothing to report.
pub open spec fn carry_out(
    world: World,
    directive: DirectiveView,
    handler: spec_fn(SessionView) -> SessionView,
) -> (World, Option<EventView>) {
    let cookie = match directive.cookie {
        CookieChangeView::Keep => world.cookie,
        CookieChangeView::Assign { id } => Some(id),
        CookieChangeView::Remove => None,
    };
    match directive.action {
        ActionView::Load { id } => (
            World { store: world.store, cookie },
            Some(EventView::Loaded { result: Ok(lookup(world.store, id)) }),
        ),
        ActionView::Handle { session } => (
            World { store: world.store, cookie },
            Some(EventView::Handled { session: handler(session) }),
        ),
        ActionView::Remove { id } => (
            World { store: world.store.remove(id), cookie },
            Some(EventView::Stored { outcome: Ok(()) }),
        ),
        ActionView::Update { id, entries, ttl } => (
            World { store: world.store.insert(id, entries), cookie },
            Some(EventView::Stored { outcome: Ok(()) }),
        ),
        ActionView::Respond => (World { store: world.store, cookie }, None),
        ActionView::Fail { error } => (World { store: world.store, cookie }, None),
    }
}

/// How far a phase is from the end of its request.
pub open spec fn rank(phase: PhaseView) -> nat {
    match phase {
        PhaseView::Loading { .. } => 4,
        PhaseView::Handling { .. } => 3,
        PhaseView::Removing { .. } => 2,
        PhaseView::Updating => 1,
        PhaseView::Closed => 0,
    }
}

/// The world at the end of a request that stands in `phase` and has
/// `directive` to carry out.
pub open spec fn run(
    ttl: Duration,
    phase: PhaseView,
    directive: DirectiveView,
    world: World,
    handler: spec_fn(SessionView) -> SessionView,
    fresh: Option<Seq<char>>,
) -> World
    decreases rank(phase),
{
    let (world, event) = carry_out(world, directive, handler);
    match event {
        Some(event) => match step(ttl, phase, event, fresh) {
            Some((next, directive)) => run(ttl, next, directive, world, handler, fresh),
            None => world,
        },
        None => world,
    }
}

/// The world after one whole request: the client presents its cookie, the
/// store does not fail, the handler leaves the session as `handler` says,
/// and `fresh` is the identifier that is generated if one is needed.
pub open spec fn serve(
    ttl: Duration,
    world: World,
    handler: spec_fn(SessionView) -> SessionView,
    fresh: Option<Seq<char>>,
) -> World {
    let (phase, directive) = begin(world.cookie);
    run(ttl, phase, directive, world, handler, fresh)
}

} // verus!
