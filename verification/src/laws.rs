//! What holds of every request, proved of the model in [`crate::model`].
//!
//! The executable steps are tied to that model by their contracts, so what
//! is shown here holds of every directive that the library hands out.

use crate::model::{
    abort, admitted, begin, expects, finish, issued, issues, lookup, rank, serve, step, ActionView,
    CookieChangeView, DirectiveView, EventView, PhaseView, World,
};
use crate::session::{SessionStatus, SessionView};
use std::time::Duration;
use vstd::prelude::*;

verus! {

/// A step is there exactly when the phase expects the event and, if the
/// step issues an identifier, one is at hand. So a caller that reports what
/// it was asked for, and has an identifier to give, is never left without
/// a directive.
pub proof fn law_step_is_defined_when_expected(
    ttl: Duration,
    phase: PhaseView,
    event: EventView,
    fresh: Option<Seq<char>>,
)
    ensures
        step(ttl, phase, event, fresh) is Some <==> expects(phase, event) && (issues(phase, event)
            ==> fresh is Some),
        step(ttl, phase, event, fresh) matches Some((_, directive)) ==> (issued(directive)
            is Some <==> issues(phase, event)),
        !issues(phase, event) ==> step(ttl, phase, event, fresh) == step(ttl, phase, event, None),
{
}

/// A request comes to its end: every step leads to a phase that is nearer
/// to `Closed`, and `Respond` and `Fail` are directed exactly by the steps
/// that close the request.
pub proof fn law_every_step_nears_the_end(
    ttl: Duration,
    phase: PhaseView,
    event: EventView,
    fresh: Option<Seq<char>>,
)
    ensures
        match step(ttl, phase, event, fresh) {
            Some((next, directive)) => {
                &&& rank(next) < rank(phase)
                &&& next is Closed <==> directive.action is Respond || directive.action is Fail
            },
            None => true,
        },
{
}

/// The handler gets the session that the store holds for the request's
/// cookie: the entries under the identifier, none where the store knows
/// none, and an empty session where the request carries no identifier. The
/// session's status is `Unchanged`.
pub proof fn law_handler_gets_stored_session(ttl: Duration, world: World, fresh: Option<Seq<char>>)
    ensures
        admitted(world).status == SessionStatus::Unchanged,
        match world.cookie {
            Some(id) => {
                &&& begin(world.cookie) == (
                    PhaseView::Loading { id },
                    DirectiveView {
                        cookie: CookieChangeView::Keep,
                        action: ActionView::Load { id },
                    },
                )
                &&& step(
                    ttl,
                    PhaseView::Loading { id },
                    EventView::Loaded { result: Ok(lookup(world.store, id)) },
                    fresh,
                ) == Some(
                    (
                        PhaseView::Handling { prior: Some(id) },
                        DirectiveView {
                            cookie: CookieChangeView::Keep,
                            action: ActionView::Handle { session: admitted(world) },
                        },
                    ),
                )
            },
            None => begin(world.cookie) == (
                PhaseView::Handling { prior: None },
                DirectiveView {
                    cookie: CookieChangeView::Keep,
                    action: ActionView::Handle { session: admitted(world) },
                },
            ),
        },
{
}

/// A request whose handler leaves the session `Unchanged` ends at once: the
/// step on the handler's return stages nothing on the cookie, asks nothing
/// of the store and issues no identifier. The store and the cookie are
/// after the request what they were before it.
pub proof fn law_untouched_session_changes_nothing(
    ttl: Duration,
    world: World,
    handler: spec_fn(SessionView) -> SessionView,
    fresh: Option<Seq<char>>,
)
    requires
        handler(admitted(world)).status == SessionStatus::Unchanged,
    ensures
        step(
            ttl,
            PhaseView::Handling { prior: world.cookie },
            EventView::Handled { session: handler(admitted(world)) },
            fresh,
        ) == Some(finish(CookieChangeView::Keep)),
        !issues(
            PhaseView::Handling { prior: world.cookie },
            EventView::Handled { session: handler(admitted(world)) },
        ),
        serve(ttl, world, handler, fresh) == world,
{
    reveal_with_fuel(crate::model::run, 4);
}

/// Writing never weakens the status: after `set` or `remove` a session is
/// `Changed` where it was `Unchanged`, and keeps `Changed`, `Renewed` and
/// `Purged`.
pub proof fn law_writes_never_weaken_status(session: SessionView, key: Seq<char>, value: Seq<char>)
    ensures
        session.set(key, value).status != SessionStatus::Unchanged,
        session.remove(key).status != SessionStatus::Unchanged,
        session.status != SessionStatus::Unchanged ==> session.set(key, value).status
            == session.status && session.remove(key).status == session.status,
{
}

/// Rotation retires the old identifier. The request presented `prior`, its
/// handler left the session `Renewed`, and the identifier `fresh` was
/// generated, which is not `prior`. Then the store has no record under
/// `prior`, the cookie carries `fresh`, the session's entries stand under
/// `fresh`, and a later request that presents `prior` again gets an empty
/// session.
pub proof fn law_rotation_retires_prior_id(
    ttl: Duration,
    world: World,
    handler: spec_fn(SessionView) -> SessionView,
    prior: Seq<char>,
    fresh: Seq<char>,
)
    requires
        world.cookie == Some(prior),
        handler(admitted(world)).status == SessionStatus::Renewed,
        fresh != prior,
    ensures
        ({
            let after = serve(ttl, world, handler, Some(fresh));
            &&& after.store == world.store.remove(prior).insert(
                fresh,
                handler(admitted(world)).entries,
            )
            &&& !after.store.contains_key(prior)
            &&& after.cookie == Some(fresh)
            &&& admitted(after).entries == handler(admitted(world)).entries
            &&& admitted(World { store: after.store, cookie: Some(prior) })
                == SessionView::anonymous()
        }),
{
    reveal_with_fuel(crate::model::run, 5);
}

/// In a rotation the old record goes before the new one is written: the
/// step on the handler's return asks for the removal alone, and only the
/// store's success brings the new cookie and the write. If the removal
/// fails the request fails, and nothing was set or written.
pub proof fn law_rotation_removes_before_it_writes(
    ttl: Duration,
    prior: Seq<char>,
    session: SessionView,
    fresh: Seq<char>,
    error: Seq<char>,
)
    requires
        session.status == SessionStatus::Renewed,
    ensures
        ({
            let waiting = PhaseView::Removing { rotate: Some(session.entries) };
            &&& step(
                ttl,
                PhaseView::Handling { prior: Some(prior) },
                EventView::Handled { session },
                Some(fresh),
            ) == Some(
                (
                    waiting,
                    DirectiveView {
                        cookie: CookieChangeView::Keep,
                        action: ActionView::Remove { id: prior },
                    },
                ),
            )
            &&& step(ttl, waiting, EventView::Stored { outcome: Ok(()) }, Some(fresh)) == Some(
                (
                    PhaseView::Updating,
                    DirectiveView {
                        cookie: CookieChangeView::Assign { id: fresh },
                        action: ActionView::Update { id: fresh, entries: session.entries, ttl },
                    },
                ),
            )
            &&& step(ttl, waiting, EventView::Stored { outcome: Err(error) }, Some(fresh)) == Some(
                abort(error),
            )
        }),
{
}

/// A purge clears both halves. The handler left the session `Purged`. Then
/// the client holds no cookie after the request, the store has no record
/// under the identifier that the request presented, and a later request
/// that presents it again gets an empty session.
pub proof fn law_purge_clears_store_and_cookie(
    ttl: Duration,
    world: World,
    handler: spec_fn(SessionView) -> SessionView,
    fresh: Option<Seq<char>>,
)
    requires
        handler(admitted(world)).status == SessionStatus::Purged,
    ensures
        ({
            let after = serve(ttl, world, handler, fresh);
            &&& after.cookie is None
            &&& world.cookie matches Some(prior) ==> {
                &&& !after.store.contains_key(prior)
                &&& after.store == world.store.remove(prior)
                &&& admitted(World { store: after.store, cookie: Some(prior) })
                    == SessionView::anonymous()
            }
            &&& world.cookie is None ==> after == world
        }),
{
    reveal_with_fuel(crate::model::run, 5);
}

/// A purge removes the cookie only after the store has deleted the record:
/// if the removal fails the request fails, and the cookie stays.
pub proof fn law_purge_keeps_cookie_on_failure(
    ttl: Duration,
    prior: Seq<char>,
    session: SessionView,
    fresh: Option<Seq<char>>,
    error: Seq<char>,
)
    requires
        session.status == SessionStatus::Purged,
    ensures
        ({
            let waiting = PhaseView::Removing { rotate: None };
            &&& step(
                ttl,
                PhaseView::Handling { prior: Some(prior) },
                EventView::Handled { session },
                fresh,
            ) == Some(
                (
                    waiting,
                    DirectiveView {
                        cookie: CookieChangeView::Keep,
                        action: ActionView::Remove { id: prior },
                    },
                ),
            )
            &&& step(ttl, waiting, EventView::Stored { outcome: Ok(()) }, fresh) == Some(
                finish(CookieChangeView::Remove),
            )
            &&& step(ttl, waiting, EventView::Stored { outcome: Err(error) }, fresh) == Some(
                abort(error),
            )
        }),
{
}

/// A load that fails ends the request with the store's error, and the
/// handler is never run: no step follows the failure, and a step hands a
/// session to the handler only when a load has succeeded.
pub proof fn law_load_failure_aborts(
    ttl: Duration,
    id: Seq<char>,
    error: Seq<char>,
    phase: PhaseView,
    event: EventView,
    fresh: Option<Seq<char>>,
)
    ensures
        step(ttl, PhaseView::Loading { id }, EventView::Loaded { result: Err(error) }, fresh)
            == Some(
            (
                PhaseView::Closed,
                DirectiveView {
                    cookie: CookieChangeView::Keep,
                    action: ActionView::Fail { error },
                },
            ),
        ),
        step(ttl, PhaseView::Closed, event, fresh) is None,
        match step(ttl, phase, event, fresh) {
            Some((_, directive)) => directive.action is Handle ==> {
                &&& phase is Loading
                &&& event matches EventView::Loaded { result: Ok(_) }
            },
            None => true,
        },
{
}

/// Every failure of the store fails the request with the store's error,
/// whatever the request was waiting for, and closes it.
pub proof fn law_storage_failure_is_never_swallowed(
    ttl: Duration,
    phase: PhaseView,
    error: Seq<char>,
    fresh: Option<Seq<char>>,
)
    ensures
        phase is Loading ==> step(ttl, phase, EventView::Loaded { result: Err(error) }, fresh)
            == Some(abort(error)),
        phase is Removing || phase is Updating ==> step(
            ttl,
            phase,
            EventView::Stored { outcome: Err(error) },
            fresh,
        ) == Some(abort(error)),
{
}

/// What a request writes, the next request reads. A request without a
/// cookie, whose handler stores `value` under `key`, is given the
/// identifier `id`. The client then holds `id`, and the handler of a
/// request that presents it finds `value` under `key`, in a session that is
/// `Unchanged`.
pub proof fn law_round_trip(
    ttl: Duration,
    world: World,
    key: Seq<char>,
    value: Seq<char>,
    id: Seq<char>,
)
    requires
        world.cookie is None,
    ensures
        ({
            let writer = |session: SessionView| session.set(key, value);
            let after = serve(ttl, world, writer, Some(id));
            &&& writer(admitted(world)).status == SessionStatus::Changed
            &&& after.cookie == Some(id)
            &&& after.store == world.store.insert(id, writer(admitted(world)).entries)
            &&& admitted(after).get(key) == Some(value)
            &&& admitted(after).status == SessionStatus::Unchanged
        }),
{
    reveal_with_fuel(crate::model::run, 5);
}

/// A session that was written to or renewed in a request without a cookie
/// goes under the new identifier: the cookie carries it, the entries stand
/// under it, and no other record is touched.
pub proof fn law_anonymous_write_issues_identifier(
    ttl: Duration,
    world: World,
    handler: spec_fn(SessionView) -> SessionView,
    fresh: Seq<char>,
)
    requires
        world.cookie is None,
        handler(admitted(world)).status == SessionStatus::Changed || handler(
            admitted(world),
        ).status == SessionStatus::Renewed,
    ensures
        ({
            let after = serve(ttl, world, handler, Some(fresh));
            &&& after.cookie == Some(fresh)
            &&& after.store == world.store.insert(fresh, handler(admitted(world)).entries)
            &&& issues(
                PhaseView::Handling { prior: None },
                EventView::Handled { session: handler(admitted(world)) },
            )
        }),
{
    reveal_with_fuel(crate::model::run, 5);
}

/// A changed session of a request that presented an identifier stays under
/// it: its entries are written there, and the cookie is left alone.
pub proof fn law_change_keeps_identifier(
    ttl: Duration,
    world: World,
    handler: spec_fn(SessionView) -> SessionView,
    prior: Seq<char>,
    fresh: Option<Seq<char>>,
)
    requires
        world.cookie == Some(prior),
        handler(admitted(world)).status == SessionStatus::Changed,
    ensures
        ({
            let after = serve(ttl, world, handler, fresh);
            &&& after.cookie == Some(prior)
            &&& after.store == world.store.insert(prior, handler(admitted(world)).entries)
            &&& !issues(
                PhaseView::Handling { prior: Some(prior) },
                EventView::Handled { session: handler(admitted(world)) },
            )
        }),
{
    reveal_with_fuel(crate::model::run, 5);
}

/// No cookie is left dangling. If the identifier in the client's cookie had
/// a record before a request, or the client had no cookie, the same holds
/// after it, whatever the handler did, provided that an identifier is at
/// hand where one is needed.
pub proof fn law_cookie_never_dangles(
    ttl: Duration,
    world: World,
    handler: spec_fn(SessionView) -> SessionView,
    fresh: Seq<char>,
)
    requires
        world.cookie matches Some(id) ==> world.store.contains_key(id),
    ensures
        ({
            let after = serve(ttl, world, handler, Some(fresh));
            after.cookie matches Some(id) ==> after.store.contains_key(id)
        }),
{
    reveal_with_fuel(crate::model::run, 5);
}

/// A directive that sets the cookie to an identifier writes the store
/// under that identifier in the same breath.
pub proof fn law_new_cookie_comes_with_its_record(
    ttl: Duration,
    phase: PhaseView,
    event: EventView,
    fresh: Option<Seq<char>>,
)
    ensures
        match step(ttl, phase, event, fresh) {
            Some((_, directive)) => match directive.cookie {
                CookieChangeView::Assign { id } => {
                    &&& fresh == Some(id)
                    &&& issues(phase, event)
                    &&& directive.action matches ActionView::Update { id: written, .. }
                    &&& written == id
                },
                _ => true,
            },
            None => true,
        },
{
}

} // verus!
