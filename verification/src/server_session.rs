//! The middleware for server-side sessions and the endpoint that it makes.

use crate::config::CookieConfig;
use crate::identifier::{generate_session_id, is_session_id};
use crate::model;
use crate::protocol;
use crate::protocol::{Directive, Event, Phase};
use std::sync::Arc;
use vstd::prelude::*;

verus! {

/// `Arc::clone`.
///
/// Trusted: the new pointer leads to the allocation of the old one, so both
/// hold one value.
#[verifier::external_body]
fn share<V>(pointer: &Arc<V>) -> (shared: Arc<V>)
    ensures
        shared == *pointer,
{
    Arc::clone(pointer)
}

/// A middleware for server-side sessions: the cookie configuration and the
/// store, to be shared by every endpoint that it wraps.
pub struct ServerSession<T> {
    config: Arc<CookieConfig>,
    storage: Arc<T>,
}

impl<T> ServerSession<T> {
    /// The cookie configuration.
    pub closed spec fn config(&self) -> CookieConfig {
        *self.config
    }

    /// The store.
    pub closed spec fn storage(&self) -> T {
        *self.storage
    }

    /// Create a `ServerSession` middleware.
    pub fn new(config: CookieConfig, storage: T) -> (middleware: Self)
        ensures
            middleware.config() == config,
            middleware.storage() == storage,
    {
        Self { config: Arc::new(config), storage: Arc::new(storage) }
    }

    /// Wraps the endpoint `ep`: the result runs `ep` as its inner handler,
    /// under this middleware's configuration and on its store.
    pub fn transform<E>(&self, ep: E) -> (endpoint: ServerSessionEndpoint<T, E>)
        ensures
            *endpoint.inner() == ep,
            *endpoint.config() == self.config(),
            *endpoint.storage() == self.storage(),
    {
        ServerSessionEndpoint {
            inner: ep,
            config: share(&self.config),
            storage: share(&self.storage),
        }
    }
}

/// Endpoint for `ServerSession` middleware.
pub struct ServerSessionEndpoint<T, E> {
    inner: E,
    config: Arc<CookieConfig>,
    storage: Arc<T>,
}

impl<T, E> ServerSessionEndpoint<T, E> {
    /// The inner handler.
    pub closed spec fn spec_inner(&self) -> &E {
        &self.inner
    }

    /// The cookie configuration.
    pub closed spec fn spec_config(&self) -> &CookieConfig {
        &*self.config
    }

    /// The store.
    pub closed spec fn spec_storage(&self) -> &T {
        &*self.storage
    }

    /// The inner handler.
    #[verifier::when_used_as_spec(spec_inner)]
    pub fn inner(&self) -> (inner: &E)
        ensures
            inner == self.spec_inner(),
    {
        &self.inner
    }

    /// The cookie configuration.
    #[verifier::when_used_as_spec(spec_config)]
    pub fn config(&self) -> (config: &CookieConfig)
        ensures
            config == self.spec_config(),
    {
        &*self.config
    }

    /// The store.
    #[verifier::when_used_as_spec(spec_storage)]
    pub fn storage(&self) -> (storage: &T)
        ensures
            storage == self.spec_storage(),
    {
        &*self.storage
    }

    /// The first decision of a request. `cookie` is the identifier that the
    /// request's cookie carries; a cookie that is missing or cannot be read
    /// is `None`.
    pub fn begin(&self, cookie: Option<String>) -> (out: (Phase, Directive))
        ensures
            (out.0@, out.1@) == model::begin(cookie.deep_view()),
    {
        protocol::begin(cookie)
    }

    /// The decision on `event` in `phase`, and the phase that follows.
    ///
    /// `None` comes exactly where the phase does not expect the event.
    /// Otherwise the step is the one that `model::step` gives for this
    /// configuration's time-to-live. Where the step puts the session under
    /// a new identifier, and only there, one is generated: it is the one in
    /// the directive's cookie change, and it has the shape of a session
    /// identifier.
    pub fn step(&self, phase: Phase, event: Event) -> (out: Option<(Phase, Directive)>)
        ensures
            out is Some <==> model::expects(phase@, event@),
            out matches Some((next, directive)) ==> {
                let id = model::issued(directive@);
                &&& model::step(self.config().ttl(), phase@, event@, id) == Some(
                    (next@, directive@),
                )
                &&& id is Some <==> model::issues(phase@, event@)
                &&& id matches Some(fresh) ==> is_session_id(fresh)
            },
    {
        let fresh = if protocol::issues(&phase, &event) {
            Some(generate_session_id())
        } else {
            None
        };
        protocol::transition(self.config.ttl(), phase, event, fresh)
    }
}

} // verus!
