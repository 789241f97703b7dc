//! The configuration that every request of one middleware shares.

use std::time::Duration;
use vstd::prelude::*;

verus! {

/// The cookie that carries the session identifier, and how long a session
/// lasts. It is fixed when the middleware is built.
///
/// The time-to-live is both the cookie's age limit and the expiry of the
/// record in the store. The cookie's other attributes belong to the stage
/// that writes cookies.
#[derive(Debug)]
pub struct CookieConfig {
    name: String,
    ttl: Duration,
}

impl CookieConfig {
    /// The cookie's name, as characters.
    pub closed spec fn spec_name(&self) -> Seq<char> {
        self.name@
    }

    /// The time-to-live.
    pub closed spec fn spec_ttl(&self) -> Duration {
        self.ttl
    }

    /// A configuration with the cookie's name and the time-to-live.
    pub fn new(name: String, ttl: Duration) -> (config: Self)
        ensures
            config.spec_name() == name@,
            config.spec_ttl() == ttl,
    {
        CookieConfig { name, ttl }
    }

    /// The cookie's name.
    pub fn name(&self) -> (name: &String)
        ensures
            name@ == self.spec_name(),
    {
        &self.name
    }

    /// The time-to-live.
    #[verifier::when_used_as_spec(spec_ttl)]
    pub fn ttl(&self) -> (ttl: Duration)
        ensures
            ttl == self.spec_ttl(),
    {
        self.ttl
    }
}

} // verus!
