//! Server-side session lifecycle for a request/response pipeline.
//!
//! A request carries the identifier of its session in a cookie. The entries
//! that belong to the identifier live in a store. Downstream handling reads
//! and writes them through a [`Session`], and once it has finished, the
//! session's status decides what is written back to the store and to the
//! cookie.
//!
//! The store, the cookie jar and the handler are not part of this crate. The
//! crate decides; its caller performs. [`ServerSessionEndpoint::begin`] and
//! [`ServerSessionEndpoint::step`] take what has happened so far and answer
//! with a [`Directive`]: the one thing to do next.

pub mod config;
pub mod entries;
pub mod identifier;
pub mod laws;
pub mod model;
pub mod protocol;
pub mod server_session;
pub mod session;

pub use config::CookieConfig;
pub use entries::Entries;
pub use identifier::{generate_session_id, SESSION_ID_LEN};
pub use protocol::{Action, CookieChange, Directive, Event, Phase, StorageError};
pub use server_session::{ServerSession, ServerSessionEndpoint};
pub use session::{Session, SessionStatus, SessionView};
