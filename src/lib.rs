//! Native side of a callback bridge for a managed runtime.
//!
//! The library decides what the native entry points hand to their callers:
//! the message text and its C form, the methods invoked on the callback
//! object, and, for the networked entry point, a session that turns the
//! host's events (a method returned, a body chunk arrived, a fault) into the
//! next action. The host performs the actions: it invokes the methods, runs
//! the request, and reports back.
pub mod text;
pub mod calls;
pub mod endpoint;
pub mod session;

pub use calls::{greeting_calls, offline_calls, Invocation, Method};
pub use endpoint::{endpoint, parse_endpoint};
pub use session::{Action, Event, Fault, Phase, Session};
pub use text::{append_chunk, c_greeting, c_text, decode_body, greeting, InteriorNul};
