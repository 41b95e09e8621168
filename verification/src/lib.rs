//! An interactive shell on an agent.
//!
//! An agent that presents the *shell surface* ([`surface`]) can be driven as an interactive shell:
//! a line is read and shipped verbatim, the agent evaluates it, and the result is shown. Nothing
//! here is specific to any one agent: the surface is validated structurally.
//!
//! The library decides and computes; it does no input or output. A [`session::Session`] hands out
//! requests (invoke a method, read a line, ask the human) and is moved on by the events that answer
//! them. What is proved of every session stands in [`session_laws`].
pub mod eval_result;
pub mod invocation;
pub mod loader;
pub mod probes;
pub mod prompt;
pub mod question;
pub mod render;
pub mod schema;
pub mod session;
pub mod session_laws;
pub mod surface;
pub mod text;
pub mod typeahead;
