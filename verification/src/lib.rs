//! Registration core of a monitoring-agent controller.
//!
//! A registration attempt establishes a mutually authenticated channel
//! between a local agent and a remote receiver: it generates a fresh
//! identity, decides how the receiver's certificate is validated, exchanges
//! the identity for signed certificates, submits the registration, and, when
//! the agent registers itself, waits for the receiver's approval.
//!
//! The attempt is a state machine. It never touches the outside world
//! itself: it asks for an [`Action`](protocol::Action) (a network call, a
//! prompt, a pause, a write), and whoever runs it reports what came of that
//! as an [`Event`](protocol::Event). Every decision in between is taken
//! here, and [`laws`] states what holds of every run.

pub mod attempt;
pub mod coordinates;
pub mod endpoint;
pub mod error;
pub mod flow;
pub mod identity;
pub mod laws;
pub mod pairing;
pub mod polling;
pub mod protocol;
pub mod text;
pub mod trust;
pub mod types;
