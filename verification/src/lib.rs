//! Decision core of a retrieval-augmented completion handler.
//!
//! Each invocation opens a fixed vector-index table, retrieves the passages
//! most similar to the prompt, builds an augmented prompt from them, and
//! forwards it to a completion model.  The network calls themselves live
//! outside this crate; here stand the startup checks, the per-invocation
//! pipeline as a state machine over requested actions and observed events,
//! and the construction of the augmented prompt, each with its contract.

pub mod context;
pub mod log_level;
pub mod pipeline;
pub mod startup;
