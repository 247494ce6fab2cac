//! A human-in-the-loop approval gate for automated workflows.
//!
//! The library holds the decision logic: reading workflow inputs, resolving
//! who may decide, composing the interactive message, and the listener's
//! state machine that turns interaction events into actions and a final
//! outcome. Network and process plumbing live outside the library.

pub mod authorization;
pub mod github_inputs;
pub mod inputs;
pub mod listener;
pub mod message;
pub mod run_info;
