//! A stackful-generator engine, verified.
//!
//! User functions suspend mid-execution (yielding a value and receiving a new
//! input) and later resume exactly where they left off. The execution transfer
//! itself — a raw register and stack-pointer swap — is a machine primitive that
//! no safe checker can see through, so this library carries the part that can
//! be stated and proved: the generator lifecycle and execution-switch protocol.
//! A generator body is a value that runs one stretch per wake-up (from one
//! suspension point to the next), and the engine owns everything around it:
//! the state machine, the input and output hand-off, panic classification and
//! propagation, cancellation, and stack accounting.

pub mod stack;
pub mod body;
pub mod engine;
pub mod bodies;
pub mod laws;
