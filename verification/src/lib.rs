//! Core of a keyboard-driven browser remote: session state, an element
//! catalog with a selection state machine, and a JSON-RPC style command
//! dispatcher. Real browser work (connecting, navigating, clicking) is done
//! by an external driver; this crate decides what to do, checks every
//! precondition, and commits state changes only on reported success.

pub mod browser;
pub mod dispatch;
pub mod errors;
pub mod selection;
pub mod types;
