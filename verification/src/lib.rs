//! Session-recording engine for a terminal capture tool.
//!
//! The crate models the decision logic of a `script`-style recorder: a
//! terminal-mode lifecycle with guaranteed restoration, the event-driven
//! relay between a pty master and the controlling terminal, short-write
//! accounting, and the capture-file footer. All operating-system I/O is
//! performed by the surrounding binary, which feeds plain values to the
//! verified state machines here and carries out the actions they return.

pub mod error;
pub mod footer;
pub mod relay;
pub mod session;
pub mod term;
pub mod write_plan;
