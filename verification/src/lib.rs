//! Verified core of a multi-monitor display manager.
//!
//! The library holds the decision logic of the manager: assigning ordinals to
//! enumerated displays, building per-display property snapshots, cataloguing
//! and selecting resolution modes, planning topology changes (primary display,
//! position moves), and driving the monitor hardware control channel through a
//! state machine with a strict open/close discipline.
//!
//! The operating-system calls themselves (monitor enumeration, mode queries,
//! mode and topology changes, the control-channel handle) live outside this
//! library: a caller gathers the raw data, hands it in as plain values, and
//! performs the actions the library plans.

pub mod display;
pub mod errors;
pub mod modes;
pub mod topology;
pub mod vcp;
