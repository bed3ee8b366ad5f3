//! Verified core of a UI automation harness.
//!
//! The harness sits beside an interactive application and lets an external
//! controller record, persist, replay and verify user-interaction sequences.
//! Elements are addressed by stable string selectors; captured input is
//! filtered so that replayed (synthetic) events are never re-recorded; layout
//! is diffed against a cache so only changes are published; a replay
//! scheduler re-delivers a stored sequence in order, tagged synthetic.
//!
//! This crate holds the decision logic with its contracts. The transport
//! (HTTP to the control-plane store) and the host UI runtime live outside it
//! and exchange plain values with these modules.

pub mod debug_container;
pub mod element;
pub mod key_mouse;
pub mod recorder;
pub mod registry;
pub mod replay;
pub mod strmap;
