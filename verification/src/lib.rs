//! A verified core for a compile-and-run service over untrusted source
//! snippets: resource limits and watchdog decisions for a sandboxed child
//! process, bounded output capture, the two-phase compile/run pipeline state
//! machine, a bounded first-come-first-served admission gate, trigger
//! classification for inbound chat messages, and the formatting of outcomes
//! into bounded reply payloads.
//!
//! Process spawning, timers and the chat transport are left to an unverified
//! shell around this crate; every decision that can be stated over plain
//! values is made here, under contract.

pub mod classify;
pub mod gate;
pub mod limits;
pub mod pipeline;
pub mod reply;
pub mod sandbox;
pub mod text;
