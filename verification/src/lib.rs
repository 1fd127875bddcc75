//! A cooperative, externally-triggerable cancellation primitive for
//! asynchronous tasks, together with a few small verified companions.
//!
//! The heart of the crate is a wrapper that turns an asynchronous computation
//! into one whose termination can be requested from the outside, while the
//! computation keeps fine-grained control over *when* it is willing to be
//! cancelled: it may defer cancellation inside critical sections, ask to be
//! notified through structured cancellation, or disable cancellation for the
//! rest of its life.
//!
//! In a running system the task, its cancellation handle and its scope guards
//! live on different workers and share state through atomics, mutexes and
//! one-shot channels. Here that protocol is verified as a single-threaded
//! operational model: every shared cell is a plain value, every cross-task
//! interaction (a poll, a cancel, a guard entering or leaving a scope) is an
//! explicit transition with a contract, and the user computation is a small
//! scripted program interpreted at each poll. The `laws` module proves the
//! protocol-level guarantees over those transitions.

pub mod args;
pub mod build_graph_stats;
pub mod context;
pub mod future;
pub mod http;
pub mod laws;
