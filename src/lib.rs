//! Userspace lifecycle and classifier contract of a TC ingress packet filter.
//!
//! `verdict` fixes the action codes of the TC classifier hook, `classifier`
//! holds the per-packet decision, and `lifecycle` the controller that adds
//! the hook infrastructure, loads and attaches the program, waits for the
//! termination signal and detaches it again.
pub mod classifier;
pub mod lifecycle;
pub mod verdict;
