//! The core of an OpenFX plugin library: the registry of the plugins that a
//! binary offers to a host, the dispatch gate that serializes the calls into one plugin,
//! the course of a call that the host makes, and the suites that the host hands
//! to its plugins.
//!
//! Locks, threads, raw pointers and the call into a plugin's own code belong to
//! the program around this library. It reports what happened and is told what
//! to do next.

pub mod gate;
pub mod host_call;
pub mod host_call_laws;
pub mod interface_laws;
pub mod registry;
pub mod suites;
pub mod traffic;
pub mod types;
