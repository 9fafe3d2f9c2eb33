//! Keeps DNS records at an HTTP DNS provider in line with a desired state.
//!
//! The library holds the decisions: which remote record a desired record
//! matches, whether it must be created, updated or left alone, how a
//! provider reply is judged, and when the next pass runs. Talking to the
//! network is left to the caller, which hands the replies back in.
pub mod matcher;
pub mod observer;
pub mod provider;
pub mod reconciler;
pub mod scheduler;
pub mod typings;
