//! A process supervisor for auxiliary network services.
//!
//! The supervisor decides how to start a service (walking a chain of launch
//! strategies), confirms it became ready by polling a health endpoint with a
//! bounded retry budget, keeps authoritative shared state about its liveness,
//! and stops it cleanly. All outside effects (spawning a child process,
//! issuing an HTTP probe, sleeping, delivering a notification) are performed
//! by the embedding program, which drives the supervisor one event at a time:
//! the supervisor returns the next action to perform and consumes the
//! outcome of each action as an event.

pub mod digits;
pub mod launch;
pub mod laws;
pub mod service;
pub mod supervisor;
