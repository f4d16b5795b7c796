//! Color management and color representation for Wayland compositors.
//!
//! Clients describe the colors of their surfaces with the protocols `color-management-v1` and
//! `color-representation-v1`. This library decides what a compositor answers: it takes a request
//! and the state that the request concerns, and gives the state that follows, the events to send
//! and the error to post. Protocol objects themselves, files and sockets are the caller's.

pub mod code_point;
pub mod hashing;
pub mod instances;
pub mod management;
pub mod post_error;
pub mod representation;
