//! A verified front end to a native image-compression codec.
//!
//! The crate models the whole encode pipeline: building an immutable
//! configuration, classifying the pixel layout of the source bytes, and
//! driving the codec's strict call-and-cleanup protocol as an explicit
//! state machine whose resource discipline is proved.

pub mod config;
pub mod encoder;
pub mod layout;
pub mod session;
