//! Resolution-and-dispatch engine for packaged services.
//!
//! The engine turns a package reference into a trusted, unpacked package and
//! hands it to the runtime of the configured topology. It performs no I/O
//! itself: it says which request to make next and decides on each answer.

pub mod error;
pub mod export;
pub mod laws;
pub mod model;
pub mod package;
pub mod start;
pub mod topology;
pub mod version;
