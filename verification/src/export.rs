//! Exporting an installed package as a tarball: what the command line says,
//! how the image is named, and which commands make the tarball.

pub mod cli;
pub mod matches;
pub mod naming;
pub mod plan;
pub mod tarball;
