//! Navigation engine for a three-pane ("Miller columns") filesystem
//! browser: a parent listing, the current listing, and a preview of the
//! highlighted entry, kept consistent as the selection moves up, down,
//! into a subdirectory, or back to the parent.
//!
//! Directory enumeration, rendering and input are outside collaborators;
//! the state machine here is pure and takes the fetched listings as
//! arguments, so every transition is verified for every listing the
//! collaborators could hand back.

pub mod entry;
pub mod laws;
pub mod nav;
pub mod pane;
pub mod paths;
