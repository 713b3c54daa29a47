//! Core of a terminal dashboard that looks up a named creature record,
//! fetches its detail from a remote service, and renders it into a fixed
//! multi-panel text layout with a paginated move list.
//!
//! This crate holds the verified logic: name resolution over a catalog,
//! the pagination engine, the two-mode session state machine, and the
//! renderer expressed as positioned text writes. Terminal and network
//! I/O live outside the library and exchange plain values with it.

pub mod input;
pub mod mode;
pub mod pagination;
pub mod record;
pub mod render;
pub mod resolver;
pub mod text;
