//! `nude`: read-only Docker introspection for Nushell, as typed tables.
//!
//! The library turns what the Docker daemon reports (processes of a container, the layers of an
//! image, filesystem changes, networks) into typed cells: `ps` columns named and typed by their
//! titles, the spans that `ps` reports turned into durations and start instants, IDs shortened,
//! absent values made nothing.
use vstd::prelude::*;

pub mod cells;
pub mod columns;
pub mod commands;
pub mod diff;
pub mod digits;
pub mod elapsed;
pub mod fields;
pub mod history;
pub mod network;
pub mod numbers;
pub mod output;
pub mod text;
pub mod top;
pub mod value;
