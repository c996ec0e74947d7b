//! Builders: configuration that becomes an engine call when committed.

pub mod var;
