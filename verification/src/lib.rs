//! A typed modelling layer for a handle-based numerical optimisation engine.
//!
//! The library holds the rules of the layer: which status codes are failures,
//! how expressions compose into a canonical sparse form, how builders turn
//! into the argument lists of engine calls, how dense indices are handed out,
//! and which queries each callback phase allows. Every engine call itself is
//! made by the caller, who hands the resulting status back.

pub mod attributes;
pub mod callback;
pub mod constr;
pub mod error;
pub mod model;
pub mod modeling;
pub mod prelude;
pub mod var;
