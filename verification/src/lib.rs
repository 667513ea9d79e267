//! Core of a graph-database client: a model of the protocol's result
//! values, a total projection of those values into JSON, and a builder
//! that derives transport options from a connection configuration.
use vstd::prelude::*;

pub mod config;
pub mod json;
pub mod projection;
pub mod query;
pub mod session;
pub mod strfmt;
pub mod value;

verus! {

} // verus!
