//! Emission engine of a SQL-to-client code generator: representation
//! resolution, the composite wire codec, the query builder model and the
//! text emitters.

pub mod config;
pub mod emit;
pub mod ir;
pub mod lists;
pub mod query;
pub mod text;
pub mod ty;
pub mod wire;
