//! Expression evaluation over columnar batches, and the projection processor that
//! threads a list of expressions through an upstream sequence of batches.

pub mod datablocks;
pub mod datavalues;
pub mod error;
pub mod flights;
pub mod functions;
pub mod planners;
pub mod transforms;
