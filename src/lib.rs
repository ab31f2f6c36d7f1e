//! Server side of an OAuth authorization-code login: the decisions of the
//! callback handler, the batched user insert, and the laws that tie them.

pub mod batch;
pub mod flow;
pub mod laws;
pub mod model;
pub mod text;
