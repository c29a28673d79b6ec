//! The consumer side: pipelines, binding and dispatch.

pub mod compute;
pub mod extract;
pub mod node;
pub mod pipeline;
pub mod prepare;
