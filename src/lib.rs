//! Builders for a typed graph of schema nodes: scalars, composites, functions
//! and the transforms that wrap them, allocated in an explicit session.

pub mod base;
pub mod composite;
pub mod http;
pub mod injection;
pub mod laws;
pub mod scalar;
pub mod session;
pub mod t;
