//! A toggleable middleware selector for request-processing pipelines: one
//! pipeline slot that is wired, at configuration time, to either a
//! pass-through middleware or a real one, and that presents a single uniform
//! stage type to the surrounding pipeline either way.

pub mod demo;
pub mod group;
pub mod passthrough;
pub mod stage;
