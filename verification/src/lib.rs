//! One stage of a content-classification pipeline.
//!
//! A stage receives an optional scoring [`context::Context`], derives a
//! `weight` signal from the post under evaluation, and forwards the result to
//! an injected successor stage, returning the successor's result unchanged.

pub mod context;
pub mod stage;
