//! A bounded Game-of-Life engine: a rectangular grid of live and dead cells,
//! with point access, Moore-neighborhood counting under edge truncation,
//! the B3/S23 generation rule, and text rendering.

pub mod bits;
mod text;

pub mod laws;
pub mod utils;
pub mod world;
