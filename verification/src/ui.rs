//! What the user-facing front ends decide.

pub mod cli;
