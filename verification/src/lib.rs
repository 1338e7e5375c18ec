//! Verified core of a terminal front end for building and running FFmpeg jobs.

pub mod app;
pub mod domain;
pub mod infra;
pub mod parser;
pub mod paths;
pub mod preset;
pub mod quantity;
pub mod text;
