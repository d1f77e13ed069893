//! Synthetic load generator for a reverse-proxy control plane: the command
//! synthesizer, the paced submission engine and the run loop, verified.

pub mod args;
pub mod command;
pub mod config;
pub mod generator;
pub mod messaging;
pub mod random;
pub mod requests;
mod text;

pub use args::Args;
