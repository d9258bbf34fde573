//! Bootstrap layer of the guild service: layered settings resolution, the
//! signing-key lifecycle and the single-fire shutdown signal.
pub mod cli;
pub mod keys;
pub mod settings;
pub mod shutdown;
