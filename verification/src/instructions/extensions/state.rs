//! Extension state readers.

pub mod pausable_config;
