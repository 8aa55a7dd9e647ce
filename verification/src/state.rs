//! Account state readers.

pub mod metadata;
