//! Verified instruction builders and account-data readers for the
//! Token-2022 metadata and pausable extensions.

pub mod codec;
pub mod error;
pub mod instructions;
pub mod runtime;
pub mod state;

pub use error::TokenError;

use vstd::prelude::*;

verus! {

/// Address bytes of the Token-2022 program
/// (`TokenzQdBNbLqP5VEhdkAS6EPFLC1PHnBqCXEpPxuEb`).
pub const ID: [u8; 32] = [
    6, 221, 246, 225, 238, 117, 143, 222, 24, 66, 93, 188, 228, 108, 205, 218, 182, 26, 252, 77,
    131, 185, 13, 39, 254, 189, 249, 40, 216, 161, 139, 252,
];

} // verus!
