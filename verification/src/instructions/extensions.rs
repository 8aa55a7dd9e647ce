//! Token-2022 extension instructions and extension state.

pub mod metadata;
pub mod pausable;
pub mod state;

use vstd::prelude::*;

verus! {

/// Token instruction discriminators of the extensions built here.
#[non_exhaustive]
#[derive(Debug, Clone, Copy, PartialEq, Eq, Structural)]
pub enum ExtensionDiscriminator {
    MemoTransfer,
    Pausable,
}

impl ExtensionDiscriminator {
    /// The instruction byte of the extension.
    pub fn to_u8(&self) -> (r: u8)
        ensures
            r == self.spec_to_u8(),
    {
        match self {
            ExtensionDiscriminator::MemoTransfer => 30,
            ExtensionDiscriminator::Pausable => 44,
        }
    }

    /// The instruction byte of the extension.
    pub open spec fn spec_to_u8(&self) -> u8 {
        match self {
            ExtensionDiscriminator::MemoTransfer => 30,
            ExtensionDiscriminator::Pausable => 44,
        }
    }
}

} // verus!
