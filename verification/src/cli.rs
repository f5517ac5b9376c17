//! What the user asks for.

use vstd::prelude::*;

verus! {

/// The options of one run, as plain values.
#[derive(Debug, Clone)]
pub struct Args {
    /// Solidity version
    pub solc: String,
    /// Number of handler contracts to generate
    pub nb_handlers: u8,
    /// Number of property contracts to generate
    pub nb_properties: u8,
    /// Overwrite existing files
    pub overwrite: bool,
}

} // verus!
