//! What the command line can say.

use vstd::prelude::*;

verus! {

/// The command line: `-f/--file`, `-u/--url` and `-s/--save`.
#[derive(Debug, Clone)]
pub struct Args {
    /// The image file to recognise.
    pub file: Option<String>,
    /// The address of the OCR service.
    pub url: Option<String>,
    /// Whether the effective configuration is to be stored.
    pub save: bool,
}

} // verus!
