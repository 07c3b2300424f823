//! Client-side logic of a small OCR desktop utility: an image file is encoded
//! as base64, posted to an OCR HTTP service, and the recognised text is shown
//! and copied to the clipboard.
//!
//! Everything here is pure: reading files, sending requests, the clock, the
//! clipboard and the widgets belong to the program around this library, which
//! hands over what it read and carries out what the library decides.

use vstd::prelude::*;

pub mod cli;
pub mod config;
pub mod gui;
pub mod logger;
pub mod models;
pub mod ocr_utils;
pub mod text;

pub use cli::Args;
pub use config::Config;
pub use logger::{debug, error, info, warn};
pub use models::{OcrOptions, OcrRequest, OcrResponse, RsOcrError};
pub use ocr_utils::{call_ocr_api, image_to_base64};

verus! {

/// The version of this library.
pub const VERSION: &'static str = "0.1.0";

/// The version of this library, as a sequence of characters.
pub open spec fn version_text() -> Seq<char> {
    "0.1.0"@
}

/// The version of this library.
pub fn version() -> (v: &'static str)
    ensures
        v@ == version_text(),
        v@ == VERSION@,
{
    VERSION
}

} // verus!
