//! The command-line surface handed to the pipeline by the entry point.

use vstd::prelude::*;

verus! {

/// The command-line options the tool understands: whether to trigger a
/// screen capture with OCR processing on startup, and whether to copy the
/// extracted text to the clipboard afterwards.
#[derive(Debug, Clone, Copy, PartialEq, Eq, Structural)]
pub struct Cli {
    /// Trigger screen capture and OCR processing.
    pub capture: bool,
    /// Copy the extracted text to clipboard.
    pub copy: bool,
}

impl Default for Cli {
    /// By default neither capture nor clipboard copy is requested.
    fn default() -> (r: Self)
        ensures
            !r.capture,
            !r.copy,
    {
        Cli { capture: false, copy: false }
    }
}

} // verus!
