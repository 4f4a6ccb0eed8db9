//! The unified error taxonomy of the capture-to-text pipeline.
//!
//! Every stage fails fast: its tagged error is returned immediately and no
//! stage retries. Each variant records which stage failed; `message` renders
//! a human-readable diagnostic for the caller.

use vstd::prelude::*;

verus! {

/// How the screenshot capture stage failed.
#[derive(Debug, Clone, Copy, PartialEq, Eq, Structural)]
pub enum CaptureFailure {
    /// The capture tool could not be started at all.
    ToolMissing,
    /// The capture tool ran and exited with a failure status.
    ToolFailed,
    /// The capture tool exited successfully but its output file is missing.
    MissingOutput,
    /// The capture tool exited successfully but its output file is empty.
    EmptyOutput,
}

/// The error taxonomy of the pipeline: which stage failed, and why.
#[derive(Debug, Clone, PartialEq, Eq)]
pub enum PipelineError {
    /// The user aborted region selection, or the selection tool was
    /// unavailable or failed. `tool_missing` is true exactly when the tool
    /// could not be started, so the message can state which occurred.
    RegionSelectionCancelled { tool_missing: bool },
    /// The selection tool produced output that does not parse into four
    /// numeric fields describing a non-empty rectangle.
    InvalidRegionFormat,
    /// The capture tool was missing, exited non-zero, or produced an empty
    /// or missing output file.
    ScreenshotCaptureFailed { failure: CaptureFailure },
    /// The captured file is not a valid bitmap.
    ImageDecodeFailed,
    /// OCR engine initialization, configuration, or recognition failed;
    /// carries the underlying diagnostic.
    OcrEngineFailed { diagnostic: String },
}

impl PipelineError {
    /// The human-readable diagnostic for this error, stating for selection
    /// and capture failures whether the tool was missing or ran and failed.
    pub fn message(&self) -> (r: String)
        ensures
            self matches PipelineError::RegionSelectionCancelled { tool_missing } ==> r@ == (
            if *tool_missing {
                "region selection tool could not be started"@
            } else {
                "region selection cancelled"@
            }),
            self matches PipelineError::InvalidRegionFormat ==> r@
                == "invalid region format from selection tool"@,
            self matches PipelineError::ScreenshotCaptureFailed { failure } ==> r@ == (
            match failure {
                CaptureFailure::ToolMissing => "screenshot tool could not be started"@,
                CaptureFailure::ToolFailed => "screenshot tool exited with a failure status"@,
                CaptureFailure::MissingOutput => "screenshot tool produced no output file"@,
                CaptureFailure::EmptyOutput => "screenshot tool produced an empty file"@,
            }),
            self matches PipelineError::ImageDecodeFailed ==> r@
                == "captured file is not a valid bitmap"@,
            self matches PipelineError::OcrEngineFailed { diagnostic } ==> r@ == "OCR engine failed: "@
                + diagnostic@,
    {
        match self {
            PipelineError::RegionSelectionCancelled { tool_missing } => {
                if *tool_missing {
                    String::from_str("region selection tool could not be started")
                } else {
                    String::from_str("region selection cancelled")
                }
            },
            PipelineError::InvalidRegionFormat => {
                String::from_str("invalid region format from selection tool")
            },
            PipelineError::ScreenshotCaptureFailed { failure } => {
                match failure {
                    CaptureFailure::ToolMissing => {
                        String::from_str("screenshot tool could not be started")
                    },
                    CaptureFailure::ToolFailed => {
                        String::from_str("screenshot tool exited with a failure status")
                    },
                    CaptureFailure::MissingOutput => {
                        String::from_str("screenshot tool produced no output file")
                    },
                    CaptureFailure::EmptyOutput => {
                        String::from_str("screenshot tool produced an empty file")
                    },
                }
            },
            PipelineError::ImageDecodeFailed => {
                String::from_str("captured file is not a valid bitmap")
            },
            PipelineError::OcrEngineFailed { diagnostic } => {
                String::from_str("OCR engine failed: ").concat(diagnostic.as_str())
            },
        }
    }
}

/// std's error-kind enum, declared so that `OtherError` can carry it.
#[verifier::external_type_specification]
#[verifier::external_body]
pub struct ExErrorKind(std::io::ErrorKind);

/// Relies on the derived `Clone` of std's `ErrorKind`, a plain enum copy.
pub assume_specification[ <std::io::ErrorKind as std::clone::Clone>::clone ](
    k: &std::io::ErrorKind,
) -> std::io::ErrorKind;

/// Errors of the editor shell around the pipeline, kept for its callers.
#[derive(Debug, Clone)]
pub enum OtherError {
    DialogClosed,
    IoError(std::io::ErrorKind),
}

} // verus!
