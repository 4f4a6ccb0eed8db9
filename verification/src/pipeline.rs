//! The capture pipeline as a state machine: each step takes the current
//! state and the outcome of the last external action, and decides the next
//! state and the next action.
//!
//! The caller runs the loop: it performs each returned action — inspecting
//! the environment, running the selection, capture and recognition tools —
//! and hands the outcome back as the next event. Every stage's error
//! short-circuits the remainder: the machine moves to `Failed` and asks for
//! nothing further. The machine is stateless between runs; one run never
//! retries.

use vstd::prelude::*;
use crate::bitmap::RgbBitmap;
use crate::display::{detect, opt_string_view, spec_detect, DisplayServerKind};
use crate::errors::{CaptureFailure, PipelineError};
use crate::imaging::{decode_rgb, decoded_rgb, encode_png_gray, png_encode_ok, png_encoded_gray};
use crate::preprocess::{preprocess, spec_preprocess, PreprocessConfig, ThresholdPolicy};
use crate::region::{format_capture_geometry, select_region, spec_capture_geometry,
    spec_select_region, RegionDescriptor};

verus! {

/// Where one pipeline run stands.
pub enum PipelineState {
    /// Waiting for the display-server indicators.
    Detecting,
    /// Waiting for the region-selection tool's outcome.
    Selecting { kind: DisplayServerKind },
    /// Waiting for the capture tool's outcome.
    Capturing { kind: DisplayServerKind, region: RegionDescriptor },
    /// Waiting for the recognition outcome on the preprocessed bitmap.
    Recognizing,
    /// The run succeeded: the raw recognized text.
    Done { text: String },
    /// The run failed; no further action follows.
    Failed { error: PipelineError },
}

/// What the caller reports back to the machine.
pub enum PipelineEvent {
    /// The read-only environment indicators: the session-type variable's
    /// value, and whether the two display-endpoint variables are present.
    EnvInspected { session_type: Option<String>, wayland_display_set: bool, x11_display_set: bool },
    /// The selection tool's outcome: whether it could be started, whether
    /// it exited successfully, and its standard output.
    SelectionToolExited { spawned: bool, exit_ok: bool, stdout: String },
    /// The capture tool's outcome: whether it could be started, whether it
    /// exited successfully, and the output file's bytes (`None` when no
    /// file was produced).
    CaptureToolExited { spawned: bool, exit_ok: bool, output: Option<Vec<u8>> },
    /// The recognition outcome: the raw recognized text on success, the
    /// engine's diagnostic on failure.
    OcrFinished { ok: bool, text: String },
}

/// What the caller must do next.
pub enum PipelineAction {
    /// Read the environment indicators.
    InspectEnv,
    /// Run the region-selection tool for this display server.
    RunSelectionTool { kind: DisplayServerKind },
    /// Run the capture tool for this display server with this geometry
    /// string, then hand back the output file's bytes.
    RunCaptureTool { kind: DisplayServerKind, geometry: String },
    /// Run the OCR engine on this preprocessed PNG.
    RunOcr { png: Vec<u8> },
    /// The run is over; nothing further to do.
    Stop,
}

/// Whether an event is the one the state awaits.
pub open spec fn event_fits(state: PipelineState, event: PipelineEvent) -> bool {
    match (state, event) {
        (PipelineState::Detecting, PipelineEvent::EnvInspected { .. }) => true,
        (PipelineState::Selecting { .. }, PipelineEvent::SelectionToolExited { .. }) => true,
        (PipelineState::Capturing { .. }, PipelineEvent::CaptureToolExited { .. }) => true,
        (PipelineState::Recognizing, PipelineEvent::OcrFinished { .. }) => true,
        _ => false,
    }
}

/// The step failed with exactly this error and asks for nothing further.
pub open spec fn fails_with(r: (PipelineState, PipelineAction), e: PipelineError) -> bool {
    &&& r.0 matches PipelineState::Failed { error } && error == e
    &&& r.1 matches PipelineAction::Stop
}

/// The dimension and size bounds under which a decoded bitmap can be
/// preprocessed on this machine: a non-empty image whose doubled
/// dimensions and upscaled buffer still fit, and — under the adaptive
/// policy — whose pixel count keeps the thresholder's 32-bit sums in
/// range.
pub open spec fn decode_bounds_ok(w: u32, h: u32, cfg: PreprocessConfig) -> bool {
    &&& w >= 1
    &&& h >= 1
    &&& w <= u32::MAX / 2
    &&& h <= u32::MAX / 2
    &&& 4 * (w as nat) * (h as nat) <= usize::MAX
    &&& (cfg.threshold matches ThresholdPolicy::Adaptive { .. } ==> 1020 * (w as nat) * (
    h as nat) <= u32::MAX)
}

/// A fresh pipeline run: the machine starts by asking for the environment
/// indicators.
pub fn start() -> (r: (PipelineState, PipelineAction))
    ensures
        r.0 matches PipelineState::Detecting,
        r.1 matches PipelineAction::InspectEnv,
{
    (PipelineState::Detecting, PipelineAction::InspectEnv)
}

/// Advances the pipeline by one step: from the current state and the last
/// action's outcome to the next state and the next action.
///
/// Detection always succeeds and leads to region selection. A cancelled or
/// unparseable selection fails the run before any capture is asked for. A
/// capture that could not run, exited non-zero, or produced a missing or
/// empty file fails the run — an empty file even when the tool exited
/// successfully. Sound captured bytes are decoded, preprocessed and
/// re-encoded here, and recognition on the result is asked for; undecodable
/// or oversized bitmaps fail the run instead. A recognition outcome ends
/// the run with the raw text or the engine's diagnostic. Terminal states,
/// and events a state does not await, change nothing.
pub fn step(state: PipelineState, event: PipelineEvent, cfg: &PreprocessConfig) -> (r: (
    PipelineState,
    PipelineAction,
))
    requires
        cfg.wf(),
    ensures
        !event_fits(state, event) ==> r.0 == state && r.1 matches PipelineAction::Stop,
        state matches PipelineState::Detecting ==> (event matches PipelineEvent::EnvInspected {
            session_type,
            wayland_display_set,
            x11_display_set,
        } ==> {
            let kind = spec_detect(
                opt_string_view(session_type),
                wayland_display_set,
                x11_display_set,
            );
            &&& r.0 matches PipelineState::Selecting { kind: k } && k == kind
            &&& r.1 matches PipelineAction::RunSelectionTool { kind: k } && k == kind
        }),
        state matches PipelineState::Selecting { kind } ==> (event matches
            PipelineEvent::SelectionToolExited { spawned, exit_ok, stdout } ==> {
            let sel = spec_select_region(kind, spawned, exit_ok, stdout@);
            &&& (sel matches Err(e) ==> fails_with(r, e))
            &&& (sel matches Ok(region) ==> {
                &&& r.0 matches PipelineState::Capturing { kind: k, region: rg } && k == kind
                    && rg == region
                &&& r.1 matches PipelineAction::RunCaptureTool { kind: k, geometry } && k == kind
                    && geometry@ == spec_capture_geometry(kind, region)
            })
        }),
        state matches PipelineState::Capturing { kind, region } ==> (event matches
            PipelineEvent::CaptureToolExited { spawned, exit_ok, output } ==> {
            &&& (!spawned ==> fails_with(
                r,
                PipelineError::ScreenshotCaptureFailed { failure: CaptureFailure::ToolMissing },
            ))
            &&& (spawned && !exit_ok ==> fails_with(
                r,
                PipelineError::ScreenshotCaptureFailed { failure: CaptureFailure::ToolFailed },
            ))
            &&& (spawned && exit_ok && output is None ==> fails_with(
                r,
                PipelineError::ScreenshotCaptureFailed { failure: CaptureFailure::MissingOutput },
            ))
            &&& (output matches Some(bytes) ==> (spawned && exit_ok && bytes@.len() == 0
                ==> fails_with(
                r,
                PipelineError::ScreenshotCaptureFailed { failure: CaptureFailure::EmptyOutput },
            )))
            &&& (output matches Some(bytes) ==> spawned && exit_ok && bytes@.len() > 0 ==> {
                match decoded_rgb(bytes@) {
                    Option::None => fails_with(r, PipelineError::ImageDecodeFailed),
                    Option::Some((w, h, samples)) => {
                        if !decode_bounds_ok(w, h, *cfg) {
                            fails_with(r, PipelineError::ImageDecodeFailed)
                        } else if png_encode_ok(
                            spec_preprocess(samples, w as int, h as int, *cfg),
                            2 * (w as int),
                            2 * (h as int),
                        ) {
                            &&& r.0 matches PipelineState::Recognizing
                            &&& r.1 matches PipelineAction::RunOcr { png } && png@
                                == png_encoded_gray(
                                spec_preprocess(samples, w as int, h as int, *cfg),
                                2 * (w as int),
                                2 * (h as int),
                            )
                        } else {
                            &&& r.0 matches PipelineState::Failed { error } && (
                            error matches PipelineError::OcrEngineFailed { diagnostic }
                                && diagnostic@ == "could not encode the preprocessed bitmap"@)
                            &&& r.1 matches PipelineAction::Stop
                        }
                    },
                }
            })
        }),
        state matches PipelineState::Recognizing ==> (event matches PipelineEvent::OcrFinished {
            ok,
            text,
        } ==> {
            &&& (ok ==> {
                &&& r.0 matches PipelineState::Done { text: t } && t@ == text@
                &&& r.1 matches PipelineAction::Stop
            })
            &&& (!ok ==> fails_with(
                r,
                PipelineError::OcrEngineFailed { diagnostic: text },
            ))
        }),
{
    match state {
        PipelineState::Detecting => match event {
            PipelineEvent::EnvInspected {
                session_type,
                wayland_display_set,
                x11_display_set,
            } => {
                let kind = detect(&session_type, wayland_display_set, x11_display_set);
                (PipelineState::Selecting { kind }, PipelineAction::RunSelectionTool { kind })
            },
            _ => (PipelineState::Detecting, PipelineAction::Stop),
        },
        PipelineState::Selecting { kind } => match event {
            PipelineEvent::SelectionToolExited { spawned, exit_ok, stdout } => {
                match select_region(kind, spawned, exit_ok, stdout.as_str()) {
                    Ok(region) => {
                        let geometry = format_capture_geometry(kind, &region);
                        (
                            PipelineState::Capturing { kind, region },
                            PipelineAction::RunCaptureTool { kind, geometry },
                        )
                    },
                    Err(error) => (PipelineState::Failed { error }, PipelineAction::Stop),
                }
            },
            _ => (PipelineState::Selecting { kind }, PipelineAction::Stop),
        },
        PipelineState::Capturing { kind, region } => match event {
            PipelineEvent::CaptureToolExited { spawned, exit_ok, output } => {
            if !spawned {
                return (
                    PipelineState::Failed {
                        error: PipelineError::ScreenshotCaptureFailed {
                            failure: CaptureFailure::ToolMissing,
                        },
                    },
                    PipelineAction::Stop,
                );
            }
            if !exit_ok {
                return (
                    PipelineState::Failed {
                        error: PipelineError::ScreenshotCaptureFailed {
                            failure: CaptureFailure::ToolFailed,
                        },
                    },
                    PipelineAction::Stop,
                );
            }
            let bytes = match output {
                Some(bytes) => bytes,
                None => {
                    return (
                        PipelineState::Failed {
                            error: PipelineError::ScreenshotCaptureFailed {
                                failure: CaptureFailure::MissingOutput,
                            },
                        },
                        PipelineAction::Stop,
                    );
                },
            };
            if bytes.len() == 0 {
                return (
                    PipelineState::Failed {
                        error: PipelineError::ScreenshotCaptureFailed {
                            failure: CaptureFailure::EmptyOutput,
                        },
                    },
                    PipelineAction::Stop,
                );
            }
            let img = match decode_rgb(bytes.as_slice()) {
                Some(img) => img,
                None => {
                    return (
                        PipelineState::Failed { error: PipelineError::ImageDecodeFailed },
                        PipelineAction::Stop,
                    );
                },
            };
            if !check_decode_bounds(&img, cfg) {
                return (
                    PipelineState::Failed { error: PipelineError::ImageDecodeFailed },
                    PipelineAction::Stop,
                );
            }
                let processed = preprocess(img, cfg);
                match encode_png_gray(&processed) {
                    Some(png) => (PipelineState::Recognizing, PipelineAction::RunOcr { png }),
                    None => (
                        PipelineState::Failed {
                            error: PipelineError::OcrEngineFailed {
                                diagnostic: String::from_str(
                                    "could not encode the preprocessed bitmap",
                                ),
                            },
                        },
                        PipelineAction::Stop,
                    ),
                }
            },
            _ => (PipelineState::Capturing { kind, region }, PipelineAction::Stop),
        },
        PipelineState::Recognizing => match event {
            PipelineEvent::OcrFinished { ok, text } => {
                if ok {
                    (PipelineState::Done { text }, PipelineAction::Stop)
                } else {
                    (
                        PipelineState::Failed {
                            error: PipelineError::OcrEngineFailed { diagnostic: text },
                        },
                        PipelineAction::Stop,
                    )
                }
            },
            _ => (PipelineState::Recognizing, PipelineAction::Stop),
        },
        PipelineState::Done { text } => (PipelineState::Done { text }, PipelineAction::Stop),
        PipelineState::Failed { error } => (
            PipelineState::Failed { error },
            PipelineAction::Stop,
        ),
    }
}

/// Whether a decoded bitmap's dimensions stay inside `decode_bounds_ok`.
fn check_decode_bounds(img: &RgbBitmap, cfg: &PreprocessConfig) -> (r: bool)
    ensures
        r == decode_bounds_ok(img.width, img.height, *cfg),
{
    let w = img.width;
    let h = img.height;
    if w < 1 || h < 1 || w > u32::MAX / 2 || h > u32::MAX / 2 {
        return false;
    }
    proof {
        assert((w as nat) * (h as nat) < 0x10000000000000000) by (nonlinear_arith)
            requires
                w < 0x100000000,
                h < 0x100000000,
        ;
        assert(4 * (w as nat) * (h as nat) == 4 * ((w as nat) * (h as nat))) by (nonlinear_arith);
        assert(1020 * (w as nat) * (h as nat) == 1020 * ((w as nat) * (h as nat)))
            by (nonlinear_arith);
    }
    let pix: u128 = (w as u128) * (h as u128);
    if 4 * pix > usize::MAX as u128 {
        return false;
    }
    let adaptive = match cfg.threshold {
        ThresholdPolicy::Adaptive { .. } => true,
        ThresholdPolicy::Fixed { .. } => false,
    };
    if adaptive && 1020 * pix > u32::MAX as u128 {
        return false;
    }
    true
}

} // verus!
