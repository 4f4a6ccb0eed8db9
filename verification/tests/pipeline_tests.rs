use montecapcho::bitmap::GrayBitmap;
use montecapcho::display::DisplayServerKind;
use montecapcho::errors::{CaptureFailure, PipelineError};
use montecapcho::imaging::encode_png_gray;
use montecapcho::pipeline::{start, step, PipelineAction, PipelineEvent, PipelineState};
use montecapcho::preprocess::PreprocessConfig;
use montecapcho::region::RegionDescriptor;

fn capturing() -> PipelineState {
    PipelineState::Capturing {
        kind: DisplayServerKind::X11,
        region: RegionDescriptor { x: 1, y: 2, width: 3, height: 4 },
    }
}

#[test]
fn a_run_starts_by_inspecting_the_environment() {
    let (state, action) = start();
    assert!(matches!(state, PipelineState::Detecting));
    assert!(matches!(action, PipelineAction::InspectEnv));
}

#[test]
fn detection_leads_to_region_selection() {
    let cfg = PreprocessConfig::default();
    let event = PipelineEvent::EnvInspected {
        session_type: Some("wayland".to_string()),
        wayland_display_set: false,
        x11_display_set: false,
    };
    let (state, action) = step(PipelineState::Detecting, event, &cfg);
    assert!(matches!(state, PipelineState::Selecting { kind: DisplayServerKind::Wayland }));
    assert!(matches!(
        action,
        PipelineAction::RunSelectionTool { kind: DisplayServerKind::Wayland }
    ));
}

#[test]
fn cancelled_selection_fails_without_capture() {
    let cfg = PreprocessConfig::default();
    let event = PipelineEvent::SelectionToolExited {
        spawned: true,
        exit_ok: false,
        stdout: String::new(),
    };
    let (state, action) = step(
        PipelineState::Selecting { kind: DisplayServerKind::X11 },
        event,
        &cfg,
    );
    assert!(matches!(
        state,
        PipelineState::Failed {
            error: PipelineError::RegionSelectionCancelled { tool_missing: false }
        }
    ));
    assert!(matches!(action, PipelineAction::Stop));
}

#[test]
fn short_selector_output_fails_without_capture() {
    let cfg = PreprocessConfig::default();
    let event = PipelineEvent::SelectionToolExited {
        spawned: true,
        exit_ok: true,
        stdout: "10,20".to_string(),
    };
    let (state, action) = step(
        PipelineState::Selecting { kind: DisplayServerKind::X11 },
        event,
        &cfg,
    );
    assert!(matches!(
        state,
        PipelineState::Failed { error: PipelineError::InvalidRegionFormat }
    ));
    assert!(matches!(action, PipelineAction::Stop));
}

#[test]
fn sound_selection_asks_for_a_capture() {
    let cfg = PreprocessConfig::default();
    let event = PipelineEvent::SelectionToolExited {
        spawned: true,
        exit_ok: true,
        stdout: "1,2,3,4\n".to_string(),
    };
    let (state, action) = step(
        PipelineState::Selecting { kind: DisplayServerKind::X11 },
        event,
        &cfg,
    );
    let expected = RegionDescriptor { x: 1, y: 2, width: 3, height: 4 };
    match state {
        PipelineState::Capturing { kind, region } => {
            assert_eq!(kind, DisplayServerKind::X11);
            assert_eq!(region, expected);
        }
        _ => panic!("expected a capturing state"),
    }
    match action {
        PipelineAction::RunCaptureTool { kind, geometry } => {
            assert_eq!(kind, DisplayServerKind::X11);
            assert_eq!(geometry, "3x4+1+2");
        }
        _ => panic!("expected a capture action"),
    }
}

#[test]
fn wayland_selection_carries_the_token_through() {
    let cfg = PreprocessConfig::default();
    let event = PipelineEvent::SelectionToolExited {
        spawned: true,
        exit_ok: true,
        stdout: "10,20 300x400\n".to_string(),
    };
    let (state, action) = step(
        PipelineState::Selecting { kind: DisplayServerKind::Wayland },
        event,
        &cfg,
    );
    assert!(matches!(state, PipelineState::Capturing { .. }));
    match action {
        PipelineAction::RunCaptureTool { kind, geometry } => {
            assert_eq!(kind, DisplayServerKind::Wayland);
            assert_eq!(geometry, "10,20 300x400");
        }
        _ => panic!("expected a capture action"),
    }
}

#[test]
fn empty_capture_file_fails_despite_success_exit() {
    let cfg = PreprocessConfig::default();
    let event = PipelineEvent::CaptureToolExited {
        spawned: true,
        exit_ok: true,
        output: Some(Vec::new()),
    };
    let (state, action) = step(capturing(), event, &cfg);
    assert!(matches!(
        state,
        PipelineState::Failed {
            error: PipelineError::ScreenshotCaptureFailed {
                failure: CaptureFailure::EmptyOutput
            }
        }
    ));
    assert!(matches!(action, PipelineAction::Stop));
}

#[test]
fn missing_capture_file_fails_the_run() {
    let cfg = PreprocessConfig::default();
    let event = PipelineEvent::CaptureToolExited { spawned: true, exit_ok: true, output: None };
    let (state, _) = step(capturing(), event, &cfg);
    assert!(matches!(
        state,
        PipelineState::Failed {
            error: PipelineError::ScreenshotCaptureFailed {
                failure: CaptureFailure::MissingOutput
            }
        }
    ));
}

#[test]
fn failed_capture_tool_fails_the_run() {
    let cfg = PreprocessConfig::default();
    let event = PipelineEvent::CaptureToolExited {
        spawned: true,
        exit_ok: false,
        output: None,
    };
    let (state, _) = step(capturing(), event, &cfg);
    assert!(matches!(
        state,
        PipelineState::Failed {
            error: PipelineError::ScreenshotCaptureFailed { failure: CaptureFailure::ToolFailed }
        }
    ));
}

#[test]
fn missing_capture_tool_fails_the_run() {
    let cfg = PreprocessConfig::default();
    let event = PipelineEvent::CaptureToolExited { spawned: false, exit_ok: false, output: None };
    let (state, _) = step(capturing(), event, &cfg);
    assert!(matches!(
        state,
        PipelineState::Failed {
            error: PipelineError::ScreenshotCaptureFailed { failure: CaptureFailure::ToolMissing }
        }
    ));
}

#[test]
fn undecodable_capture_fails_the_run() {
    let cfg = PreprocessConfig::default();
    let event = PipelineEvent::CaptureToolExited {
        spawned: true,
        exit_ok: true,
        output: Some(vec![0x13, 0x37, 0x00, 0x42]),
    };
    let (state, _) = step(capturing(), event, &cfg);
    assert!(matches!(
        state,
        PipelineState::Failed { error: PipelineError::ImageDecodeFailed }
    ));
}

#[test]
fn sound_capture_asks_for_recognition() {
    let cfg = PreprocessConfig::default();
    let shot = GrayBitmap { width: 5, height: 4, pixels: vec![200; 20] };
    let png = encode_png_gray(&shot).unwrap();
    let event = PipelineEvent::CaptureToolExited {
        spawned: true,
        exit_ok: true,
        output: Some(png),
    };
    let (state, action) = step(capturing(), event, &cfg);
    assert!(matches!(state, PipelineState::Recognizing));
    match action {
        PipelineAction::RunOcr { png } => assert!(!png.is_empty()),
        _ => panic!("expected a recognition action"),
    }
}

#[test]
fn recognition_success_ends_with_the_raw_text() {
    let cfg = PreprocessConfig::default();
    let event = PipelineEvent::OcrFinished { ok: true, text: "HELLO 123\n".to_string() };
    let (state, action) = step(PipelineState::Recognizing, event, &cfg);
    match state {
        PipelineState::Done { text } => assert_eq!(text, "HELLO 123\n"),
        _ => panic!("expected a done state"),
    }
    assert!(matches!(action, PipelineAction::Stop));
}

#[test]
fn recognition_failure_carries_the_diagnostic() {
    let cfg = PreprocessConfig::default();
    let event = PipelineEvent::OcrFinished { ok: false, text: "engine init failed".to_string() };
    let (state, _) = step(PipelineState::Recognizing, event, &cfg);
    match state {
        PipelineState::Failed { error: PipelineError::OcrEngineFailed { diagnostic } } => {
            assert_eq!(diagnostic, "engine init failed")
        }
        _ => panic!("expected an engine failure"),
    }
}

#[test]
fn unawaited_events_change_nothing() {
    let cfg = PreprocessConfig::default();
    let event = PipelineEvent::OcrFinished { ok: true, text: String::new() };
    let (state, action) = step(PipelineState::Detecting, event, &cfg);
    assert!(matches!(state, PipelineState::Detecting));
    assert!(matches!(action, PipelineAction::Stop));
}
