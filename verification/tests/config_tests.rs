use montecapcho::cli::Cli;
use montecapcho::digits::{format_u32, parse_u32};
use montecapcho::errors::{CaptureFailure, OtherError, PipelineError};
use montecapcho::ocr::{flag_string, format_tenths, OcrConfig};
use montecapcho::preprocess::{PreprocessConfig, ThresholdPolicy};

fn chars(s: &str) -> Vec<char> {
    s.chars().collect()
}

#[test]
fn parse_u32_reads_decimal_fields() {
    let v = chars("123");
    assert_eq!(parse_u32(&v, 0, 3), Some(123));
    assert_eq!(parse_u32(&v, 0, 0), None);
    assert_eq!(parse_u32(&chars("12a"), 0, 3), None);
    assert_eq!(parse_u32(&chars("4294967295"), 0, 10), Some(u32::MAX));
    assert_eq!(parse_u32(&chars("4294967296"), 0, 10), None);
}

#[test]
fn format_u32_writes_canonical_digits() {
    assert_eq!(format_u32(0), chars("0"));
    assert_eq!(format_u32(907), chars("907"));
    assert_eq!(format_u32(u32::MAX), chars("4294967295"));
}

#[test]
fn default_ocr_profile_matches_the_documentation() {
    let cfg = OcrConfig::new_default();
    assert_eq!(cfg.language, "eng");
    assert_eq!(cfg.page_seg_mode, 6);
    assert!(cfg.preserve_interword_spaces);
    assert!(cfg.char_whitelist.contains("ABCDEFGHIJKLMNOPQRSTUVWXYZ"));
    assert!(cfg.char_whitelist.contains("0123456789"));
    assert!(cfg.heavy_noise_removal);
    assert_eq!(cfg.min_line_size_tenths, 25);
}

#[test]
fn engine_variables_cover_the_tuned_parameters() {
    let cfg = OcrConfig::new_default();
    let vars = cfg.engine_variables();
    assert_eq!(vars.len(), 4);
    assert_eq!(vars[0], ("preserve_interword_spaces".to_string(), "1".to_string()));
    assert_eq!(vars[1].0, "tessedit_char_whitelist");
    assert_eq!(vars[1].1, cfg.char_whitelist);
    assert_eq!(vars[2], ("textord_heavy_nr".to_string(), "1".to_string()));
    assert_eq!(vars[3], ("textord_min_linesize".to_string(), "2.5".to_string()));
}

#[test]
fn tenths_render_with_one_decimal_place() {
    assert_eq!(format_tenths(25), "2.5");
    assert_eq!(format_tenths(7), "0.7");
    assert_eq!(format_tenths(30), "3.0");
    assert_eq!(flag_string(false), "0");
}

#[test]
fn default_preprocess_profile_matches_the_documentation() {
    let cfg = PreprocessConfig::default();
    assert_eq!(cfg.dark_threshold, 110);
    assert_eq!(cfg.blur_kernel_size, 5);
    assert_eq!(cfg.contrast_input_lower, 96);
    assert_eq!(cfg.contrast_input_upper, 160);
    assert_eq!(cfg.contrast_output_lower, 0);
    assert_eq!(cfg.contrast_output_upper, 255);
    assert_eq!(cfg.threshold, ThresholdPolicy::Fixed { level: 150 });
}

#[test]
fn error_messages_name_the_failed_stage() {
    let cancelled = PipelineError::RegionSelectionCancelled { tool_missing: false };
    assert_eq!(cancelled.message(), "region selection cancelled");
    let missing = PipelineError::RegionSelectionCancelled { tool_missing: true };
    assert_eq!(missing.message(), "region selection tool could not be started");
    let invalid = PipelineError::InvalidRegionFormat;
    assert_eq!(invalid.message(), "invalid region format from selection tool");
    let empty = PipelineError::ScreenshotCaptureFailed { failure: CaptureFailure::EmptyOutput };
    assert_eq!(empty.message(), "screenshot tool produced an empty file");
    let decode = PipelineError::ImageDecodeFailed;
    assert_eq!(decode.message(), "captured file is not a valid bitmap");
    let engine = PipelineError::OcrEngineFailed { diagnostic: "boom".to_string() };
    assert_eq!(engine.message(), "OCR engine failed: boom");
}

#[test]
fn shell_errors_carry_their_kind() {
    let e = OtherError::IoError(std::io::ErrorKind::NotFound);
    let copy = e.clone();
    assert!(matches!(copy, OtherError::IoError(std::io::ErrorKind::NotFound)));
    assert!(matches!(OtherError::DialogClosed.clone(), OtherError::DialogClosed));
}

#[test]
fn cli_defaults_to_no_capture() {
    let cli = Cli::default();
    assert!(!cli.capture);
    assert!(!cli.copy);
}
