//! Capture-to-text pipeline: display-server detection, region-selection
//! parsing, screenshot-capture checking, image preprocessing and OCR engine
//! configuration, with every stage's behaviour stated and verified.

pub mod bitmap;
pub mod cli;
pub mod digits;
pub mod display;
pub mod errors;
pub mod imaging;
pub mod ocr;
pub mod pipeline;
pub mod preprocess;
pub mod region;
pub mod strutil;
pub mod textclean;
