//! OCR engine configuration: the recognition parameters the pipeline tunes
//! for small, dense UI text, and the named engine variables they become.
//!
//! The engine itself is an external capability; this module fixes what it
//! is asked to do. The character whitelist covers ASCII letters, digits and
//! common punctuation, bracket and operator symbols — most accented and
//! non-Latin glyphs are excluded by design, a documented limitation.

use vstd::prelude::*;
use crate::digits::{dec_digits, format_u32};
use crate::strutil::chars_to_string;

verus! {

/// The recognition parameters of one OCR invocation. Fresh per invocation;
/// never shared across concurrent recognitions.
#[derive(Debug, Clone, PartialEq, Eq)]
pub struct OcrConfig {
    /// The language the engine is initialized with.
    pub language: String,
    /// The page segmentation mode: the expected text layout shape. The
    /// default, 6, assumes a single uniform block of text — appropriate
    /// for UI screenshots rather than full-page documents.
    pub page_seg_mode: u32,
    /// Keep inter-word spacing as recognized.
    pub preserve_interword_spaces: bool,
    /// The characters the engine may emit.
    pub char_whitelist: String,
    /// Heavy noise removal, tuned for small, dense UI text.
    pub heavy_noise_removal: bool,
    /// Minimum text line size heuristic, in tenths.
    pub min_line_size_tenths: u32,
}

/// The default character whitelist: ASCII letters, digits, and common
/// punctuation, bracket and operator symbols.
pub open spec fn default_whitelist() -> Seq<char> {
    "ABCDEFGHIJKLMNOPQRSTUVWXYZabcdefghijklmnopqrstuvwxyz0123456789 .,:;!?'~#$%&@()[]{}<>+-*/=_|\\\"^"@
}

impl OcrConfig {
    /// The documented default profile: English, a single uniform block of
    /// text, preserved inter-word spacing, the ASCII whitelist, heavy
    /// noise removal, and a minimum line size of 2.5.
    pub fn new_default() -> (r: OcrConfig)
        ensures
            r.language@ == "eng"@,
            r.page_seg_mode == 6,
            r.preserve_interword_spaces,
            r.char_whitelist@ == default_whitelist(),
            r.heavy_noise_removal,
            r.min_line_size_tenths == 25,
    {
        OcrConfig {
            language: String::from_str("eng"),
            page_seg_mode: 6,
            preserve_interword_spaces: true,
            char_whitelist: String::from_str(
                "ABCDEFGHIJKLMNOPQRSTUVWXYZabcdefghijklmnopqrstuvwxyz0123456789 .,:;!?'~#$%&@()[]{}<>+-*/=_|\\\"^",
            ),
            heavy_noise_removal: true,
            min_line_size_tenths: 25,
        }
    }

    /// The named string-valued engine variables this configuration sets,
    /// in order: inter-word spacing, the character whitelist, noise
    /// removal, and the minimum line size. The language and the page
    /// segmentation mode are passed to the engine separately, at
    /// initialization.
    pub fn engine_variables(&self) -> (r: Vec<(String, String)>)
        ensures
            r@.len() == 4,
            r@[0].0@ == "preserve_interword_spaces"@,
            r@[0].1@ == flag_value(self.preserve_interword_spaces),
            r@[1].0@ == "tessedit_char_whitelist"@,
            r@[1].1@ == self.char_whitelist@,
            r@[2].0@ == "textord_heavy_nr"@,
            r@[2].1@ == flag_value(self.heavy_noise_removal),
            r@[3].0@ == "textord_min_linesize"@,
            r@[3].1@ == tenths_string(self.min_line_size_tenths),
    {
        let mut out: Vec<(String, String)> = Vec::new();
        out.push(
            (String::from_str("preserve_interword_spaces"), flag_string(
                self.preserve_interword_spaces,
            )),
        );
        out.push((String::from_str("tessedit_char_whitelist"), self.char_whitelist.clone()));
        out.push((String::from_str("textord_heavy_nr"), flag_string(self.heavy_noise_removal)));
        out.push(
            (String::from_str("textord_min_linesize"), format_tenths(self.min_line_size_tenths)),
        );
        out
    }
}

/// An engine flag's value: "1" for on, "0" for off.
pub open spec fn flag_value(on: bool) -> Seq<char> {
    if on {
        "1"@
    } else {
        "0"@
    }
}

/// Renders an engine flag's value.
pub fn flag_string(on: bool) -> (r: String)
    ensures
        r@ == flag_value(on),
{
    if on {
        String::from_str("1")
    } else {
        String::from_str("0")
    }
}

/// A value in tenths rendered with one decimal place.
pub open spec fn tenths_string(n: u32) -> Seq<char> {
    dec_digits((n / 10) as nat) + seq!['.'] + dec_digits((n % 10) as nat)
}

/// Renders a value in tenths with one decimal place.
pub fn format_tenths(n: u32) -> (r: String)
    ensures
        r@ == tenths_string(n),
{
    let mut chars = format_u32(n / 10);
    chars.push('.');
    let mut frac = format_u32(n % 10);
    chars.append(&mut frac);
    assert(chars@ =~= tenths_string(n));
    chars_to_string(&chars)
}

} // verus!
