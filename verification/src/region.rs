//! Region selection: parsing the selection tools' textual output into a
//! normalized rectangle, and formatting the geometry string each capture
//! tool expects.
//!
//! Two selector encodings reach this module: the Wayland tool pair's
//! geometry token `X,Y WxH`, which its capture tool accepts unchanged, and
//! the X11 selector's four comma-separated numeric fields `x,y,w,h`, which
//! the X11 capture tool takes re-formatted as `WxH+X+Y`. Both are
//! translated into `RegionDescriptor`, the common normalized form, and the
//! descriptor is formatted back into the capture tool's grammar. Parsing
//! after formatting recovers the descriptor exactly (the round-trip laws
//! below), so the Wayland token reaches its capture tool as the same
//! string the selector emitted.

use vstd::prelude::*;
use crate::digits::{
    all_dec_digits, dec_digits, format_u32, is_dec_digit, lemma_dec_digits_value, parse_u32,
    spec_parse_u32,
};
use crate::display::DisplayServerKind;
use crate::errors::PipelineError;
use crate::strutil::{chars_to_string, spec_trim, str_chars, trim_chars};

verus! {

/// The normalized rectangle a selection tool's output describes: offsets
/// and dimensions in pixels, with a non-empty area required before capture
/// proceeds.
#[derive(Debug, Clone, Copy, PartialEq, Eq, Structural)]
pub struct RegionDescriptor {
    pub x: u32,
    pub y: u32,
    pub width: u32,
    pub height: u32,
}

impl RegionDescriptor {
    /// A region may be captured only when it has a non-empty area.
    pub open spec fn wf(self) -> bool {
        self.width > 0 && self.height > 0
    }
}

/// The first index at or after `i` where `c` stands; negative when `c`
/// does not occur at or after `i`.
pub open spec fn find_from(s: Seq<char>, c: char, i: int) -> int
    decreases s.len() - i,
{
    if i < 0 || i >= s.len() {
        -1
    } else if s[i] == c {
        i
    } else {
        find_from(s, c, i + 1)
    }
}

/// Where the first occurrence is known, `find_from` returns it.
pub proof fn lemma_find_from_found(s: Seq<char>, c: char, from: int, k: int)
    requires
        0 <= from <= k < s.len(),
        s[k] == c,
        forall|j: int| from <= j < k ==> s[j] != c,
    ensures
        find_from(s, c, from) == k,
    decreases k - from,
{
    if from < k {
        lemma_find_from_found(s, c, from + 1, k);
    }
}

/// Scans `v` for `c`, starting at `from`.
pub fn find_char(v: &Vec<char>, c: char, from: usize) -> (r: Option<usize>)
    requires
        from <= v@.len(),
    ensures
        r matches Some(k) ==> from <= k < v@.len() && find_from(v@, c, from as int) == k as int,
        r is None ==> find_from(v@, c, from as int) == -1,
{
    let mut i: usize = from;
    while i < v.len()
        invariant
            from <= i <= v@.len(),
            find_from(v@, c, from as int) == find_from(v@, c, i as int),
        decreases v@.len() - i,
    {
        if v[i] == c {
            return Some(i);
        }
        i = i + 1;
    }
    None
}

/// The geometry string `WxH+X+Y` of a region, as the X11 capture tool
/// expects it.
pub open spec fn spec_geometry(r: RegionDescriptor) -> Seq<char> {
    dec_digits(r.width as nat) + seq!['x'] + dec_digits(r.height as nat) + seq!['+'] + dec_digits(
        r.x as nat,
    ) + seq!['+'] + dec_digits(r.y as nat)
}

/// Formats the X11 capture tool's geometry string `WxH+X+Y` of a region.
pub fn format_geometry(r: &RegionDescriptor) -> (g: String)
    ensures
        g@ == spec_geometry(*r),
{
    let mut out: Vec<char> = format_u32(r.width);
    out.push('x');
    let mut h = format_u32(r.height);
    out.append(&mut h);
    out.push('+');
    let mut x = format_u32(r.x);
    out.append(&mut x);
    out.push('+');
    let mut y = format_u32(r.y);
    out.append(&mut y);
    assert(out@ =~= spec_geometry(*r));
    chars_to_string(&out)
}

/// What parsing a geometry token `WxH+X+Y` yields: the descriptor, when the
/// separators stand in order, all four components are decimal numbers that
/// fit in 32 bits, and the area is non-empty.
pub open spec fn spec_parse_geometry(s: Seq<char>) -> Option<RegionDescriptor> {
    let ix = find_from(s, 'x', 0);
    if ix < 0 {
        None
    } else {
        let p1 = find_from(s, '+', ix + 1);
        if p1 < 0 {
            None
        } else {
            let p2 = find_from(s, '+', p1 + 1);
            if p2 < 0 {
                None
            } else {
                let w = spec_parse_u32(s.subrange(0, ix));
                let h = spec_parse_u32(s.subrange(ix + 1, p1));
                let x = spec_parse_u32(s.subrange(p1 + 1, p2));
                let y = spec_parse_u32(s.subrange(p2 + 1, s.len() as int));
                match (w, h, x, y) {
                    (Some(wv), Some(hv), Some(xv), Some(yv)) => if wv > 0 && hv > 0 {
                        Some(RegionDescriptor { x: xv, y: yv, width: wv, height: hv })
                    } else {
                        None
                    },
                    _ => None,
                }
            }
        }
    }
}

/// Parses a geometry token `WxH+X+Y` into a region descriptor.
pub fn parse_geometry(v: &Vec<char>) -> (r: Option<RegionDescriptor>)
    ensures
        r == spec_parse_geometry(v@),
{
    let n = v.len();
    let ix = match find_char(v, 'x', 0) {
        Some(k) => k,
        None => {
            return None;
        },
    };
    let p1 = match find_char(v, '+', ix + 1) {
        Some(k) => k,
        None => {
            return None;
        },
    };
    let p2 = match find_char(v, '+', p1 + 1) {
        Some(k) => k,
        None => {
            return None;
        },
    };
    let w = parse_u32(v, 0, ix);
    let h = parse_u32(v, ix + 1, p1);
    let x = parse_u32(v, p1 + 1, p2);
    let y = parse_u32(v, p2 + 1, n);
    match (w, h, x, y) {
        (Some(wv), Some(hv), Some(xv), Some(yv)) => {
            if wv > 0 && hv > 0 {
                Some(RegionDescriptor { x: xv, y: yv, width: wv, height: hv })
            } else {
                None
            }
        },
        _ => None,
    }
}

/// The Wayland tool pair's geometry token `X,Y WxH` of a region: the form
/// its selection tool emits and its capture tool accepts.
pub open spec fn spec_wayland_token(r: RegionDescriptor) -> Seq<char> {
    dec_digits(r.x as nat) + seq![','] + dec_digits(r.y as nat) + seq![' '] + dec_digits(
        r.width as nat,
    ) + seq!['x'] + dec_digits(r.height as nat)
}

/// Formats the Wayland tool pair's geometry token `X,Y WxH` of a region.
pub fn format_wayland_token(r: &RegionDescriptor) -> (g: String)
    ensures
        g@ == spec_wayland_token(*r),
{
    let mut out: Vec<char> = format_u32(r.x);
    out.push(',');
    let mut y = format_u32(r.y);
    out.append(&mut y);
    out.push(' ');
    let mut w = format_u32(r.width);
    out.append(&mut w);
    out.push('x');
    let mut h = format_u32(r.height);
    out.append(&mut h);
    assert(out@ =~= spec_wayland_token(*r));
    chars_to_string(&out)
}

/// What parsing a Wayland geometry token `X,Y WxH` yields: the descriptor,
/// when the separators stand in order, all four components are decimal
/// numbers that fit in 32 bits, and the area is non-empty.
pub open spec fn spec_parse_wayland_token(s: Seq<char>) -> Option<RegionDescriptor> {
    let c = find_from(s, ',', 0);
    if c < 0 {
        None
    } else {
        let sp = find_from(s, ' ', c + 1);
        if sp < 0 {
            None
        } else {
            let ix = find_from(s, 'x', sp + 1);
            if ix < 0 {
                None
            } else {
                let x = spec_parse_u32(s.subrange(0, c));
                let y = spec_parse_u32(s.subrange(c + 1, sp));
                let w = spec_parse_u32(s.subrange(sp + 1, ix));
                let h = spec_parse_u32(s.subrange(ix + 1, s.len() as int));
                match (x, y, w, h) {
                    (Some(xv), Some(yv), Some(wv), Some(hv)) => if wv > 0 && hv > 0 {
                        Some(RegionDescriptor { x: xv, y: yv, width: wv, height: hv })
                    } else {
                        None
                    },
                    _ => None,
                }
            }
        }
    }
}

/// Parses a Wayland geometry token `X,Y WxH` into a region descriptor.
pub fn parse_wayland_token(v: &Vec<char>) -> (r: Option<RegionDescriptor>)
    ensures
        r == spec_parse_wayland_token(v@),
{
    let n = v.len();
    let c = match find_char(v, ',', 0) {
        Some(k) => k,
        None => {
            return None;
        },
    };
    let sp = match find_char(v, ' ', c + 1) {
        Some(k) => k,
        None => {
            return None;
        },
    };
    let ix = match find_char(v, 'x', sp + 1) {
        Some(k) => k,
        None => {
            return None;
        },
    };
    let x = parse_u32(v, 0, c);
    let y = parse_u32(v, c + 1, sp);
    let w = parse_u32(v, sp + 1, ix);
    let h = parse_u32(v, ix + 1, n);
    match (x, y, w, h) {
        (Some(xv), Some(yv), Some(wv), Some(hv)) => {
            if wv > 0 && hv > 0 {
                Some(RegionDescriptor { x: xv, y: yv, width: wv, height: hv })
            } else {
                None
            }
        },
        _ => None,
    }
}

/// What parsing the four-field selector output `x,y,w,h` yields: the
/// descriptor, when at least four comma-separated fields stand there, the
/// first four are decimal numbers that fit in 32 bits, and the area is
/// non-empty.
pub open spec fn spec_parse_fields(s: Seq<char>) -> Option<RegionDescriptor> {
    let c1 = find_from(s, ',', 0);
    if c1 < 0 {
        None
    } else {
        let c2 = find_from(s, ',', c1 + 1);
        if c2 < 0 {
            None
        } else {
            let c3 = find_from(s, ',', c2 + 1);
            if c3 < 0 {
                None
            } else {
                let c4 = find_from(s, ',', c3 + 1);
                let e4 = if c4 < 0 {
                    s.len() as int
                } else {
                    c4
                };
                let x = spec_parse_u32(s.subrange(0, c1));
                let y = spec_parse_u32(s.subrange(c1 + 1, c2));
                let w = spec_parse_u32(s.subrange(c2 + 1, c3));
                let h = spec_parse_u32(s.subrange(c3 + 1, e4));
                match (x, y, w, h) {
                    (Some(xv), Some(yv), Some(wv), Some(hv)) => if wv > 0 && hv > 0 {
                        Some(RegionDescriptor { x: xv, y: yv, width: wv, height: hv })
                    } else {
                        None
                    },
                    _ => None,
                }
            }
        }
    }
}

/// Parses the selector's four-field output `x,y,w,h` into a region
/// descriptor.
pub fn parse_fields(v: &Vec<char>) -> (r: Option<RegionDescriptor>)
    ensures
        r == spec_parse_fields(v@),
{
    let n = v.len();
    let c1 = match find_char(v, ',', 0) {
        Some(k) => k,
        None => {
            return None;
        },
    };
    let c2 = match find_char(v, ',', c1 + 1) {
        Some(k) => k,
        None => {
            return None;
        },
    };
    let c3 = match find_char(v, ',', c2 + 1) {
        Some(k) => k,
        None => {
            return None;
        },
    };
    let e4 = match find_char(v, ',', c3 + 1) {
        Some(k) => k,
        None => n,
    };
    let x = parse_u32(v, 0, c1);
    let y = parse_u32(v, c1 + 1, c2);
    let w = parse_u32(v, c2 + 1, c3);
    let h = parse_u32(v, c3 + 1, e4);
    match (x, y, w, h) {
        (Some(xv), Some(yv), Some(wv), Some(hv)) => {
            if wv > 0 && hv > 0 {
                Some(RegionDescriptor { x: xv, y: yv, width: wv, height: hv })
            } else {
                None
            }
        },
        _ => None,
    }
}

/// What `select_region` returns, over the trimmed tool output: the
/// selection stage's full outcome.
pub open spec fn spec_select_region(
    kind: DisplayServerKind,
    spawned: bool,
    exit_ok: bool,
    stdout: Seq<char>,
) -> Result<RegionDescriptor, PipelineError> {
    if !spawned {
        Err(PipelineError::RegionSelectionCancelled { tool_missing: true })
    } else if !exit_ok {
        Err(PipelineError::RegionSelectionCancelled { tool_missing: false })
    } else {
        let parsed = match kind {
            DisplayServerKind::Wayland => spec_parse_wayland_token(spec_trim(stdout)),
            DisplayServerKind::X11 => spec_parse_fields(spec_trim(stdout)),
        };
        match parsed {
            Some(r) => Ok(r),
            None => Err(PipelineError::InvalidRegionFormat),
        }
    }
}

/// Normalizes one run of the region-selection tool into a region
/// descriptor.
///
/// `spawned` is whether the tool could be started at all and `exit_ok`
/// whether it exited successfully; `stdout` is its output. A tool that
/// could not be started or did not exit successfully means the selection
/// was cancelled (the error records which occurred). Output that does not
/// parse under the detected display server's encoding — the `X,Y WxH`
/// geometry token on Wayland, the four comma-separated fields on X11 — is
/// `InvalidRegionFormat`.
pub fn select_region(
    kind: DisplayServerKind,
    spawned: bool,
    exit_ok: bool,
    stdout: &str,
) -> (r: Result<RegionDescriptor, PipelineError>)
    ensures
        r == spec_select_region(kind, spawned, exit_ok, stdout@),
        r matches Ok(region) ==> region.wf(),
{
    if !spawned {
        return Err(PipelineError::RegionSelectionCancelled { tool_missing: true });
    }
    if !exit_ok {
        return Err(PipelineError::RegionSelectionCancelled { tool_missing: false });
    }
    let chars = str_chars(stdout);
    let trimmed = trim_chars(&chars);
    let parsed = match kind {
        DisplayServerKind::Wayland => parse_wayland_token(&trimmed),
        DisplayServerKind::X11 => parse_fields(&trimmed),
    };
    match parsed {
        Some(region) => Ok(region),
        None => Err(PipelineError::InvalidRegionFormat),
    }
}

/// No decimal digit is a separator character of either grammar.
proof fn lemma_digits_not_separator(s: Seq<char>)
    requires
        all_dec_digits(s),
    ensures
        forall|j: int|
            0 <= j < s.len() ==> s[j] != 'x' && s[j] != '+' && s[j] != ',' && s[j] != ' ',
{
    assert forall|j: int|
        0 <= j < s.len() implies s[j] != 'x' && s[j] != '+' && s[j] != ',' && s[j] != ' ' by {
        assert(is_dec_digit(s[j]));
    }
}

/// The round-trip law of the two textual encodings: formatting a non-empty
/// region as the geometry string `WxH+X+Y` and parsing that string back
/// yields the region unchanged — its four components survive exactly.
pub proof fn lemma_geometry_round_trip(r: RegionDescriptor)
    requires
        r.wf(),
    ensures
        spec_parse_geometry(spec_geometry(r)) == Some(r),
{
    let dw = dec_digits(r.width as nat);
    let dh = dec_digits(r.height as nat);
    let dx = dec_digits(r.x as nat);
    let dy = dec_digits(r.y as nat);
    lemma_dec_digits_value(r.width as nat);
    lemma_dec_digits_value(r.height as nat);
    lemma_dec_digits_value(r.x as nat);
    lemma_dec_digits_value(r.y as nat);
    lemma_digits_not_separator(dw);
    lemma_digits_not_separator(dh);
    lemma_digits_not_separator(dx);
    lemma_digits_not_separator(dy);
    let g = spec_geometry(r);
    let a = dw.len() as int;
    let p1 = a + 1 + dh.len() as int;
    let p2 = p1 + 1 + dx.len() as int;
    assert(g.len() == dw.len() + 1 + dh.len() + 1 + dx.len() + 1 + dy.len());
    assert(g[a] == 'x');
    assert(g[p1] == '+');
    assert(g[p2] == '+');
    assert(forall|j: int| 0 <= j < a ==> #[trigger] g[j] == dw[j]);
    assert(forall|j: int| a + 1 <= j < p1 ==> #[trigger] g[j] == dh[j - (a + 1)]);
    assert(forall|j: int| p1 + 1 <= j < p2 ==> #[trigger] g[j] == dx[j - (p1 + 1)]);
    assert(forall|j: int| p2 + 1 <= j < g.len() ==> #[trigger] g[j] == dy[j - (p2 + 1)]);
    lemma_find_from_found(g, 'x', 0, a);
    lemma_find_from_found(g, '+', a + 1, p1);
    lemma_find_from_found(g, '+', p1 + 1, p2);
    assert(g.subrange(0, a) =~= dw);
    assert(g.subrange(a + 1, p1) =~= dh);
    assert(g.subrange(p1 + 1, p2) =~= dx);
    assert(g.subrange(p2 + 1, g.len() as int) =~= dy);
}

/// The selection round trip: a region parsed from valid four-field
/// selector output, formatted as a geometry string and re-parsed, carries
/// the same four integers it started with.
pub proof fn lemma_selector_round_trip(s: Seq<char>, r: RegionDescriptor)
    requires
        spec_parse_fields(s) == Some(r),
    ensures
        spec_parse_geometry(spec_geometry(r)) == Some(r),
{
    lemma_geometry_round_trip(r);
}

/// The round-trip law of the Wayland grammar: formatting a non-empty
/// region as the token `X,Y WxH` and parsing that token back yields the
/// region unchanged.
pub proof fn lemma_wayland_token_round_trip(r: RegionDescriptor)
    requires
        r.wf(),
    ensures
        spec_parse_wayland_token(spec_wayland_token(r)) == Some(r),
{
    let dx = dec_digits(r.x as nat);
    let dy = dec_digits(r.y as nat);
    let dw = dec_digits(r.width as nat);
    let dh = dec_digits(r.height as nat);
    lemma_dec_digits_value(r.x as nat);
    lemma_dec_digits_value(r.y as nat);
    lemma_dec_digits_value(r.width as nat);
    lemma_dec_digits_value(r.height as nat);
    lemma_digits_not_separator(dx);
    lemma_digits_not_separator(dy);
    lemma_digits_not_separator(dw);
    lemma_digits_not_separator(dh);
    let g = spec_wayland_token(r);
    let c = dx.len() as int;
    let sp = c + 1 + dy.len() as int;
    let ix = sp + 1 + dw.len() as int;
    assert(g.len() == dx.len() + 1 + dy.len() + 1 + dw.len() + 1 + dh.len());
    assert(g[c] == ',');
    assert(g[sp] == ' ');
    assert(g[ix] == 'x');
    assert(forall|j: int| 0 <= j < c ==> #[trigger] g[j] == dx[j]);
    assert(forall|j: int| c + 1 <= j < sp ==> #[trigger] g[j] == dy[j - (c + 1)]);
    assert(forall|j: int| sp + 1 <= j < ix ==> #[trigger] g[j] == dw[j - (sp + 1)]);
    assert(forall|j: int| ix + 1 <= j < g.len() ==> #[trigger] g[j] == dh[j - (ix + 1)]);
    lemma_find_from_found(g, ',', 0, c);
    lemma_find_from_found(g, ' ', c + 1, sp);
    lemma_find_from_found(g, 'x', sp + 1, ix);
    assert(g.subrange(0, c) =~= dx);
    assert(g.subrange(c + 1, sp) =~= dy);
    assert(g.subrange(sp + 1, ix) =~= dw);
    assert(g.subrange(ix + 1, g.len() as int) =~= dh);
}

/// A Wayland token starts and ends with a digit, so trimming leaves it
/// unchanged.
proof fn lemma_wayland_token_survives_trim(r: RegionDescriptor)
    ensures
        spec_trim(spec_wayland_token(r)) == spec_wayland_token(r),
{
    let g = spec_wayland_token(r);
    let dx = dec_digits(r.x as nat);
    let dh = dec_digits(r.height as nat);
    lemma_dec_digits_value(r.x as nat);
    lemma_dec_digits_value(r.height as nat);
    assert(g[0] == dx[0]);
    assert(is_dec_digit(g[0]));
    assert(g[g.len() - 1] == dh[dh.len() - 1]);
    assert(is_dec_digit(g[g.len() - 1]));
    assert(crate::strutil::trim_lo(g, 0) == 0);
    assert(crate::strutil::trim_hi(g, g.len() as int) == g.len() as int);
    assert(spec_trim(g) =~= g);
}

/// The Wayland carry-through is faithful: a non-empty region, formatted as
/// the token its capture tool takes and handed back through region
/// selection — trimming included — yields exactly that region. So for a
/// canonical selector token the string handed to the capture tool is the
/// token itself.
pub proof fn lemma_select_region_round_trip(r: RegionDescriptor)
    requires
        r.wf(),
    ensures
        spec_select_region(
            DisplayServerKind::Wayland,
            true,
            true,
            spec_wayland_token(r),
        ) == Ok::<RegionDescriptor, PipelineError>(r),
{
    lemma_wayland_token_survives_trim(r);
    lemma_wayland_token_round_trip(r);
}

/// The geometry string the capture stage hands its tool: the display
/// server's own grammar — the selector's token form on Wayland, `WxH+X+Y`
/// on X11.
pub open spec fn spec_capture_geometry(kind: DisplayServerKind, r: RegionDescriptor) -> Seq<
    char,
> {
    match kind {
        DisplayServerKind::Wayland => spec_wayland_token(r),
        DisplayServerKind::X11 => spec_geometry(r),
    }
}

/// Formats the capture tool's geometry string for this display server.
pub fn format_capture_geometry(kind: DisplayServerKind, r: &RegionDescriptor) -> (g: String)
    ensures
        g@ == spec_capture_geometry(kind, *r),
{
    match kind {
        DisplayServerKind::Wayland => format_wayland_token(r),
        DisplayServerKind::X11 => format_geometry(r),
    }
}

} // verus!
