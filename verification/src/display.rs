//! Display-server detection.
//!
//! Decides whether the host session is Wayland or X11 from read-only
//! environment indicators, in a fixed priority order. The caller hands in
//! the indicators as plain values; no failure mode exists.

use vstd::prelude::*;

verus! {

/// The windowing-system protocol of the host session.
#[derive(Debug, Clone, Copy, PartialEq, Eq, Structural)]
pub enum DisplayServerKind {
    Wayland,
    X11,
}

/// The view of an optional environment-variable value.
pub open spec fn opt_string_view(o: Option<String>) -> Option<Seq<char>> {
    match o {
        Some(s) => Some(s@),
        None => None,
    }
}

/// What `detect` decides, in the fixed priority order: an explicit
/// session-type value of "wayland" or "x11" wins outright; absent that, a
/// present Wayland display indicator selects Wayland; absent that, a present
/// X11 display indicator selects X11; otherwise X11.
pub open spec fn spec_detect(
    session_type: Option<Seq<char>>,
    wayland_display_set: bool,
    x11_display_set: bool,
) -> DisplayServerKind {
    if session_type matches Some(s) && s == "wayland"@ {
        DisplayServerKind::Wayland
    } else if session_type matches Some(s) && s == "x11"@ {
        DisplayServerKind::X11
    } else if wayland_display_set {
        DisplayServerKind::Wayland
    } else if x11_display_set {
        DisplayServerKind::X11
    } else {
        DisplayServerKind::X11
    }
}

/// Decides the display server from the session-type variable's value and
/// from whether the two display-endpoint variables are present.
pub fn detect(
    session_type: &Option<String>,
    wayland_display_set: bool,
    x11_display_set: bool,
) -> (r: DisplayServerKind)
    ensures
        r == spec_detect(opt_string_view(*session_type), wayland_display_set, x11_display_set),
{
    if let Some(s) = session_type {
        let wayland = String::from_str("wayland");
        if *s == wayland {
            return DisplayServerKind::Wayland;
        }
        let x11 = String::from_str("x11");
        if *s == x11 {
            return DisplayServerKind::X11;
        }
    }
    if wayland_display_set {
        DisplayServerKind::Wayland
    } else if x11_display_set {
        DisplayServerKind::X11
    } else {
        DisplayServerKind::X11
    }
}

} // verus!
