use montecapcho::display::{detect, DisplayServerKind};

#[test]
fn explicit_wayland_session_wins() {
    let r = detect(&Some("wayland".to_string()), false, true);
    assert_eq!(r, DisplayServerKind::Wayland);
}

#[test]
fn explicit_x11_session_wins() {
    let r = detect(&Some("x11".to_string()), true, false);
    assert_eq!(r, DisplayServerKind::X11);
}

#[test]
fn unknown_session_falls_back_to_wayland_indicator() {
    let r = detect(&Some("tty".to_string()), true, true);
    assert_eq!(r, DisplayServerKind::Wayland);
}

#[test]
fn x11_indicator_selects_x11() {
    let r = detect(&None, false, true);
    assert_eq!(r, DisplayServerKind::X11);
}

#[test]
fn no_indicator_defaults_to_x11() {
    let r = detect(&None, false, false);
    assert_eq!(r, DisplayServerKind::X11);
}
