use montecapcho::display::DisplayServerKind;
use montecapcho::errors::PipelineError;
use montecapcho::region::{
    format_capture_geometry, format_geometry, format_wayland_token, parse_fields, parse_geometry,
    parse_wayland_token, select_region, RegionDescriptor,
};

fn chars(s: &str) -> Vec<char> {
    s.chars().collect()
}

#[test]
fn select_region_parses_four_fields() {
    let r = select_region(DisplayServerKind::X11, true, true, "10,20,300,400\n").unwrap();
    assert_eq!(r, RegionDescriptor { x: 10, y: 20, width: 300, height: 400 });
}

#[test]
fn geometry_round_trip_recovers_fields() {
    let r = select_region(DisplayServerKind::X11, true, true, "10,20,300,400").unwrap();
    let geometry = format_geometry(&r);
    assert_eq!(geometry, "300x400+10+20");
    let back = parse_geometry(&chars(&geometry)).unwrap();
    assert_eq!(back, r);
}

#[test]
fn geometry_round_trip_small_region() {
    let r = RegionDescriptor { x: 0, y: 0, width: 1, height: 1 };
    let geometry = format_geometry(&r);
    assert_eq!(geometry, "1x1+0+0");
    assert_eq!(parse_geometry(&chars(&geometry)), Some(r));
}

#[test]
fn fewer_than_four_fields_is_invalid_format() {
    let r = select_region(DisplayServerKind::X11, true, true, "10,20,300");
    assert_eq!(r, Err(PipelineError::InvalidRegionFormat));
}

#[test]
fn non_numeric_fields_are_invalid_format() {
    let r = select_region(DisplayServerKind::X11, true, true, "a,b,c,d");
    assert_eq!(r, Err(PipelineError::InvalidRegionFormat));
}

#[test]
fn zero_area_region_is_invalid_format() {
    let r = select_region(DisplayServerKind::X11, true, true, "5,5,0,7");
    assert_eq!(r, Err(PipelineError::InvalidRegionFormat));
}

#[test]
fn extra_fields_are_tolerated() {
    let r = select_region(DisplayServerKind::X11, true, true, "1,2,3,4,junk").unwrap();
    assert_eq!(r, RegionDescriptor { x: 1, y: 2, width: 3, height: 4 });
}

#[test]
fn wayland_token_is_normalized() {
    let r = select_region(DisplayServerKind::Wayland, true, true, "10,20 300x400\n").unwrap();
    assert_eq!(r, RegionDescriptor { x: 10, y: 20, width: 300, height: 400 });
}

#[test]
fn wayland_token_survives_the_carry_through() {
    let r = select_region(DisplayServerKind::Wayland, true, true, "1,2 3x4").unwrap();
    assert_eq!(format_wayland_token(&r), "1,2 3x4");
    assert_eq!(format_capture_geometry(DisplayServerKind::Wayland, &r), "1,2 3x4");
    assert_eq!(format_capture_geometry(DisplayServerKind::X11, &r), "3x4+1+2");
}

#[test]
fn x11_geometry_is_not_a_wayland_token() {
    let r = select_region(DisplayServerKind::Wayland, true, true, "300x400+10+20");
    assert_eq!(r, Err(PipelineError::InvalidRegionFormat));
}

#[test]
fn wayland_token_needs_all_separators() {
    assert_eq!(parse_wayland_token(&chars("10,20 300")), None);
    assert_eq!(parse_wayland_token(&chars("10 300x400")), None);
    assert_eq!(parse_wayland_token(&chars("10,20 300x0")), None);
    assert_eq!(
        parse_wayland_token(&chars("0,0 1x1")),
        Some(RegionDescriptor { x: 0, y: 0, width: 1, height: 1 })
    );
}

#[test]
fn cancelled_selection_reports_cancellation() {
    let r = select_region(DisplayServerKind::Wayland, true, false, "");
    assert_eq!(r, Err(PipelineError::RegionSelectionCancelled { tool_missing: false }));
}

#[test]
fn missing_selection_tool_is_reported_as_such() {
    let r = select_region(DisplayServerKind::X11, false, false, "");
    assert_eq!(r, Err(PipelineError::RegionSelectionCancelled { tool_missing: true }));
}

#[test]
fn parse_fields_rejects_overflowing_numbers() {
    assert_eq!(parse_fields(&chars("1,2,3,4294967296")), None);
    assert_eq!(
        parse_fields(&chars("1,2,3,4294967295")),
        Some(RegionDescriptor { x: 1, y: 2, width: 3, height: 4294967295 })
    );
}

#[test]
fn parse_geometry_needs_all_separators() {
    assert_eq!(parse_geometry(&chars("300x400+10")), None);
    assert_eq!(parse_geometry(&chars("300400+10+20")), None);
    assert_eq!(parse_geometry(&chars("")), None);
}
