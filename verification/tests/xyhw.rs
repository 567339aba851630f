use leftwm_core::layouts::Layouts;
use leftwm_core::models::{decimal_label, Screen, Workspace, Xyhw, XyhwBuilder};

fn region(x: i32, y: i32, w: i32, h: i32) -> Xyhw {
    XyhwBuilder { x, y, w, h }.into()
}

fn parts(region: Xyhw) -> (i32, i32, i32, i32) {
    (region.x(), region.y(), region.w(), region.h())
}

#[test]
fn builder_defaults_to_nothing_at_the_origin() {
    let builder = XyhwBuilder::default();
    assert_eq!((builder.x, builder.y, builder.w, builder.h), (0, 0, 0, 0));
    assert_eq!(parts(builder.into()), (0, 0, 0, 0));
    assert_eq!(parts(Xyhw::default()), (0, 0, 0, 0));
}

#[test]
fn region_keeps_valid_values() {
    assert_eq!(parts(region(-5, 7, 30, 40)), (-5, 7, 30, 40));
}

#[test]
fn region_clips_a_negative_extent() {
    assert_eq!(parts(region(3, 4, -1, -100)), (3, 4, 0, 0));
}

#[test]
fn region_clips_at_the_last_coordinate() {
    assert_eq!(parts(region(i32::MAX - 10, 1, 11, i32::MAX)), (i32::MAX - 10, 1, 10, i32::MAX - 1));
    assert_eq!(parts(region(i32::MIN, 0, i32::MAX, 5)), (i32::MIN, 0, i32::MAX, 5));
}

#[test]
fn no_maximum_leaves_the_region() {
    let r = region(10, 20, 1000, 500);
    assert_eq!(r.width_limited(None, 1), 1000);
    assert_eq!(r.x_limited(None, 1), 10);
    assert_eq!(r.limited(None, 3), r);
}

#[test]
fn maximum_limits_and_centres() {
    let r = region(10, 20, 1000, 500);
    assert_eq!(r.width_limited(Some(300), 1), 300);
    assert_eq!(r.x_limited(Some(300), 1), 360);
    assert_eq!(r.width_limited(Some(300), 2), 600);
    assert_eq!(r.x_limited(Some(300), 2), 210);
    assert_eq!(parts(r.limited(Some(300), 3)), (60, 20, 900, 500));
}

#[test]
fn maximum_wider_than_the_region_changes_nothing() {
    let r = region(10, 20, 1000, 500);
    assert_eq!(r.width_limited(Some(300), 4), 1000);
    assert_eq!(r.x_limited(Some(300), 4), 10);
    assert_eq!(r.width_limited(Some(u32::MAX), usize::MAX), 1000);
    assert_eq!(r.x_limited(Some(u32::MAX), usize::MAX), 10);
    assert_eq!(r.width_limited(Some(1000), 1), 1000);
}

#[test]
fn no_column_or_no_width_leaves_nothing() {
    let r = region(10, 20, 1000, 500);
    assert_eq!(r.width_limited(Some(300), 0), 0);
    assert_eq!(r.x_limited(Some(300), 0), 510);
    assert_eq!(r.width_limited(Some(0), 5), 0);
}

#[test]
fn odd_rest_is_centred_to_the_left() {
    let r = region(0, 0, 11, 1);
    assert_eq!(r.width_limited(Some(4), 1), 4);
    assert_eq!(r.x_limited(Some(4), 1), 3);
}

#[test]
fn limited_region_at_the_edge_of_the_grid() {
    let r = region(i32::MAX - 100, 0, 100, 10);
    assert_eq!(parts(r.limited(Some(10), 1)), (i32::MAX - 55, 0, 10, 10));
}

#[test]
fn workspace_limits_by_its_own_maximum() {
    let workspace = Workspace::new(Some(2), region(0, 5, 800, 600), Layouts::Monocle, Some(200));
    assert_eq!(workspace.width_limited(1), 200);
    assert_eq!(workspace.x_limited(1), 300);
    assert_eq!(workspace.width_limited(5), 800);
    assert_eq!(workspace.x_limited(5), 0);
    assert_eq!((workspace.x(), workspace.y(), workspace.width(), workspace.height()), (0, 5, 800, 600));
    assert_eq!(parts(workspace.container(2)), (200, 5, 400, 600));
}

#[test]
fn default_screen_asks_for_nothing() {
    let screen = Screen::default();
    assert_eq!(parts(screen.bbox), (0, 0, 0, 0));
    assert_eq!(screen.wsid, None);
    assert_eq!(screen.max_window_width, None);
}

#[test]
fn decimal_labels() {
    assert_eq!(decimal_label(0), "0");
    assert_eq!(decimal_label(7), "7");
    assert_eq!(decimal_label(10), "10");
    assert_eq!(decimal_label(1905), "1905");
    assert_eq!(decimal_label(usize::MAX), usize::MAX.to_string());
}
