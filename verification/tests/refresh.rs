use eink_refresh::common::{
    MxcfbRect, DISPLAYHEIGHT, DISPLAYWIDTH, EPDC_FLAG_TEST_COLLISION, UPDATE_MODE_FULL,
    UPDATE_MODE_PARTIAL,
};
use eink_refresh::refresh::{
    completion_collision, partial_refresh_result, Framebuffer, PartialRefreshMode,
    MIN_SEND_UPDATE_DIMENSION_PX,
};

#[test]
fn small_region_is_raised_to_minimum_dimension() {
    // A 10x10 request at the origin against the 1404x1872 device is
    // dispatched as a 32x32 region.
    let mut fb = Framebuffer::new(DISPLAYWIDTH, DISPLAYHEIGHT);
    let region = MxcfbRect { top: 0, left: 0, width: 10, height: 10 };
    let req = fb
        .partial_refresh(&region, PartialRefreshMode::Async, 2, 0, 0, 0)
        .unwrap();
    assert_eq!(
        req.update_region,
        MxcfbRect { top: 0, left: 0, width: 32, height: 32 }
    );
}

#[test]
fn region_near_bottom_edge_is_clamped_to_device_height() {
    // A 32x32 request at top 1870 against height 1872: the height is cut to
    // exactly reach the edge (2), the width stays 32.
    let mut fb = Framebuffer::new(DISPLAYWIDTH, DISPLAYHEIGHT);
    let region = MxcfbRect { top: 1870, left: 0, width: 32, height: 32 };
    let req = fb
        .partial_refresh(&region, PartialRefreshMode::Async, 2, 0, 0, 0)
        .unwrap();
    assert_eq!(
        req.update_region,
        MxcfbRect { top: 1870, left: 0, width: 32, height: 2 }
    );
}

#[test]
fn region_near_right_edge_is_clamped_to_device_width() {
    let mut fb = Framebuffer::new(DISPLAYWIDTH, DISPLAYHEIGHT);
    let region = MxcfbRect { top: 100, left: 1390, width: 5, height: 40 };
    let req = fb
        .partial_refresh(&region, PartialRefreshMode::Async, 2, 0, 0, 0)
        .unwrap();
    // Width raised to 32, then cut back to 1404 - 1390 = 14.
    assert_eq!(
        req.update_region,
        MxcfbRect { top: 100, left: 1390, width: 14, height: 40 }
    );
}

#[test]
fn minimum_dimension_applies_to_both_edges() {
    let mut fb = Framebuffer::new(DISPLAYWIDTH, DISPLAYHEIGHT);
    let region = MxcfbRect { top: 200, left: 100, width: 5, height: 7 };
    let req = fb
        .partial_refresh(&region, PartialRefreshMode::Async, 2, 0, 0, 0)
        .unwrap();
    assert_eq!(req.update_region.width, MIN_SEND_UPDATE_DIMENSION_PX);
    assert_eq!(req.update_region.height, MIN_SEND_UPDATE_DIMENSION_PX);
}

#[test]
fn out_of_bounds_top_is_dropped_without_dispatch() {
    let mut fb = Framebuffer::new(DISPLAYWIDTH, DISPLAYHEIGHT);
    let region = MxcfbRect { top: DISPLAYHEIGHT, left: 0, width: 10, height: 10 };
    let r = fb.partial_refresh(&region, PartialRefreshMode::Wait, 2, 0, 0, 0);
    assert!(r.is_none());
    // No marker is consumed: a dropped request makes no device call.
    assert_eq!(fb.marker, 1);
}

#[test]
fn out_of_bounds_left_is_dropped_without_dispatch() {
    let mut fb = Framebuffer::new(DISPLAYWIDTH, DISPLAYHEIGHT);
    let region = MxcfbRect { top: 0, left: DISPLAYWIDTH, width: 10, height: 10 };
    let r = fb.partial_refresh(&region, PartialRefreshMode::Async, 2, 0, 0, 0);
    assert!(r.is_none());
    assert_eq!(fb.marker, 1);
}

#[test]
fn markers_strictly_increase_across_dispatches() {
    let mut fb = Framebuffer::new(DISPLAYWIDTH, DISPLAYHEIGHT);
    let first = fb.full_refresh(2, 0, 0, 0);
    let region = MxcfbRect { top: 0, left: 0, width: 100, height: 100 };
    let second = fb
        .partial_refresh(&region, PartialRefreshMode::Async, 2, 0, 0, 0)
        .unwrap();
    let third = fb.full_refresh(2, 0, 0, 0);
    assert!(second.update_marker > first.update_marker);
    assert!(third.update_marker > second.update_marker);
}

#[test]
fn full_refresh_covers_the_whole_screen() {
    let mut fb = Framebuffer::new(DISPLAYWIDTH, DISPLAYHEIGHT);
    let req = fb.full_refresh(3, 0x1000, 1, 0);
    assert_eq!(req.update_mode, UPDATE_MODE_FULL);
    assert_eq!(
        req.update_region,
        MxcfbRect { top: 0, left: 0, width: DISPLAYWIDTH, height: DISPLAYHEIGHT }
    );
    assert_eq!(req.flags, 0);
    assert_eq!(req.waveform_mode, 3);
    assert_eq!(req.temp, 0x1000);
    assert_eq!(req.dither_mode, 1);
    // The marker used is returned even without waiting, and the counter has
    // advanced past it.
    assert_eq!(req.update_marker, 1);
    assert_eq!(fb.marker, 2);
}

#[test]
fn dry_run_sets_the_collision_test_flag() {
    let mut fb = Framebuffer::new(DISPLAYWIDTH, DISPLAYHEIGHT);
    let region = MxcfbRect { top: 0, left: 0, width: 64, height: 64 };
    let dry = fb
        .partial_refresh(&region, PartialRefreshMode::DryRun, 2, 0, 0, 0)
        .unwrap();
    let wait = fb
        .partial_refresh(&region, PartialRefreshMode::Wait, 2, 0, 0, 0)
        .unwrap();
    let asynchronous = fb
        .partial_refresh(&region, PartialRefreshMode::Async, 2, 0, 0, 0)
        .unwrap();
    assert_eq!(dry.flags, EPDC_FLAG_TEST_COLLISION);
    assert_eq!(wait.flags, 0);
    assert_eq!(asynchronous.flags, 0);
    assert_eq!(dry.update_mode, UPDATE_MODE_PARTIAL);
}

#[test]
fn async_mode_returns_the_marker() {
    assert_eq!(partial_refresh_result(PartialRefreshMode::Async, 17, None), 17);
}

#[test]
fn wait_and_dry_run_return_the_collision_flag() {
    assert_eq!(partial_refresh_result(PartialRefreshMode::Wait, 17, Some(7)), 7);
    assert_eq!(partial_refresh_result(PartialRefreshMode::DryRun, 17, Some(0)), 0);
    assert_eq!(partial_refresh_result(PartialRefreshMode::Wait, 17, Some(0)), 0);
}

#[test]
fn failed_wait_degrades_to_the_neutral_value() {
    assert_eq!(partial_refresh_result(PartialRefreshMode::Wait, 17, None), 0);
    assert_eq!(completion_collision(None), 0);
    assert_eq!(completion_collision(Some(5)), 5);
}

#[test]
fn only_async_mode_skips_the_completion_wait() {
    assert!(!PartialRefreshMode::Async.waits_for_completion());
    assert!(PartialRefreshMode::Wait.waits_for_completion());
    assert!(PartialRefreshMode::DryRun.waits_for_completion());
}
