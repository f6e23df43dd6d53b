use flaretro::video::{
    av_geometry, frame_shade, system_info, viewport, FrameCounter, Geometry, Shade, SystemInfo,
    Viewport, VIDEO_HEIGHT, VIDEO_WIDTH,
};

#[test]
fn fresh_counter_starts_at_zero() {
    let c = FrameCounter::new();
    assert_eq!(c.current(), 0);
}

#[test]
fn first_frame_is_dark_and_full_size() {
    let mut c = FrameCounter::new();
    let plan = c.next_frame();
    assert_eq!(plan.shade, Shade::Dark);
    assert_eq!(plan.viewport, Viewport { x: 0, y: 0, width: 664, height: 360 });
    assert_eq!(plan.present_width, 664);
    assert_eq!(plan.present_height, 360);
    assert_eq!(plan.present_pitch, usize::MAX);
    assert_eq!(c.current(), 2);
}

#[test]
fn frame_blinks_every_sixty_four_frames() {
    let mut c = FrameCounter::new();
    for frame in 0..512usize {
        let plan = c.next_frame();
        let expected = if frame % 128 < 64 { Shade::Dark } else { Shade::Light };
        assert_eq!(plan.shade, expected, "frame {}", frame);
    }
}

#[test]
fn counter_wraps_after_one_hundred_twenty_eight_frames() {
    let mut c = FrameCounter::new();
    for _ in 0..127 {
        c.next_frame();
    }
    assert_eq!(c.current(), 254);
    c.next_frame();
    assert_eq!(c.current(), 0);
}

#[test]
fn counter_stays_even() {
    let mut c = FrameCounter::new();
    for _ in 0..300 {
        c.next_frame();
        assert_eq!(c.current() % 2, 0);
    }
}

#[test]
fn shade_switches_at_half_range() {
    assert_eq!(frame_shade(0), Shade::Dark);
    assert_eq!(frame_shade(127), Shade::Dark);
    assert_eq!(frame_shade(128), Shade::Light);
    assert_eq!(frame_shade(255), Shade::Light);
}

#[test]
fn geometry_is_fixed_size() {
    assert_eq!(
        av_geometry(),
        Geometry { base_width: 664, base_height: 360, max_width: 664, max_height: 360 }
    );
    assert_eq!(VIDEO_WIDTH, 664);
    assert_eq!(VIDEO_HEIGHT, 360);
}

#[test]
fn frames_match_reported_geometry() {
    let g = av_geometry();
    let mut c = FrameCounter::new();
    let plan = c.next_frame();
    assert_eq!(plan.present_width, g.base_width);
    assert_eq!(plan.present_height, g.base_height);
    assert_eq!(plan.viewport.width as u32, g.base_width);
    assert_eq!(plan.viewport.height as u32, g.base_height);
    assert_eq!(viewport(), plan.viewport);
}

#[test]
fn system_info_flags() {
    assert_eq!(
        system_info(),
        SystemInfo { need_fullpath: true, block_extract: true, has_valid_extensions: false }
    );
}
