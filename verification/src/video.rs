use vstd::prelude::*;

verus! {

/// Width in pixels of every frame the core presents.
pub const VIDEO_WIDTH: u32 = 664;

/// Height in pixels of every frame the core presents.
pub const VIDEO_HEIGHT: u32 = 360;

/// Whether the clear colour of a frame is the darker or the lighter grey.
#[derive(PartialEq, Eq, Structural, Clone, Copy, Debug)]
pub enum Shade {
    Dark,
    Light,
}

/// The shade of the frame drawn while the frame counter holds `count`.
pub open spec fn shade_of(count: u8) -> Shade {
    if count <= 127 {
        Shade::Dark
    } else {
        Shade::Light
    }
}

/// The counter after `frames` frames have been drawn by a fresh counter.
pub open spec fn count_after(frames: nat) -> u8 {
    ((2 * frames) % 256) as u8
}

/// The shade of frame number `frame` (counting from 0) of a fresh counter.
pub open spec fn shade_of_frame(frame: nat) -> Shade {
    if frame % 128 < 64 {
        Shade::Dark
    } else {
        Shade::Light
    }
}

/// The rectangle of the framebuffer that is drawn into.
#[derive(PartialEq, Eq, Structural, Clone, Copy, Debug)]
pub struct Viewport {
    pub x: i32,
    pub y: i32,
    pub width: i32,
    pub height: i32,
}

/// Everything that one run of the core decides about the frame it draws.
#[derive(PartialEq, Eq, Structural, Clone, Copy, Debug)]
pub struct FramePlan {
    /// The grey the framebuffer is cleared to.
    pub shade: Shade,
    /// The area the triangle is drawn into.
    pub viewport: Viewport,
    /// Width reported to the frontend with the finished frame.
    pub present_width: u32,
    /// Height reported to the frontend with the finished frame.
    pub present_height: u32,
    /// Pitch reported to the frontend; a hardware frame has no meaningful
    /// pitch, so the largest value is passed.
    pub present_pitch: usize,
}

/// The frame plan drawn while the counter holds `count`.
pub open spec fn plan_of(count: u8) -> FramePlan {
    FramePlan {
        shade: shade_of(count),
        viewport: Viewport { x: 0, y: 0, width: VIDEO_WIDTH as i32, height: VIDEO_HEIGHT as i32 },
        present_width: VIDEO_WIDTH,
        present_height: VIDEO_HEIGHT,
        present_pitch: usize::MAX,
    }
}

/// The counter that makes the frame blink: it advances by two per frame and
/// wraps around at 256, and the clear colour depends on which half of its
/// range it is in.
pub struct FrameCounter {
    count: u8,
}

impl FrameCounter {
    #[verifier::type_invariant]
    spec fn is_even(self) -> bool {
        self.count % 2 == 0
    }

    /// The value the counter holds.
    pub closed spec fn count(self) -> u8 {
        self.count
    }

    /// A counter before the first frame.
    pub fn new() -> (c: Self)
        ensures
            c.count() == 0,
    {
        FrameCounter { count: 0 }
    }

    /// The value the counter holds; it is always even.
    pub fn current(&self) -> (r: u8)
        ensures
            r == self.count(),
            r % 2 == 0,
    {
        proof {
            use_type_invariant(self);
        }
        self.count
    }

    /// Decides the frame to draw now and advances the counter to the next
    /// frame.
    pub fn next_frame(&mut self) -> (plan: FramePlan)
        ensures
            plan == plan_of(old(self).count()),
            final(self).count() == (old(self).count() + 2) % 256,
            final(self).count() % 2 == 0,
    {
        proof {
            use_type_invariant(&*self);
        }
        let shade = frame_shade(self.count);
        let next: u8 = self.count.wrapping_add(2);
        self.count = next;
        FramePlan {
            shade,
            viewport: viewport(),
            present_width: VIDEO_WIDTH,
            present_height: VIDEO_HEIGHT,
            present_pitch: usize::MAX,
        }
    }
}

/// The shade of the frame drawn while the counter holds `count`.
pub fn frame_shade(count: u8) -> (s: Shade)
    ensures
        s == shade_of(count),
        s == Shade::Dark <==> count <= 127,
        s == Shade::Light <==> count >= 128,
{
    if count <= 127 {
        Shade::Dark
    } else {
        Shade::Light
    }
}

/// The viewport covering the whole frame.
pub fn viewport() -> (v: Viewport)
    ensures
        v == (Viewport { x: 0, y: 0, width: VIDEO_WIDTH as i32, height: VIDEO_HEIGHT as i32 }),
{
    Viewport { x: 0, y: 0, width: VIDEO_WIDTH as i32, height: VIDEO_HEIGHT as i32 }
}

/// The size of the frames the core reports to the frontend before running.
#[derive(PartialEq, Eq, Structural, Clone, Copy, Debug)]
pub struct Geometry {
    pub base_width: u32,
    pub base_height: u32,
    pub max_width: u32,
    pub max_height: u32,
}

/// The reported frame size: fixed, so the base and the largest size agree.
pub open spec fn geometry_spec() -> Geometry {
    Geometry {
        base_width: VIDEO_WIDTH,
        base_height: VIDEO_HEIGHT,
        max_width: VIDEO_WIDTH,
        max_height: VIDEO_HEIGHT,
    }
}

/// The frame size reported to the frontend.
pub fn av_geometry() -> (g: Geometry)
    ensures
        g == geometry_spec(),
{
    Geometry {
        base_width: VIDEO_WIDTH,
        base_height: VIDEO_HEIGHT,
        max_width: VIDEO_WIDTH,
        max_height: VIDEO_HEIGHT,
    }
}

/// What the core tells the frontend about itself, apart from its name and
/// version.
#[derive(PartialEq, Eq, Structural, Clone, Copy, Debug)]
pub struct SystemInfo {
    /// The core wants paths to content rather than its bytes in memory.
    pub need_fullpath: bool,
    /// The frontend must not extract archives for the core.
    pub block_extract: bool,
    /// Whether a list of accepted content extensions is given (there is
    /// none: the core runs without content).
    pub has_valid_extensions: bool,
}

/// What the core reports about itself.
pub fn system_info() -> (i: SystemInfo)
    ensures
        i == (SystemInfo { need_fullpath: true, block_extract: true, has_valid_extensions: false }),
{
    SystemInfo { need_fullpath: true, block_extract: true, has_valid_extensions: false }
}

/// One frame advances a fresh counter's value by two, wrapping at 256.
pub proof fn lemma_count_after_step(frames: nat)
    ensures
        count_after(frames + 1) == (count_after(frames) + 2) % 256,
{
    assert((2 * (frames + 1)) % 256 == ((2 * frames) % 256 + 2) % 256) by (nonlinear_arith);
}

/// The frame blinks: a fresh counter draws 64 dark frames, then 64 light
/// ones, and so on.
pub proof fn lemma_frame_shade(frame: nat)
    ensures
        shade_of(count_after(frame)) == shade_of_frame(frame),
{
    assert((2 * frame) % 256 == 2 * (frame % 128)) by (nonlinear_arith);
}

/// The counter comes back to the same value every 128 frames.
pub proof fn lemma_blink_period(frame: nat)
    ensures
        count_after(frame + 128) == count_after(frame),
{
    assert((2 * (frame + 128)) % 256 == (2 * frame) % 256) by (nonlinear_arith);
}

/// Every frame is drawn and presented at exactly the size reported to the
/// frontend.
pub proof fn lemma_frame_matches_geometry(count: u8)
    ensures
        plan_of(count).present_width == geometry_spec().base_width,
        plan_of(count).present_height == geometry_spec().base_height,
        plan_of(count).viewport.width == geometry_spec().base_width,
        plan_of(count).viewport.height == geometry_spec().base_height,
        plan_of(count).viewport.x == 0,
        plan_of(count).viewport.y == 0,
        geometry_spec().base_width == geometry_spec().max_width,
        geometry_spec().base_height == geometry_spec().max_height,
{
}

/// The frame is dark exactly while the counter is in the lower half of its
/// range, odd values included, and light in the upper half; a value and the
/// value half the range above it always differ in shade.
pub proof fn lemma_shade_by_half(count: u8)
    ensures
        shade_of(count) == Shade::Dark <==> count <= 127,
        shade_of(count) == Shade::Light <==> count >= 128,
        count <= 127 ==> shade_of(count) != shade_of((count + 128) as u8),
{
}

} // verus!
