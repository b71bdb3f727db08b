use vstd::prelude::*;
use crate::error::GpuError;
use crate::framebuffer::FrameBuffer;
use crate::gpu::{
    clear_sprites_step, define_sprite_step, frame_fits, present_step, reclaim_step, set_texture_step,
    Gpu,
};
use crate::raster::{covers, painted, Shape};
use crate::texture::Sprite;

verus! {

/// Presenting hands the frame over: while the display has it the core holds
/// no frame, and once the display's answer (a frame or none) is taken back the
/// core holds exactly one frame of the render size again.
pub proof fn lemma_present_then_reclaim(
    s0: Gpu,
    s1: Gpu,
    s2: Gpu,
    fps: u8,
    presented: Result<FrameBuffer, GpuError>,
    returned: Option<FrameBuffer>,
    r: Result<(), GpuError>,
)
    requires
        s0.wf(),
        present_step(s0, s1, fps, presented),
        presented is Ok,
        reclaim_step(s1, s2, returned, r),
    ensures
        s1.frame_view() is None,
        r is Ok,
        s2.frame_view() is Some,
        frame_fits(s2.config(), s2.frame()),
        s2.config_view() == s0.config_view(),
{
}

/// Clearing the sprites twice leaves the same state as clearing them once,
/// and the second clear answers as the first did.
pub proof fn lemma_clear_sprites_idempotent(
    s0: Gpu,
    s1: Gpu,
    s2: Gpu,
    r1: Result<(), GpuError>,
    r2: Result<(), GpuError>,
)
    requires
        clear_sprites_step(s0, s1, r1),
        clear_sprites_step(s1, s2, r2),
    ensures
        s2.config_view() == s1.config_view(),
        s2.frame_view() == s1.frame_view(),
        s2.fonts_view() == s1.fonts_view(),
        s2.store_view().texture_view() == s1.store_view().texture_view(),
        s2.store_view().sprites_view() == s1.store_view().sprites_view(),
        r2 == r1,
{
}

/// A texture whose payload holds `width * height` colours reads back with
/// those dimensions; any other payload is refused with `SizeMismatch` and the
/// texture that was resident (or its absence) stays.
pub proof fn lemma_texture_round_trip(
    pre: Gpu,
    post: Gpu,
    width: u8,
    height: u8,
    colors: Seq<u16>,
    r: Result<(), GpuError>,
)
    requires
        pre.is_ready(),
        set_texture_step(pre, post, width, height, colors, r),
    ensures
        colors.len() == width * height ==> {
            &&& r is Ok
            &&& post.store_view().texture_view() matches Some(t)
            &&& t.0 == width && t.1 == height
        },
        colors.len() != width * height ==> {
            &&& r == Err::<(), GpuError>(GpuError::SizeMismatch)
            &&& post.store_view().texture_view() == pre.store_view().texture_view()
        },
{
}

/// A one-row rectangle that starts on the last column of a buffer and reaches
/// past its right edge paints exactly one visible cell, that last column of
/// the top row.
pub proof fn lemma_rectangle_clipped_at_right_edge(width: int, rect_w: u8, fill: bool)
    requires
        1 <= width <= 256,
        1 <= rect_w,
    ensures
        forall|px: int, py: int|
            0 <= px < width && 0 <= py ==> (#[trigger] covers(
                Shape::Rectangle { x: (width - 1) as u8, y: 0, width: rect_w, height: 1, fill },
                px,
                py,
            ) <==> (px == width - 1 && py == 0)),
{
}

/// Defining the same sprite again after a refusal gets the same refusal:
/// `NotInitialized` before `Initialize`, `OutOfBounds` when it does not fit the
/// resident texture (always so while there is none), and the state does not move.
pub proof fn lemma_define_sprite_deterministic(
    s0: Gpu,
    s1: Gpu,
    s2: Gpu,
    sp: Sprite,
    r1: Result<(), GpuError>,
    r2: Result<(), GpuError>,
)
    requires
        define_sprite_step(s0, s1, sp, r1),
        define_sprite_step(s1, s2, sp, r2),
    ensures
        !s0.is_ready() ==> r1 == Err::<(), GpuError>(GpuError::NotInitialized),
        s0.is_ready() && s0.store_view().texture_view() is None ==> r1 == Err::<(), GpuError>(
            GpuError::OutOfBounds,
        ),
        r1 is Err ==> {
            &&& r2 == r1
            &&& s1.config_view() == s0.config_view()
            &&& s1.frame_view() == s0.frame_view()
            &&& s1.fonts_view() == s0.fonts_view()
            &&& s1.store_view().texture_view() == s0.store_view().texture_view()
            &&& s1.store_view().sprites_view() == s0.store_view().sprites_view()
        },
{
}

/// Where two shapes drawn one after the other overlap, the later one's colour
/// is what remains.
pub proof fn lemma_last_draw_wins(
    f0: FrameBuffer,
    f1: FrameBuffer,
    f2: FrameBuffer,
    first: Shape,
    first_color: u16,
    second: Shape,
    second_color: u16,
)
    requires
        painted(f0, f1, first, first_color),
        painted(f1, f2, second, second_color),
    ensures
        forall|px: int, py: int|
            0 <= px < f0.spec_width() && 0 <= py < f0.spec_height() && covers(second, px, py)
                ==> #[trigger] f2.pixel(px, py) == second_color,
        forall|px: int, py: int|
            0 <= px < f0.spec_width() && 0 <= py < f0.spec_height() && covers(first, px, py)
                && !covers(second, px, py) ==> #[trigger] f2.pixel(px, py) == first_color,
{
    assert forall|px: int, py: int|
        0 <= px < f0.spec_width() && 0 <= py < f0.spec_height() && covers(first, px, py)
            && !covers(second, px, py) implies #[trigger] f2.pixel(px, py) == first_color by {
        assert(f1.pixel(px, py) == first_color);
    }
}

} // verus!
