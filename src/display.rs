use vstd::prelude::*;
use crate::framebuffer::FrameBuffer;

verus! {

/// A device that frames are presented to.
///
/// `draw_frame` takes ownership of the frame unconditionally. A display with
/// no frame store of its own drains the frame onto the panel before it returns
/// and hands that same frame back. A display that keeps the frame (to stream it
/// out later, or to double-buffer) hands back the frame it held before, or
/// nothing on the first call. The caller never keeps the frame it passed in:
/// afterwards it holds the one handed back, or none. The core hands a frame out
/// with `Gpu::present` (or `DisplayFrame` through `Gpu::execute`) and takes the
/// display's answer back with `Gpu::reclaim`.
pub trait Display {
    /// Width of the physical panel in pixels.
    fn width(&self) -> usize;

    /// Height of the physical panel in pixels.
    fn height(&self) -> usize;

    /// Presents `frame`, returning the frame that comes back to the caller.
    fn draw_frame(&mut self, frame: FrameBuffer) -> Option<FrameBuffer>
        requires
            frame.wf(),
    ;
}

/// A panel driver, with the same ownership rule for `draw_frame` as `Display`.
pub trait EmbeddedDisplay {
    /// Width of the physical panel in pixels.
    fn width(&self) -> usize;

    /// Height of the physical panel in pixels.
    fn height(&self) -> usize;

    /// Presents `frame`, returning the frame that comes back to the caller.
    fn draw_frame(&mut self, frame: FrameBuffer) -> Option<FrameBuffer>
        requires
            frame.wf(),
    ;
}

} // verus!
