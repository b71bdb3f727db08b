use vstd::prelude::*;

verus! {

/// Why a command or a buffer access was refused.
#[derive(Clone, Copy, Debug, PartialEq, Eq, Structural)]
pub enum GpuError {
    /// A command other than `Initialize` arrived before the first `Initialize`.
    NotInitialized,
    /// A texture's colour payload does not hold `width * height` colours.
    SizeMismatch,
    /// A sprite exceeds the resident texture, or a pixel access lies off the buffer.
    OutOfBounds,
    /// No sprite is defined under the requested id.
    UnknownSprite,
    /// No font is registered under the requested id.
    UnknownFont,
    /// The frame is out at the display and has not been taken back yet.
    FrameAtDisplay,
    /// `Initialize` asked for a render scale of zero.
    InvalidRenderScale,
    /// The panel is too large for the status fields or for one frame buffer.
    DisplayTooLarge,
}

} // verus!
