use vstd::prelude::*;

verus! {

/// One decoded instruction from the host. Colours are RGB565 values.
pub enum Commands {
    /// Sets the render scale and (re)allocates the frame buffer.
    Initialize { render_scale: u8 },
    /// Presents the current frame.
    DisplayFrame,
    /// Turns the frame-rate overlay on or off.
    ShowFps(bool),
    /// Replaces the resident texture.
    SetTexture { width: u8, height: u8, colors: Vec<u16> },
    /// Removes every sprite.
    ClearSprites,
    /// Defines a sprite as a region of the resident texture.
    DefineSprite { id: u8, x: u8, y: u8, width: u8, height: u8 },
    /// Draws an axis-aligned rectangle, solid or as a one-pixel border.
    DrawRectangle { x: u8, y: u8, width: u8, height: u8, fill: bool, color: u16 },
    /// Draws a circle, solid or as its outline.
    DrawCircle { center_x: u8, center_y: u8, radius: u8, fill: bool, color: u16 },
    /// Draws a triangle, solid or as its three edges.
    DrawTriangle { x0: u8, y0: u8, x1: u8, y1: u8, x2: u8, y2: u8, fill: bool, color: u16 },
    /// Writes text with a registered font.
    DrawText { font_id: u8, color: u16, text: String },
}

/// A snapshot of the display and render geometry.
#[derive(Clone, Copy, Debug, PartialEq, Eq, Structural)]
pub struct Status {
    pub display_width: u16,
    pub display_height: u16,
    pub render_width: u16,
    pub render_height: u16,
}

/// What the core sends back to the host.
#[derive(Clone, Copy, Debug, PartialEq, Eq, Structural)]
pub enum Responses {
    Status(Status),
}

} // verus!
