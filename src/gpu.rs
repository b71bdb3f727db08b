use vstd::prelude::*;
use crate::command::{Commands, Responses, Status};
use crate::error::GpuError;
use crate::font::{draw_text, text_painted, Font};
use crate::framebuffer::FrameBuffer;
use crate::raster::{paint, painted, Shape};
use crate::texture::{sprite_fits, Sprite, TextureStore, SPRITE_SLOTS};

verus! {

/// Number of font ids, one slot for each `u8`.
pub const FONT_SLOTS: usize = 256;

/// Colour of the frame-rate bar.
pub const FPS_COLOR: u16 = 0x07E0;

/// Render configuration: the panel size, the integer scale between panel and
/// frame buffer, the buffer size derived from them, and the overlay flag.
#[derive(Clone, Copy, Debug, PartialEq, Eq, Structural)]
pub struct RenderConfig {
    pub render_scale: u8,
    pub show_fps: bool,
    pub display_width: u16,
    pub display_height: u16,
    pub render_width: u16,
    pub render_height: u16,
}

/// The configuration for a panel of `dw` by `dh` drawn at the given scale.
pub open spec fn config_for(dw: u16, dh: u16, scale: u8, show_fps: bool) -> RenderConfig {
    RenderConfig {
        render_scale: scale,
        show_fps,
        display_width: dw,
        display_height: dh,
        render_width: (dw / scale as u16) as u16,
        render_height: (dh / scale as u16) as u16,
    }
}

/// The render size is the panel size divided by the scale, and one frame of
/// it fits in memory.
pub open spec fn config_valid(c: RenderConfig) -> bool {
    &&& c.render_scale >= 1
    &&& c == config_for(c.display_width, c.display_height, c.render_scale, c.show_fps)
    &&& c.render_width * c.render_height * 2 <= usize::MAX
}

/// The buffer is well formed and has the configuration's render size.
pub open spec fn frame_fits(c: RenderConfig, fb: FrameBuffer) -> bool {
    &&& fb.wf()
    &&& fb.spec_width() == c.render_width
    &&& fb.spec_height() == c.render_height
}

/// The overlay drawn for a frame rate of `fps`: a bar along the top row, one
/// pixel per frame per second.
pub open spec fn fps_bar(fps: u8) -> Shape {
    Shape::Rectangle { x: 0, y: 0, width: fps, height: 1, fill: true }
}

/// A frame of the given size with every pixel zero.
pub open spec fn blank(fb: FrameBuffer, width: nat, height: nat) -> bool {
    &&& fb.wf()
    &&& fb.spec_width() == width
    &&& fb.spec_height() == height
    &&& fb.pixels() == Seq::new(width * height, |i: int| 0u16)
}

/// The rendering state: configuration, the frame being drawn, the texture and
/// sprite store, and the registered fonts.
pub struct Gpu {
    config: Option<RenderConfig>,
    frame: Option<FrameBuffer>,
    store: TextureStore,
    fonts: Vec<Option<Font>>,
}

/// The state did not change.
pub open spec fn unchanged(pre: Gpu, post: Gpu) -> bool {
    &&& post.config_view() == pre.config_view()
    &&& post.frame_view() == pre.frame_view()
    &&& post.store_view() == pre.store_view()
    &&& post.fonts_view() == pre.fonts_view()
}

/// Before the first `Initialize` a command is refused and changes nothing.
pub open spec fn refused_uninitialized(pre: Gpu, post: Gpu, r: Result<(), GpuError>) -> bool {
    &&& r == Err::<(), GpuError>(GpuError::NotInitialized)
    &&& unchanged(pre, post)
}

/// The frame is out at the display: a command that needs it is refused and
/// changes nothing.
pub open spec fn refused_frame_away(pre: Gpu, post: Gpu, r: Result<(), GpuError>) -> bool {
    &&& r == Err::<(), GpuError>(GpuError::FrameAtDisplay)
    &&& unchanged(pre, post)
}

/// The overlay flag before a reconfiguration; off before the first.
pub open spec fn previous_show_fps(pre: Gpu) -> bool {
    match pre.config_view() {
        Some(c) => c.show_fps,
        None => false,
    }
}

/// `Initialize` on a panel of `dw` by `dh`: a zero scale or a panel too large
/// for the status fields or for one frame is refused; otherwise the
/// configuration is recomputed (the overlay flag is kept) and the frame
/// replaced by a blank one of the render size.
pub open spec fn initialize_step(
    pre: Gpu,
    post: Gpu,
    dw: usize,
    dh: usize,
    scale: u8,
    r: Result<(), GpuError>,
) -> bool {
    if scale == 0 {
        r == Err::<(), GpuError>(GpuError::InvalidRenderScale) && unchanged(pre, post)
    } else if dw > u16::MAX || dh > u16::MAX || (dw as int / scale as int) * (dh as int / scale as int) * 2
        > usize::MAX {
        r == Err::<(), GpuError>(GpuError::DisplayTooLarge) && unchanged(pre, post)
    } else {
        let c = config_for(dw as u16, dh as u16, scale, previous_show_fps(pre));
        &&& r == Ok::<(), GpuError>(())
        &&& post.config_view() == Some(c)
        &&& post.frame_view() is Some
        &&& blank(post.frame(), c.render_width as nat, c.render_height as nat)
        &&& post.store_view() == pre.store_view()
        &&& post.fonts_view() == pre.fonts_view()
    }
}

/// `ShowFps`: sets the overlay flag.
pub open spec fn show_fps_step(pre: Gpu, post: Gpu, flag: bool, r: Result<(), GpuError>) -> bool {
    if !pre.is_ready() {
        refused_uninitialized(pre, post, r)
    } else {
        &&& r == Ok::<(), GpuError>(())
        &&& post.config_view() == Some(RenderConfig { show_fps: flag, ..pre.config() })
        &&& post.frame_view() == pre.frame_view()
        &&& post.store_view() == pre.store_view()
        &&& post.fonts_view() == pre.fonts_view()
    }
}

/// `SetTexture`: replaces the texture, or refuses a payload of the wrong length.
pub open spec fn set_texture_step(
    pre: Gpu,
    post: Gpu,
    width: u8,
    height: u8,
    colors: Seq<u16>,
    r: Result<(), GpuError>,
) -> bool {
    if !pre.is_ready() {
        refused_uninitialized(pre, post, r)
    } else {
        &&& post.config_view() == pre.config_view()
        &&& post.frame_view() == pre.frame_view()
        &&& post.fonts_view() == pre.fonts_view()
        &&& post.store_view().sprites_view() == pre.store_view().sprites_view()
        &&& if colors.len() == width * height {
            &&& r == Ok::<(), GpuError>(())
            &&& post.store_view().texture_view() == Some((width, height, colors))
        } else {
            &&& r == Err::<(), GpuError>(GpuError::SizeMismatch)
            &&& post.store_view().texture_view() == pre.store_view().texture_view()
        }
    }
}

/// `ClearSprites`: empties the sprite table at once.
pub open spec fn clear_sprites_step(pre: Gpu, post: Gpu, r: Result<(), GpuError>) -> bool {
    if !pre.is_ready() {
        refused_uninitialized(pre, post, r)
    } else {
        &&& r == Ok::<(), GpuError>(())
        &&& post.config_view() == pre.config_view()
        &&& post.frame_view() == pre.frame_view()
        &&& post.fonts_view() == pre.fonts_view()
        &&& post.store_view().texture_view() == pre.store_view().texture_view()
        &&& post.store_view().sprites_view() == Seq::new(
            SPRITE_SLOTS as nat,
            |i: int| None::<Sprite>,
        )
    }
}

/// `DefineSprite`: stores the sprite when it fits the resident texture.
pub open spec fn define_sprite_step(
    pre: Gpu,
    post: Gpu,
    sp: Sprite,
    r: Result<(), GpuError>,
) -> bool {
    if !pre.is_ready() {
        refused_uninitialized(pre, post, r)
    } else {
        &&& post.config_view() == pre.config_view()
        &&& post.frame_view() == pre.frame_view()
        &&& post.fonts_view() == pre.fonts_view()
        &&& post.store_view().texture_view() == pre.store_view().texture_view()
        &&& if sprite_fits(pre.store_view().texture_view(), sp) {
            &&& r == Ok::<(), GpuError>(())
            &&& post.store_view().sprites_view() == pre.store_view().sprites_view().update(
                sp.id as int,
                Some(sp),
            )
        } else {
            &&& r == Err::<(), GpuError>(GpuError::OutOfBounds)
            &&& post.store_view().sprites_view() == pre.store_view().sprites_view()
        }
    }
}

/// A drawing command: paints the shape into the frame, clipped to it.
pub open spec fn draw_step(pre: Gpu, post: Gpu, s: Shape, color: u16, r: Result<(), GpuError>) -> bool {
    if !pre.is_ready() {
        refused_uninitialized(pre, post, r)
    } else if pre.frame_view() is None {
        refused_frame_away(pre, post, r)
    } else {
        &&& r == Ok::<(), GpuError>(())
        &&& post.config_view() == pre.config_view()
        &&& post.store_view() == pre.store_view()
        &&& post.fonts_view() == pre.fonts_view()
        &&& post.frame_view() is Some
        &&& painted(pre.frame(), post.frame(), s, color)
    }
}

/// `DrawText`: writes the text with the font registered under `font_id`;
/// an unknown font changes nothing.
pub open spec fn draw_text_step(
    pre: Gpu,
    post: Gpu,
    font_id: u8,
    color: u16,
    text: Seq<char>,
    r: Result<(), GpuError>,
) -> bool {
    if !pre.is_ready() {
        refused_uninitialized(pre, post, r)
    } else if pre.frame_view() is None {
        refused_frame_away(pre, post, r)
    } else {
        match pre.fonts_view()[font_id as int] {
            None => r == Err::<(), GpuError>(GpuError::UnknownFont) && unchanged(pre, post),
            Some(f) => {
                &&& r == Ok::<(), GpuError>(())
                &&& post.config_view() == pre.config_view()
                &&& post.store_view() == pre.store_view()
                &&& post.fonts_view() == pre.fonts_view()
                &&& post.frame_view() is Some
                &&& text_painted(pre.frame(), post.frame(), f, text, color)
            },
        }
    }
}

/// With the overlay on, the frame-rate bar is painted into the frame; with it
/// off nothing changes.
pub open spec fn overlay_step(pre: Gpu, post: Gpu, fps: u8, r: Result<(), GpuError>) -> bool {
    if !pre.is_ready() {
        refused_uninitialized(pre, post, r)
    } else if pre.frame_view() is None {
        refused_frame_away(pre, post, r)
    } else if pre.config().show_fps {
        &&& r == Ok::<(), GpuError>(())
        &&& post.config_view() == pre.config_view()
        &&& post.store_view() == pre.store_view()
        &&& post.fonts_view() == pre.fonts_view()
        &&& post.frame_view() is Some
        &&& painted(pre.frame(), post.frame(), fps_bar(fps), FPS_COLOR)
    } else {
        r == Ok::<(), GpuError>(()) && unchanged(pre, post)
    }
}

/// The frame handed to the display for `fps`: the current frame, with the
/// frame-rate bar painted in when the overlay is on.
pub open spec fn presented_frame(pre: Gpu, f: FrameBuffer, fps: u8) -> bool {
    if pre.config().show_fps {
        painted(pre.frame(), f, fps_bar(fps), FPS_COLOR)
    } else {
        f == pre.frame()
    }
}

/// `DisplayFrame`: the frame, with the overlay applied, leaves the core to be
/// handed to the display; the core holds no frame until `reclaim`.
pub open spec fn present_step(pre: Gpu, post: Gpu, fps: u8, r: Result<FrameBuffer, GpuError>) -> bool {
    if !pre.is_ready() {
        r == Err::<FrameBuffer, GpuError>(GpuError::NotInitialized) && unchanged(pre, post)
    } else if pre.frame_view() is None {
        r == Err::<FrameBuffer, GpuError>(GpuError::FrameAtDisplay) && unchanged(pre, post)
    } else {
        &&& r matches Ok(f)
        &&& presented_frame(pre, f, fps)
        &&& frame_fits(pre.config(), f)
        &&& post.frame_view() is None
        &&& post.config_view() == pre.config_view()
        &&& post.store_view() == pre.store_view()
        &&& post.fonts_view() == pre.fonts_view()
    }
}

/// The display handed `returned` back: the core again holds exactly one frame
/// of the render size, the returned one when it is well formed and of that
/// size, else a blank one.
pub open spec fn reclaim_step(
    pre: Gpu,
    post: Gpu,
    returned: Option<FrameBuffer>,
    r: Result<(), GpuError>,
) -> bool {
    if !pre.is_ready() {
        refused_uninitialized(pre, post, r)
    } else {
        let c = pre.config();
        &&& r == Ok::<(), GpuError>(())
        &&& post.config_view() == pre.config_view()
        &&& post.store_view() == pre.store_view()
        &&& post.fonts_view() == pre.fonts_view()
        &&& post.frame_view() is Some
        &&& match returned {
            Some(b) => if frame_fits(c, b) {
                post.frame() == b
            } else {
                blank(post.frame(), c.render_width as nat, c.render_height as nat)
            },
            None => blank(post.frame(), c.render_width as nat, c.render_height as nat),
        }
    }
}

/// The shape that a drawing command paints.
pub open spec fn command_shape(cmd: Commands) -> Option<(Shape, u16)> {
    match cmd {
        Commands::DrawRectangle { x, y, width, height, fill, color } => Some(
            (Shape::Rectangle { x, y, width, height, fill }, color),
        ),
        Commands::DrawCircle { center_x, center_y, radius, fill, color } => Some(
            (Shape::Circle { center_x, center_y, radius, fill }, color),
        ),
        Commands::DrawTriangle { x0, y0, x1, y1, x2, y2, fill, color } => Some(
            (Shape::Triangle { x0, y0, x1, y1, x2, y2, fill }, color),
        ),
        _ => None,
    }
}

/// What executing `cmd` other than `DisplayFrame` does, on a panel of
/// `panel_width` by `panel_height`.
pub open spec fn command_step(
    pre: Gpu,
    post: Gpu,
    cmd: Commands,
    panel_width: usize,
    panel_height: usize,
    r: Result<(), GpuError>,
) -> bool {
    match cmd {
        Commands::Initialize { render_scale } => initialize_step(
            pre,
            post,
            panel_width,
            panel_height,
            render_scale,
            r,
        ),
        Commands::DisplayFrame => false,
        Commands::ShowFps(flag) => show_fps_step(pre, post, flag, r),
        Commands::SetTexture { width, height, colors } => set_texture_step(
            pre,
            post,
            width,
            height,
            colors@,
            r,
        ),
        Commands::ClearSprites => clear_sprites_step(pre, post, r),
        Commands::DefineSprite { id, x, y, width, height } => define_sprite_step(
            pre,
            post,
            Sprite { id, x, y, width, height },
            r,
        ),
        Commands::DrawText { font_id, color, text } => draw_text_step(
            pre,
            post,
            font_id,
            color,
            text@,
            r,
        ),
        _ => match command_shape(cmd) {
            Some(sc) => draw_step(pre, post, sc.0, sc.1, r),
            None => false,
        },
    }
}

/// What `execute` does: `DisplayFrame` hands out the frame to present, every
/// other command hands out nothing.
pub open spec fn execute_step(
    pre: Gpu,
    post: Gpu,
    cmd: Commands,
    panel_width: usize,
    panel_height: usize,
    fps: u8,
    r: Result<Option<FrameBuffer>, GpuError>,
) -> bool {
    match cmd {
        Commands::DisplayFrame => match r {
            Ok(Some(f)) => present_step(pre, post, fps, Ok(f)),
            Ok(None) => false,
            Err(e) => present_step(pre, post, fps, Err(e)),
        },
        _ => match r {
            Ok(None) => command_step(pre, post, cmd, panel_width, panel_height, Ok(())),
            Ok(Some(_)) => false,
            Err(e) => command_step(pre, post, cmd, panel_width, panel_height, Err(e)),
        },
    }
}

fn hand_out_nothing(r: Result<(), GpuError>) -> (o: Result<Option<FrameBuffer>, GpuError>)
    ensures
        match r {
            Ok(_) => o == Ok::<Option<FrameBuffer>, GpuError>(None),
            Err(e) => o == Err::<Option<FrameBuffer>, GpuError>(e),
        },
{
    match r {
        Ok(_) => Ok(None),
        Err(e) => Err(e),
    }
}

/// Takes back the frame that a display returned when it is well formed and of
/// the given size; otherwise allocates a blank one.
pub fn reclaim_buffer(returned: Option<FrameBuffer>, width: u16, height: u16) -> (r: FrameBuffer)
    requires
        width * height * 2 <= usize::MAX,
    ensures
        r.wf(),
        r.spec_width() == width,
        r.spec_height() == height,
        match returned {
            Some(b) => if b.wf() && b.spec_width() == width && b.spec_height() == height {
                r == b
            } else {
                blank(r, width as nat, height as nat)
            },
            None => blank(r, width as nat, height as nat),
        },
{
    match returned {
        Some(b) => {
            if b.is_consistent() && b.width() == width as usize && b.height() == height as usize {
                b
            } else {
                FrameBuffer::new(width as usize, height as usize)
            }
        },
        None => FrameBuffer::new(width as usize, height as usize),
    }
}

impl Gpu {
    pub closed spec fn config_view(&self) -> Option<RenderConfig> {
        self.config
    }

    pub closed spec fn frame_view(&self) -> Option<FrameBuffer> {
        self.frame
    }

    pub closed spec fn store_view(&self) -> TextureStore {
        self.store
    }

    pub closed spec fn fonts_view(&self) -> Seq<Option<Font>> {
        self.fonts@
    }

    pub open spec fn is_ready(&self) -> bool {
        self.config_view() is Some
    }

    pub open spec fn config(&self) -> RenderConfig {
        self.config_view().unwrap()
    }

    pub open spec fn frame(&self) -> FrameBuffer {
        self.frame_view().unwrap()
    }

    pub open spec fn wf(&self) -> bool {
        &&& self.store_view().wf()
        &&& self.fonts_view().len() == FONT_SLOTS
        &&& forall|i: int|
            0 <= i < FONT_SLOTS ==> (#[trigger] self.fonts_view()[i] matches Some(f) ==> f.wf()
                && f.spec_id() == i)
        &&& match self.config_view() {
            Some(c) => {
                &&& config_valid(c)
                &&& (self.frame_view() is Some ==> frame_fits(c, self.frame()))
            },
            None => self.frame_view() is None,
        }
    }

    /// A core awaiting its first `Initialize`: no texture, sprites or fonts.
    pub fn new() -> (r: Gpu)
        ensures
            r.wf(),
            !r.is_ready(),
            r.store_view().texture_view() is None,
            r.store_view().sprites_view() == Seq::new(SPRITE_SLOTS as nat, |i: int| None::<Sprite>),
            r.fonts_view() == Seq::new(FONT_SLOTS as nat, |i: int| None::<Font>),
    {
        let mut fonts: Vec<Option<Font>> = Vec::new();
        let mut i: usize = 0;
        while i < FONT_SLOTS
            invariant
                i <= FONT_SLOTS,
                fonts@ == Seq::new(i as nat, |j: int| None::<Font>),
            decreases FONT_SLOTS - i,
        {
            fonts.push(None);
            i = i + 1;
            assert(fonts@ =~= Seq::new(i as nat, |j: int| None::<Font>));
        }
        Gpu { config: None, frame: None, store: TextureStore::new(), fonts }
    }

    /// Registers a font under its id, replacing any font with that id.
    pub fn register_font(&mut self, font: Font)
        requires
            old(self).wf(),
            font.wf(),
        ensures
            final(self).wf(),
            final(self).fonts_view() == old(self).fonts_view().update(
                font.spec_id() as int,
                Some(font),
            ),
            final(self).config_view() == old(self).config_view(),
            final(self).frame_view() == old(self).frame_view(),
            final(self).store_view() == old(self).store_view(),
    {
        let id = font.id();
        self.fonts.set(id as usize, Some(font));
    }

    /// The current render configuration, if initialized.
    pub fn render_config(&self) -> (r: Option<RenderConfig>)
        ensures
            r == self.config_view(),
    {
        self.config
    }

    /// The texture and sprite store.
    pub fn store(&self) -> (r: &TextureStore)
        ensures
            *r == self.store_view(),
    {
        &self.store
    }

    /// The frame being drawn, if initialized.
    pub fn frame_buffer(&self) -> (r: Option<&FrameBuffer>)
        ensures
            match self.frame_view() {
                Some(fb) => r == Some(&fb),
                None => r is None,
            },
    {
        match &self.frame {
            Some(fb) => Some(fb),
            None => None,
        }
    }

    /// A snapshot of the display and render geometry.
    pub fn status(&self) -> (r: Result<Responses, GpuError>)
        ensures
            match self.config_view() {
                Some(c) => r == Ok::<Responses, GpuError>(
                    Responses::Status(
                        Status {
                            display_width: c.display_width,
                            display_height: c.display_height,
                            render_width: c.render_width,
                            render_height: c.render_height,
                        },
                    ),
                ),
                None => r == Err::<Responses, GpuError>(GpuError::NotInitialized),
            },
    {
        match self.config {
            Some(c) => Ok(
                Responses::Status(
                    Status {
                        display_width: c.display_width,
                        display_height: c.display_height,
                        render_width: c.render_width,
                        render_height: c.render_height,
                    },
                ),
            ),
            None => Err(GpuError::NotInitialized),
        }
    }

    /// Configures rendering for a panel of the given size at the given scale,
    /// and replaces the frame with a blank one of the render size.
    ///
    /// Render sizes up to 65535 are accepted. Drawing coordinates are single
    /// bytes, so rows and columns past 255 (at scale 1 on a 240 by 320 panel,
    /// rows 256 to 319) cannot be drawn into; they stay blank but are still part
    /// of the frame that is presented, so the panel is covered in full.
    pub fn initialize(&mut self, display_width: usize, display_height: usize, render_scale: u8) -> (r:
        Result<(), GpuError>)
        requires
            old(self).wf(),
        ensures
            final(self).wf(),
            initialize_step(*old(self), *final(self), display_width, display_height, render_scale, r),
    {
        if render_scale == 0 {
            return Err(GpuError::InvalidRenderScale);
        }
        if display_width > 0xffff || display_height > 0xffff {
            return Err(GpuError::DisplayTooLarge);
        }
        let dw = display_width as u16;
        let dh = display_height as u16;
        let rw: u16 = dw / render_scale as u16;
        let rh: u16 = dh / render_scale as u16;
        let size = match (rw as usize).checked_mul(rh as usize) {
            Some(n) => n.checked_mul(2),
            None => None,
        };
        if size.is_none() {
            return Err(GpuError::DisplayTooLarge);
        }
        let show_fps = match self.config {
            Some(c) => c.show_fps,
            None => false,
        };
        let c = RenderConfig {
            render_scale,
            show_fps,
            display_width: dw,
            display_height: dh,
            render_width: rw,
            render_height: rh,
        };
        self.config = Some(c);
        self.frame = Some(FrameBuffer::new(rw as usize, rh as usize));
        Ok(())
    }

    /// Turns the frame-rate overlay on or off from the next presented frame.
    pub fn set_show_fps(&mut self, flag: bool) -> (r: Result<(), GpuError>)
        requires
            old(self).wf(),
        ensures
            final(self).wf(),
            show_fps_step(*old(self), *final(self), flag, r),
    {
        match self.config {
            Some(c) => {
                self.config = Some(RenderConfig { show_fps: flag, ..c });
                Ok(())
            },
            None => Err(GpuError::NotInitialized),
        }
    }

    pub fn set_texture(&mut self, width: u8, height: u8, colors: Vec<u16>) -> (r: Result<(), GpuError>)
        requires
            old(self).wf(),
        ensures
            final(self).wf(),
            set_texture_step(*old(self), *final(self), width, height, colors@, r),
    {
        if self.config.is_none() {
            return Err(GpuError::NotInitialized);
        }
        self.store.set_texture(width, height, colors)
    }

    pub fn clear_sprites(&mut self) -> (r: Result<(), GpuError>)
        requires
            old(self).wf(),
        ensures
            final(self).wf(),
            clear_sprites_step(*old(self), *final(self), r),
    {
        if self.config.is_none() {
            return Err(GpuError::NotInitialized);
        }
        self.store.clear_sprites();
        Ok(())
    }

    pub fn define_sprite(&mut self, id: u8, x: u8, y: u8, width: u8, height: u8) -> (r: Result<
        (),
        GpuError,
    >)
        requires
            old(self).wf(),
        ensures
            final(self).wf(),
            define_sprite_step(*old(self), *final(self), Sprite { id, x, y, width, height }, r),
    {
        if self.config.is_none() {
            return Err(GpuError::NotInitialized);
        }
        self.store.define_sprite(id, x, y, width, height)
    }

    /// Paints a shape into the frame, clipped to it.
    pub fn draw(&mut self, s: Shape, color: u16) -> (r: Result<(), GpuError>)
        requires
            old(self).wf(),
        ensures
            final(self).wf(),
            draw_step(*old(self), *final(self), s, color, r),
    {
        if self.config.is_none() {
            return Err(GpuError::NotInitialized);
        }
        match self.frame.take() {
            Some(fb) => {
                let mut fb = fb;
                paint(&mut fb, &s, color);
                self.frame = Some(fb);
                Ok(())
            },
            None => Err(GpuError::FrameAtDisplay),
        }
    }

    /// Writes text with the font registered under `font_id`, from the origin.
    pub fn draw_text(&mut self, font_id: u8, color: u16, text: &String) -> (r: Result<
        (),
        GpuError,
    >)
        requires
            old(self).wf(),
        ensures
            final(self).wf(),
            draw_text_step(*old(self), *final(self), font_id, color, text@, r),
    {
        if self.config.is_none() {
            return Err(GpuError::NotInitialized);
        }
        if self.frame.is_none() {
            return Err(GpuError::FrameAtDisplay);
        }
        match &self.fonts[font_id as usize] {
            None => Err(GpuError::UnknownFont),
            Some(f) => match self.frame.take() {
                Some(fb) => {
                    let mut fb = fb;
                    draw_text(&mut fb, f, text, color);
                    self.frame = Some(fb);
                    Ok(())
                },
                None => Err(GpuError::FrameAtDisplay),
            },
        }
    }

    /// Paints the frame-rate bar into the frame when the overlay is on.
    pub fn apply_overlay(&mut self, fps: u8) -> (r: Result<(), GpuError>)
        requires
            old(self).wf(),
        ensures
            final(self).wf(),
            overlay_step(*old(self), *final(self), fps, r),
    {
        let show = match self.config {
            Some(c) => c.show_fps,
            None => {
                return Err(GpuError::NotInitialized);
            },
        };
        if self.frame.is_none() {
            return Err(GpuError::FrameAtDisplay);
        }
        if show {
            self.draw(Shape::Rectangle { x: 0, y: 0, width: fps, height: 1, fill: true }, FPS_COLOR)
        } else {
            Ok(())
        }
    }

    /// `DisplayFrame`: applies the overlay and hands out the frame, to be given
    /// to the display's `draw_frame`; what that returns goes to `reclaim`.
    pub fn present(&mut self, fps: u8) -> (r: Result<FrameBuffer, GpuError>)
        requires
            old(self).wf(),
        ensures
            final(self).wf(),
            present_step(*old(self), *final(self), fps, r),
    {
        if self.config.is_none() {
            return Err(GpuError::NotInitialized);
        }
        if self.frame.is_none() {
            return Err(GpuError::FrameAtDisplay);
        }
        let _ = self.apply_overlay(fps);
        match self.frame.take() {
            Some(fb) => Ok(fb),
            None => Err(GpuError::FrameAtDisplay),
        }
    }

    /// Takes back what the display's `draw_frame` returned: that frame when it
    /// is well formed and of the render size, else a blank one. Any frame the
    /// core still held is dropped.
    pub fn reclaim(&mut self, returned: Option<FrameBuffer>) -> (r: Result<(), GpuError>)
        requires
            old(self).wf(),
        ensures
            final(self).wf(),
            reclaim_step(*old(self), *final(self), returned, r),
    {
        match self.config {
            Some(c) => {
                self.frame = Some(reclaim_buffer(returned, c.render_width, c.render_height));
                Ok(())
            },
            None => Err(GpuError::NotInitialized),
        }
    }

    /// Executes one command on a panel of `panel_width` by `panel_height`.
    /// `DisplayFrame` hands out the frame to present; `fps` is the frame rate
    /// that its overlay shows.
    pub fn execute(
        &mut self,
        cmd: Commands,
        panel_width: usize,
        panel_height: usize,
        fps: u8,
    ) -> (r: Result<Option<FrameBuffer>, GpuError>)
        requires
            old(self).wf(),
        ensures
            final(self).wf(),
            execute_step(*old(self), *final(self), cmd, panel_width, panel_height, fps, r),
    {
        match cmd {
            Commands::Initialize { render_scale } => hand_out_nothing(
                self.initialize(panel_width, panel_height, render_scale),
            ),
            Commands::DisplayFrame => match self.present(fps) {
                Ok(f) => Ok(Some(f)),
                Err(e) => Err(e),
            },
            Commands::ShowFps(flag) => hand_out_nothing(self.set_show_fps(flag)),
            Commands::SetTexture { width, height, colors } => hand_out_nothing(
                self.set_texture(width, height, colors),
            ),
            Commands::ClearSprites => hand_out_nothing(self.clear_sprites()),
            Commands::DefineSprite { id, x, y, width, height } => hand_out_nothing(
                self.define_sprite(id, x, y, width, height),
            ),
            Commands::DrawRectangle { x, y, width, height, fill, color } => hand_out_nothing(
                self.draw(Shape::Rectangle { x, y, width, height, fill }, color),
            ),
            Commands::DrawCircle { center_x, center_y, radius, fill, color } => hand_out_nothing(
                self.draw(Shape::Circle { center_x, center_y, radius, fill }, color),
            ),
            Commands::DrawTriangle { x0, y0, x1, y1, x2, y2, fill, color } => hand_out_nothing(
                self.draw(Shape::Triangle { x0, y0, x1, y1, x2, y2, fill }, color),
            ),
            Commands::DrawText { font_id, color, text } => hand_out_nothing(
                self.draw_text(font_id, color, &text),
            ),
        }
    }
}

} // verus!
