use microgpu_common::font::Font;
use microgpu_common::gpu::{RenderConfig, FPS_COLOR};
use microgpu_common::raster::{covers_at, Shape};
use microgpu_common::texture::{Sprite, TextureStore};
use microgpu_common::{Commands, Display, FrameBuffer, Gpu, GpuError, Responses, Status};

/// Drains the frame at once and hands it straight back.
struct DrainingDisplay {
    width: usize,
    height: usize,
    frames: usize,
    last_pixels: Vec<u16>,
}

impl Display for DrainingDisplay {
    fn width(&self) -> usize {
        self.width
    }

    fn height(&self) -> usize {
        self.height
    }

    fn draw_frame(&mut self, frame: FrameBuffer) -> Option<FrameBuffer> {
        self.frames += 1;
        self.last_pixels = frame.pixel_values();
        Some(frame)
    }
}

/// Keeps the frame and hands back the one it held before.
struct RetainingDisplay {
    held: Option<FrameBuffer>,
}

impl Display for RetainingDisplay {
    fn width(&self) -> usize {
        240
    }

    fn height(&self) -> usize {
        320
    }

    fn draw_frame(&mut self, frame: FrameBuffer) -> Option<FrameBuffer> {
        self.held.replace(frame)
    }
}

/// Executes a command, presenting on `d` and taking back what it returns.
fn run<D: Display>(g: &mut Gpu, cmd: Commands, d: &mut D, fps: u8) -> Result<(), GpuError> {
    let (w, h) = (d.width(), d.height());
    match g.execute(cmd, w, h, fps)? {
        Some(frame) => {
            let back = d.draw_frame(frame);
            g.reclaim(back)
        }
        None => Ok(()),
    }
}

fn panel() -> DrainingDisplay {
    DrainingDisplay { width: 240, height: 320, frames: 0, last_pixels: Vec::new() }
}

fn ready_gpu(d: &mut DrainingDisplay, scale: u8) -> Gpu {
    let mut g = Gpu::new();
    assert_eq!(run(&mut g, Commands::Initialize { render_scale: scale }, d, 0), Ok(()));
    g
}

/// The cells that the midpoint-circle algorithm plots for radius `r`.
fn midpoint_outline(r: i64) -> Vec<(i64, i64)> {
    let mut pts = Vec::new();
    let (mut x, mut y, mut d) = (0i64, r, 1 - r);
    while x <= y {
        for p in [(x, y), (y, x), (-x, y), (-y, x), (x, -y), (y, -x), (-x, -y), (-y, -x)] {
            if !pts.contains(&p) {
                pts.push(p);
            }
        }
        if d < 0 {
            d += 2 * x + 3;
        } else {
            d += 2 * (x - y) + 5;
            y -= 1;
        }
        x += 1;
    }
    pts
}

/// The cells of each row between the symmetric extents of the midpoint circle.
fn midpoint_fill(r: i64) -> Vec<(i64, i64)> {
    let outline = midpoint_outline(r);
    let mut cells = Vec::new();
    for dy in -r..=r {
        let extent = outline.iter().filter(|p| p.1 == dy).map(|p| p.0.abs()).max().unwrap();
        for dx in -extent..=extent {
            cells.push((dx, dy));
        }
    }
    cells
}

#[test]
fn circles_match_the_midpoint_algorithm() {
    for r in 0..=40u8 {
        let outline = midpoint_outline(r as i64);
        let fill = midpoint_fill(r as i64);
        let ring = Shape::Circle { center_x: 100, center_y: 100, radius: r, fill: false };
        let disk = Shape::Circle { center_x: 100, center_y: 100, radius: r, fill: true };
        for y in 50..=150u16 {
            for x in 50..=150u16 {
                let off = (x as i64 - 100, y as i64 - 100);
                assert_eq!(covers_at(&ring, x, y), outline.contains(&off), "outline r={} at {:?}", r, off);
                assert_eq!(covers_at(&disk, x, y), fill.contains(&off), "fill r={} at {:?}", r, off);
            }
        }
    }
}

fn px(g: &Gpu, x: usize, y: usize) -> u16 {
    g.frame_buffer().unwrap().pixel_at(x, y).unwrap()
}

fn count_color(g: &Gpu, color: u16) -> usize {
    g.frame_buffer().unwrap().pixel_values().iter().filter(|p| **p == color).count()
}

#[test]
fn initialize_scale_two_halves_render_size() {
    let mut d = panel();
    let g = ready_gpu(&mut d, 2);
    let expected = Status { display_width: 240, display_height: 320, render_width: 120, render_height: 160 };
    assert_eq!(g.status(), Ok(Responses::Status(expected)));
    let fb = g.frame_buffer().unwrap();
    assert_eq!((fb.width(), fb.height()), (120, 160));
    assert!(fb.pixel_values().iter().all(|p| *p == 0));
}

#[test]
fn filled_circle_on_scaled_buffer() {
    let mut d = panel();
    let mut g = ready_gpu(&mut d, 2);
    let cmd = Commands::DrawCircle { center_x: 60, center_y: 80, radius: 10, fill: true, color: 0xF800 };
    assert_eq!(run(&mut g, cmd, &mut d, 0), Ok(()));
    assert_eq!(px(&g, 60, 80), 0xF800);
    assert_eq!(px(&g, 70, 80), 0xF800);
    assert_eq!(px(&g, 60, 70), 0xF800);
    assert_eq!(px(&g, 66, 88), 0xF800);
    assert_eq!(px(&g, 71, 80), 0);
    assert_eq!(px(&g, 68, 88), 0);
    let disk = midpoint_fill(10);
    assert_eq!(count_color(&g, 0xF800), disk.len());
    for y in 0..160usize {
        for x in 0..120usize {
            let inside = disk.contains(&(x as i64 - 60, y as i64 - 80));
            assert_eq!(px(&g, x, y) == 0xF800, inside);
        }
    }
}

#[test]
fn circle_outline_is_disk_boundary() {
    let mut d = panel();
    let mut g = ready_gpu(&mut d, 2);
    let cmd = Commands::DrawCircle { center_x: 20, center_y: 20, radius: 3, fill: false, color: 7 };
    assert_eq!(run(&mut g, cmd, &mut d, 0), Ok(()));
    assert_eq!(px(&g, 23, 20), 7);
    assert_eq!(px(&g, 17, 20), 7);
    assert_eq!(px(&g, 20, 17), 7);
    assert_eq!(px(&g, 20, 20), 0);
    assert_eq!(px(&g, 21, 21), 0);
    assert_eq!(px(&g, 24, 20), 0);
}

#[test]
fn circle_partly_off_buffer_is_clipped() {
    let mut d = panel();
    let mut g = ready_gpu(&mut d, 2);
    let cmd = Commands::DrawCircle { center_x: 0, center_y: 0, radius: 2, fill: true, color: 9 };
    assert_eq!(run(&mut g, cmd, &mut d, 0), Ok(()));
    // quarter of the radius-2 disk: rows 0 and 1 reach column 2, row 2 column 1
    assert_eq!(count_color(&g, 9), 8);
}

#[test]
fn rectangle_at_right_edge_draws_one_column() {
    let mut d = panel();
    let mut g = ready_gpu(&mut d, 2);
    let cmd = Commands::DrawRectangle { x: 119, y: 0, width: 5, height: 1, fill: true, color: 0x001F };
    assert_eq!(run(&mut g, cmd, &mut d, 0), Ok(()));
    assert_eq!(px(&g, 119, 0), 0x001F);
    assert_eq!(count_color(&g, 0x001F), 1);
}

#[test]
fn rectangle_fully_off_buffer_is_a_no_op() {
    let mut d = panel();
    let mut g = ready_gpu(&mut d, 2);
    let cmd = Commands::DrawRectangle { x: 200, y: 200, width: 10, height: 10, fill: true, color: 5 };
    assert_eq!(run(&mut g, cmd, &mut d, 0), Ok(()));
    assert_eq!(count_color(&g, 0), 120 * 160);
}

#[test]
fn unfilled_rectangle_draws_border_only() {
    let mut d = panel();
    let mut g = ready_gpu(&mut d, 2);
    let cmd = Commands::DrawRectangle { x: 2, y: 3, width: 4, height: 3, fill: false, color: 5 };
    assert_eq!(run(&mut g, cmd, &mut d, 0), Ok(()));
    assert_eq!(count_color(&g, 5), 10);
    assert_eq!(px(&g, 3, 4), 0);
    assert_eq!(px(&g, 4, 4), 0);
    assert_eq!(px(&g, 2, 3), 5);
    assert_eq!(px(&g, 5, 5), 5);
    assert_eq!(px(&g, 6, 5), 0);
}

#[test]
fn later_draw_wins_at_overlap() {
    let mut d = panel();
    let mut g = ready_gpu(&mut d, 2);
    let rect = Commands::DrawRectangle { x: 10, y: 10, width: 20, height: 20, fill: true, color: 0x07E0 };
    let circle = Commands::DrawCircle { center_x: 20, center_y: 20, radius: 5, fill: true, color: 0xF800 };
    assert_eq!(run(&mut g, rect, &mut d, 0), Ok(()));
    assert_eq!(run(&mut g, circle, &mut d, 0), Ok(()));
    assert_eq!(px(&g, 20, 20), 0xF800);
    assert_eq!(px(&g, 11, 11), 0x07E0);
    let rect_again = Commands::DrawRectangle { x: 10, y: 10, width: 20, height: 20, fill: true, color: 0x07E0 };
    assert_eq!(run(&mut g, rect_again, &mut d, 0), Ok(()));
    assert_eq!(px(&g, 20, 20), 0x07E0);
}

#[test]
fn triangle_edges_and_fill() {
    let mut d = panel();
    let mut g = ready_gpu(&mut d, 2);
    let outline = Commands::DrawTriangle { x0: 0, y0: 0, x1: 10, y1: 0, x2: 0, y2: 10, fill: false, color: 3 };
    assert_eq!(run(&mut g, outline, &mut d, 0), Ok(()));
    for i in 0..=10usize {
        assert_eq!(px(&g, i, 0), 3);
        assert_eq!(px(&g, 0, i), 3);
        assert_eq!(px(&g, 10 - i, i), 3);
    }
    assert_eq!(px(&g, 2, 2), 0);
    assert_eq!(count_color(&g, 3), 30);
    let filled = Commands::DrawTriangle { x0: 0, y0: 0, x1: 10, y1: 0, x2: 0, y2: 10, fill: true, color: 4 };
    assert_eq!(run(&mut g, filled, &mut d, 0), Ok(()));
    assert_eq!(px(&g, 2, 2), 4);
    assert_eq!(px(&g, 6, 6), 0);
    // cells with x + y <= 10
    assert_eq!(count_color(&g, 4), 66);
}

#[test]
fn diagonal_segment_steps_once_per_column() {
    let s = Shape::Triangle { x0: 0, y0: 0, x1: 4, y1: 2, x2: 0, y2: 0, fill: false };
    let row_of: Vec<u16> = (0..=4u16)
        .map(|x| (0..=2u16).find(|y| covers_at(&s, x, *y)).unwrap())
        .collect();
    assert_eq!(row_of, vec![0, 1, 1, 2, 2]);
    for x in 0..=4u16 {
        assert_eq!((0..=2u16).filter(|y| covers_at(&s, x, *y)).count(), 1);
    }
}

#[test]
fn commands_before_initialize_are_refused() {
    let mut d = panel();
    let mut g = Gpu::new();
    assert_eq!(g.status(), Err(GpuError::NotInitialized));
    assert_eq!(run(&mut g, Commands::DisplayFrame, &mut d, 0), Err(GpuError::NotInitialized));
    assert_eq!(d.frames, 0);
    assert_eq!(run(&mut g, Commands::ShowFps(true), &mut d, 0), Err(GpuError::NotInitialized));
    assert_eq!(run(&mut g, Commands::ClearSprites, &mut d, 0), Err(GpuError::NotInitialized));
    let tex = Commands::SetTexture { width: 1, height: 1, colors: vec![1] };
    assert_eq!(run(&mut g, tex, &mut d, 0), Err(GpuError::NotInitialized));
    assert_eq!(g.store().texture_size(), None);
    let rect = Commands::DrawRectangle { x: 0, y: 0, width: 1, height: 1, fill: true, color: 1 };
    assert_eq!(run(&mut g, rect, &mut d, 0), Err(GpuError::NotInitialized));
    let text = Commands::DrawText { font_id: 0, color: 1, text: String::from("a") };
    assert_eq!(run(&mut g, text, &mut d, 0), Err(GpuError::NotInitialized));
    assert!(g.frame_buffer().is_none());
}

#[test]
fn define_sprite_without_texture_is_refused_consistently() {
    let mut d = panel();
    let mut g = Gpu::new();
    for _ in 0..2 {
        let cmd = Commands::DefineSprite { id: 1, x: 0, y: 0, width: 8, height: 8 };
        assert_eq!(run(&mut g, cmd, &mut d, 0), Err(GpuError::NotInitialized));
    }
    assert_eq!(run(&mut g, Commands::Initialize { render_scale: 1 }, &mut d, 0), Ok(()));
    for _ in 0..2 {
        let cmd = Commands::DefineSprite { id: 1, x: 0, y: 0, width: 8, height: 8 };
        assert_eq!(run(&mut g, cmd, &mut d, 0), Err(GpuError::OutOfBounds));
    }
    assert_eq!(g.store().sprite(1), Err(GpuError::UnknownSprite));
}

#[test]
fn texture_round_trip_and_size_mismatch() {
    let mut d = panel();
    let mut g = ready_gpu(&mut d, 1);
    let bad_first = Commands::SetTexture { width: 2, height: 2, colors: vec![1, 2, 3] };
    assert_eq!(run(&mut g, bad_first, &mut d, 0), Err(GpuError::SizeMismatch));
    assert_eq!(g.store().texture_size(), None);
    let good = Commands::SetTexture { width: 2, height: 2, colors: vec![10, 11, 12, 13] };
    assert_eq!(run(&mut g, good, &mut d, 0), Ok(()));
    assert_eq!(g.store().texture_size(), Some((2, 2)));
    assert_eq!(g.store().texel(1, 1), Some(13));
    assert_eq!(g.store().texel(0, 1), Some(12));
    assert_eq!(g.store().texel(2, 0), None);
    let bad = Commands::SetTexture { width: 2, height: 2, colors: vec![1, 2, 3] };
    assert_eq!(run(&mut g, bad, &mut d, 0), Err(GpuError::SizeMismatch));
    assert_eq!(g.store().texture_size(), Some((2, 2)));
    assert_eq!(g.store().texel(1, 1), Some(13));
}

#[test]
fn sprites_define_replace_and_dangle() {
    let mut store = TextureStore::new();
    assert_eq!(store.set_texture(4, 4, vec![0; 16]), Ok(()));
    assert_eq!(store.define_sprite(3, 0, 0, 4, 4), Ok(()));
    assert_eq!(store.define_sprite(3, 1, 1, 2, 2), Ok(()));
    assert_eq!(store.sprite(3), Ok(Sprite { id: 3, x: 1, y: 1, width: 2, height: 2 }));
    assert_eq!(store.define_sprite(4, 3, 0, 2, 1), Err(GpuError::OutOfBounds));
    assert_eq!(store.sprite(4), Err(GpuError::UnknownSprite));
    assert_eq!(store.define_sprite(5, 0, 0, 4, 4), Ok(()));
    assert_eq!(store.set_texture(2, 2, vec![0; 4]), Ok(()));
    assert_eq!(store.sprite(5), Err(GpuError::UnknownSprite));
    assert_eq!(store.sprite(3), Err(GpuError::UnknownSprite));
    assert_eq!(store.set_texture(3, 3, vec![0; 9]), Ok(()));
    assert_eq!(store.sprite(3), Ok(Sprite { id: 3, x: 1, y: 1, width: 2, height: 2 }));
}

#[test]
fn clear_sprites_twice_equals_once() {
    let mut d = panel();
    let mut g = ready_gpu(&mut d, 1);
    let tex = Commands::SetTexture { width: 8, height: 8, colors: vec![1; 64] };
    assert_eq!(run(&mut g, tex, &mut d, 0), Ok(()));
    let sp = Commands::DefineSprite { id: 1, x: 0, y: 0, width: 8, height: 8 };
    assert_eq!(run(&mut g, sp, &mut d, 0), Ok(()));
    assert!(g.store().sprite(1).is_ok());
    assert_eq!(run(&mut g, Commands::ClearSprites, &mut d, 0), Ok(()));
    let after_once: Vec<_> = (0..=255u8).map(|i| g.store().sprite(i)).collect();
    assert_eq!(run(&mut g, Commands::ClearSprites, &mut d, 0), Ok(()));
    let after_twice: Vec<_> = (0..=255u8).map(|i| g.store().sprite(i)).collect();
    assert_eq!(after_once, after_twice);
    assert!(after_twice.iter().all(|s| *s == Err(GpuError::UnknownSprite)));
    assert_eq!(g.store().texture_size(), Some((8, 8)));
}

#[test]
fn draining_display_returns_the_same_buffer() {
    let mut d = panel();
    let mut g = ready_gpu(&mut d, 2);
    let rect = Commands::DrawRectangle { x: 0, y: 0, width: 2, height: 2, fill: true, color: 0x1234 };
    assert_eq!(run(&mut g, rect, &mut d, 0), Ok(()));
    assert_eq!(run(&mut g, Commands::DisplayFrame, &mut d, 0), Ok(()));
    assert_eq!(d.frames, 1);
    assert_eq!(d.last_pixels.len(), 120 * 160);
    assert_eq!(d.last_pixels[121], 0x1234);
    // the frame came back with its contents
    assert_eq!(px(&g, 1, 1), 0x1234);
}

#[test]
fn retaining_display_hands_back_the_previous_frame() {
    let mut d = RetainingDisplay { held: None };
    let mut g = Gpu::new();
    assert_eq!(run(&mut g, Commands::Initialize { render_scale: 2 }, &mut d, 0), Ok(()));
    let rect = Commands::DrawRectangle { x: 0, y: 0, width: 1, height: 1, fill: true, color: 0xAAAA };
    assert_eq!(run(&mut g, rect, &mut d, 0), Ok(()));
    assert_eq!(run(&mut g, Commands::DisplayFrame, &mut d, 0), Ok(()));
    // nothing came back on the first call: a blank frame of render size
    let fb = g.frame_buffer().unwrap();
    assert_eq!((fb.width(), fb.height()), (120, 160));
    assert_eq!(fb.pixel_at(0, 0), Ok(0));
    assert_eq!(d.held.as_ref().unwrap().pixel_at(0, 0), Ok(0xAAAA));
    let rect2 = Commands::DrawRectangle { x: 0, y: 0, width: 1, height: 1, fill: true, color: 0xBBBB };
    assert_eq!(run(&mut g, rect2, &mut d, 0), Ok(()));
    assert_eq!(run(&mut g, Commands::DisplayFrame, &mut d, 0), Ok(()));
    // the first frame came back
    assert_eq!(px(&g, 0, 0), 0xAAAA);
    assert_eq!(d.held.as_ref().unwrap().pixel_at(0, 0), Ok(0xBBBB));
}

#[test]
fn returned_buffer_of_wrong_size_is_replaced() {
    let mut d = RetainingDisplay { held: Some(FrameBuffer::new(3, 3)) };
    let mut g = Gpu::new();
    assert_eq!(run(&mut g, Commands::Initialize { render_scale: 4 }, &mut d, 0), Ok(()));
    assert_eq!(run(&mut g, Commands::DisplayFrame, &mut d, 0), Ok(()));
    let fb = g.frame_buffer().unwrap();
    assert_eq!((fb.width(), fb.height()), (60, 80));
}

#[test]
fn reclaim_keeps_a_fitting_buffer() {
    let mut b = FrameBuffer::new(2, 2);
    b.set_pixel(1, 1, 9).unwrap();
    let kept = microgpu_common::gpu::reclaim_buffer(Some(b), 2, 2);
    assert_eq!(kept.pixel_at(1, 1), Ok(9));
    let fresh = microgpu_common::gpu::reclaim_buffer(None, 2, 3);
    assert_eq!((fresh.width(), fresh.height()), (2, 3));
    assert_eq!(fresh.pixel_at(1, 1), Ok(0));
}

#[test]
fn fps_overlay_draws_a_bar() {
    let mut d = panel();
    let mut g = ready_gpu(&mut d, 2);
    assert_eq!(run(&mut g, Commands::DisplayFrame, &mut d, 30), Ok(()));
    assert!(d.last_pixels.iter().all(|p| *p == 0));
    assert_eq!(run(&mut g, Commands::ShowFps(true), &mut d, 30), Ok(()));
    assert_eq!(g.render_config().map(|c| c.show_fps), Some(true));
    assert_eq!(run(&mut g, Commands::DisplayFrame, &mut d, 30), Ok(()));
    assert_eq!(d.last_pixels.iter().filter(|p| **p == FPS_COLOR).count(), 30);
    assert_eq!(d.last_pixels[29], FPS_COLOR);
    assert_eq!(d.last_pixels[30], 0);
    assert_eq!(d.last_pixels[120], 0);
}

#[test]
fn reinitialize_reallocates_and_keeps_overlay_flag() {
    let mut d = panel();
    let mut g = ready_gpu(&mut d, 2);
    assert_eq!(run(&mut g, Commands::ShowFps(true), &mut d, 0), Ok(()));
    let rect = Commands::DrawRectangle { x: 0, y: 0, width: 3, height: 3, fill: true, color: 1 };
    assert_eq!(run(&mut g, rect, &mut d, 0), Ok(()));
    assert_eq!(run(&mut g, Commands::Initialize { render_scale: 3 }, &mut d, 0), Ok(()));
    let expected = RenderConfig {
        render_scale: 3,
        show_fps: true,
        display_width: 240,
        display_height: 320,
        render_width: 80,
        render_height: 106,
    };
    assert_eq!(g.render_config(), Some(expected));
    assert_eq!(count_color(&g, 0), 80 * 106);
}

#[test]
fn initialize_rejects_zero_scale_and_huge_panels() {
    let mut d = panel();
    let mut g = Gpu::new();
    assert_eq!(run(&mut g, Commands::Initialize { render_scale: 0 }, &mut d, 0), Err(GpuError::InvalidRenderScale));
    assert_eq!(g.status(), Err(GpuError::NotInitialized));
    let mut big = DrainingDisplay { width: 70000, height: 10, frames: 0, last_pixels: Vec::new() };
    assert_eq!(run(&mut g, Commands::Initialize { render_scale: 1 }, &mut big, 0), Err(GpuError::DisplayTooLarge));
    assert_eq!(g.initialize(10, 70000, 1), Err(GpuError::DisplayTooLarge));
    assert!(g.render_config().is_none());
}

fn block_font() -> Font {
    // two 3x2 glyphs for 'A' and 'B': 'A' fills its left column, 'B' its top row
    Font::new(2, 'A' as u32, 3, 2, vec![0b1000_0000, 0b1000_0000, 0b1110_0000, 0]).unwrap()
}

#[test]
fn text_is_written_from_the_origin() {
    let mut d = panel();
    let mut g = ready_gpu(&mut d, 2);
    g.register_font(block_font());
    let cmd = Commands::DrawText { font_id: 2, color: 6, text: String::from("BAz") };
    assert_eq!(run(&mut g, cmd, &mut d, 0), Ok(()));
    // 'B' at columns 0..3: top row set
    assert_eq!(px(&g, 0, 0), 6);
    assert_eq!(px(&g, 2, 0), 6);
    assert_eq!(px(&g, 0, 1), 0);
    // 'A' at columns 3..6: left column set
    assert_eq!(px(&g, 3, 0), 6);
    assert_eq!(px(&g, 3, 1), 6);
    assert_eq!(px(&g, 4, 0), 0);
    // 'z' is not in the font: blank
    assert_eq!(count_color(&g, 6), 5);
}

#[test]
fn unknown_font_changes_nothing() {
    let mut d = panel();
    let mut g = ready_gpu(&mut d, 2);
    let cmd = Commands::DrawText { font_id: 9, color: 6, text: String::from("AB") };
    assert_eq!(run(&mut g, cmd, &mut d, 0), Err(GpuError::UnknownFont));
    assert_eq!(count_color(&g, 0), 120 * 160);
}

#[test]
fn font_shape_is_validated() {
    assert_eq!(Font::new(0, 32, 0, 2, vec![0, 0]).err(), Some(GpuError::SizeMismatch));
    assert_eq!(Font::new(0, 32, 9, 2, vec![0, 0]).err(), Some(GpuError::SizeMismatch));
    assert_eq!(Font::new(0, 32, 8, 0, vec![]).err(), Some(GpuError::SizeMismatch));
    assert_eq!(Font::new(0, 32, 8, 2, vec![0, 0, 0]).err(), Some(GpuError::SizeMismatch));
    assert_eq!(Font::new(7, 32, 8, 2, vec![0, 0, 0, 0]).map(|f| f.id()).ok(), Some(7));
}

#[test]
fn overlay_is_clipped_and_off_by_default() {
    let mut d = panel();
    let mut g = ready_gpu(&mut d, 2);
    assert_eq!(g.apply_overlay(200), Ok(()));
    assert_eq!(count_color(&g, FPS_COLOR), 0);
    assert_eq!(g.set_show_fps(true), Ok(()));
    assert_eq!(g.apply_overlay(200), Ok(()));
    // the bar is wider than the 120-pixel frame: only the top row is painted
    assert_eq!(count_color(&g, FPS_COLOR), 120);
    assert_eq!(px(&g, 119, 0), FPS_COLOR);
    assert_eq!(px(&g, 0, 1), 0);
    let mut fresh = Gpu::new();
    assert_eq!(fresh.apply_overlay(5), Err(GpuError::NotInitialized));
}

#[test]
fn status_tracks_reconfiguration() {
    let mut d = panel();
    let mut g = ready_gpu(&mut d, 1);
    let s1 = Status { display_width: 240, display_height: 320, render_width: 240, render_height: 320 };
    assert_eq!(g.status(), Ok(Responses::Status(s1)));
    assert_eq!(g.initialize(100, 50, 4), Ok(()));
    let s2 = Status { display_width: 100, display_height: 50, render_width: 25, render_height: 12 };
    assert_eq!(g.status(), Ok(Responses::Status(s2)));
}

#[test]
fn filled_triangle_spans_its_edges_on_every_row() {
    let mut seed: u32 = 12345;
    let mut next = move || {
        seed = seed.wrapping_mul(1103515245).wrapping_add(12345);
        ((seed >> 16) % 40) as u8
    };
    for _ in 0..300 {
        let (x0, y0, x1, y1, x2, y2) = (next(), next(), next(), next(), next(), next());
        let edges = Shape::Triangle { x0, y0, x1, y1, x2, y2, fill: false };
        let solid = Shape::Triangle { x0, y0, x1, y1, x2, y2, fill: true };
        for y in 0..45u16 {
            let row: Vec<u16> = (0..45u16).filter(|x| covers_at(&edges, *x, y)).collect();
            for x in 0..45u16 {
                let inside = match (row.first(), row.last()) {
                    (Some(lo), Some(hi)) => *lo <= x && x <= *hi,
                    _ => false,
                };
                assert_eq!(covers_at(&solid, x, y), inside, "{:?} at ({}, {})", (x0, y0, x1, y1, x2, y2), x, y);
            }
        }
    }
}

#[test]
fn presented_frame_holds_the_clipped_rectangle() {
    let mut d = panel();
    let mut g = ready_gpu(&mut d, 2);
    let cmd = Commands::DrawRectangle { x: 119, y: 0, width: 5, height: 1, fill: true, color: 0xF800 };
    assert_eq!(run(&mut g, cmd, &mut d, 0), Ok(()));
    assert_eq!(run(&mut g, Commands::DisplayFrame, &mut d, 0), Ok(()));
    assert_eq!(d.last_pixels.len(), 19200);
    assert_eq!(d.last_pixels[119], 0xF800);
    assert_eq!(d.last_pixels.iter().filter(|p| **p != 0).count(), 1);
}

#[test]
fn frame_is_away_between_present_and_reclaim() {
    let mut d = panel();
    let mut g = ready_gpu(&mut d, 2);
    let frame = g.execute(Commands::DisplayFrame, 240, 320, 0).unwrap().unwrap();
    assert_eq!((frame.width(), frame.height()), (120, 160));
    assert!(g.frame_buffer().is_none());
    assert_eq!(g.execute(Commands::DisplayFrame, 240, 320, 0).err(), Some(GpuError::FrameAtDisplay));
    let rect = Commands::DrawRectangle { x: 0, y: 0, width: 1, height: 1, fill: true, color: 1 };
    assert_eq!(g.execute(rect, 240, 320, 0).err(), Some(GpuError::FrameAtDisplay));
    assert_eq!(g.apply_overlay(3), Err(GpuError::FrameAtDisplay));
    // state-only commands still run
    assert!(matches!(g.execute(Commands::ShowFps(true), 240, 320, 0), Ok(None)));
    assert_eq!(g.reclaim(Some(frame)), Ok(()));
    assert_eq!(g.frame_buffer().map(|f| (f.width(), f.height())), Some((120, 160)));
    let mut fresh = Gpu::new();
    assert_eq!(fresh.reclaim(None), Err(GpuError::NotInitialized));
}

#[test]
fn nothing_reaches_the_display_before_initialize() {
    let mut d = panel();
    let mut g = Gpu::new();
    assert_eq!(run(&mut g, Commands::DisplayFrame, &mut d, 0), Err(GpuError::NotInitialized));
    assert_eq!(d.frames, 0);
    assert_eq!(run(&mut g, Commands::Initialize { render_scale: 4 }, &mut d, 0), Ok(()));
    assert_eq!(run(&mut g, Commands::DisplayFrame, &mut d, 0), Ok(()));
    assert_eq!(d.frames, 1);
    assert_eq!(d.last_pixels.len(), 60 * 80);
}
