use vstd::prelude::*;
use crate::framebuffer::FrameBuffer;

verus! {

/// A primitive that the rasterizer can paint, in buffer coordinates.
#[derive(Clone, Copy, Debug, PartialEq, Eq, Structural)]
pub enum Shape {
    /// Axis-aligned rectangle with its top-left corner at `(x, y)`.
    Rectangle { x: u8, y: u8, width: u8, height: u8, fill: bool },
    /// Circle of the given radius around `(center_x, center_y)`: filled, every
    /// row between the symmetric extents of the midpoint circle; outlined, the
    /// cells of that disk with a side neighbour outside it.
    Circle { center_x: u8, center_y: u8, radius: u8, fill: bool },
    /// Triangle through three corners: outlined, its three edge segments;
    /// filled, those and every cell inside them.
    Triangle { x0: u8, y0: u8, x1: u8, y1: u8, x2: u8, y2: u8, fill: bool },
}

pub open spec fn min_int(a: int, b: int) -> int {
    if a < b { a } else { b }
}

pub open spec fn max_int(a: int, b: int) -> int {
    if a < b { b } else { a }
}

pub open spec fn abs_int(a: int) -> int {
    if a < 0 { -a } else { a }
}

pub open spec fn sign_int(a: int) -> int {
    if a < 0 { -1 } else if a == 0 { 0 } else { 1 }
}

/// Half-open bounding box `(x_lo, y_lo, x_hi, y_hi)` outside which a shape covers nothing.
pub open spec fn box_of(s: Shape) -> (int, int, int, int) {
    match s {
        Shape::Rectangle { x, y, width, height, .. } => (
            x as int,
            y as int,
            x + width,
            y + height,
        ),
        Shape::Circle { center_x, center_y, radius, .. } => (
            center_x - radius,
            center_y - radius,
            center_x + radius + 1,
            center_y + radius + 1,
        ),
        Shape::Triangle { x0, y0, x1, y1, x2, y2, .. } => (
            min_int(x0 as int, min_int(x1 as int, x2 as int)),
            min_int(y0 as int, min_int(y1 as int, y2 as int)),
            max_int(x0 as int, max_int(x1 as int, x2 as int)) + 1,
            max_int(y0 as int, max_int(y1 as int, y2 as int)) + 1,
        ),
    }
}

/// The cell lies in the shape's bounding box.
pub open spec fn in_box(s: Shape, px: int, py: int) -> bool {
    let b = box_of(s);
    b.0 <= px < b.2 && b.1 <= py < b.3
}

/// The cell at offset `(dx, dy)` from a circle's centre lies in the disk that
/// the midpoint-circle algorithm encloses. In the octant where `a <= b` are the
/// two offsets' magnitudes, that algorithm keeps, for each `a`, the largest `b`
/// whose half-cell midpoint `(a, b - 1/2)` lies inside the circle, which is
/// `a * a + b * b - b < r * r`; a radius of zero keeps the centre alone.
pub open spec fn in_disk(r: int, dx: int, dy: int) -> bool {
    let a = min_int(abs_int(dx), abs_int(dy));
    let b = max_int(abs_int(dx), abs_int(dy));
    (a == 0 && b == 0) || a * a + b * b - b < r * r
}

/// Signed doubled area of `(a, b, p)`: positive on one side of the line `a b`,
/// negative on the other, zero on it.
pub open spec fn edge(ax: int, ay: int, bx: int, by: int, px: int, py: int) -> int {
    (bx - ax) * (py - ay) - (by - ay) * (px - ax)
}

/// The cell `p` lies on the rasterized segment from `a` to `b`: each step
/// along the major axis holds exactly one cell, the one nearest to the ideal
/// line (on a tie, the one with the larger minor coordinate), so the segment
/// is the same in both directions.
pub open spec fn on_segment(ax: int, ay: int, bx: int, by: int, px: int, py: int) -> bool {
    let dx = bx - ax;
    let dy = by - ay;
    &&& min_int(ax, bx) <= px <= max_int(ax, bx)
    &&& min_int(ay, by) <= py <= max_int(ay, by)
    &&& if dx == 0 && dy == 0 {
        true
    } else if abs_int(dx) >= abs_int(dy) {
        let e = 2 * ((py - ay) * dx - (px - ax) * dy) * sign_int(dx);
        -abs_int(dx) < e <= abs_int(dx)
    } else {
        let e = 2 * ((px - ax) * dy - (py - ay) * dx) * sign_int(dy);
        -abs_int(dy) < e <= abs_int(dy)
    }
}

/// What the shape paints, before clipping: the cells of the shape's outline,
/// and with `fill` its interior too.
pub open spec fn shape_cell(s: Shape, px: int, py: int) -> bool {
    match s {
        Shape::Rectangle { x, y, width, height, fill } => fill || px == x || px == x + width - 1
            || py == y || py == y + height - 1,
        Shape::Circle { center_x, center_y, radius, fill } => {
            let dx = px - center_x;
            let dy = py - center_y;
            let r = radius as int;
            &&& in_disk(r, dx, dy)
            &&& (fill || !in_disk(r, dx + 1, dy) || !in_disk(r, dx - 1, dy) || !in_disk(
                r,
                dx,
                dy + 1,
            ) || !in_disk(r, dx, dy - 1))
        },
        Shape::Triangle { x0, y0, x1, y1, x2, y2, fill } => {
            let e0 = edge(x0 as int, y0 as int, x1 as int, y1 as int, px, py);
            let e1 = edge(x1 as int, y1 as int, x2 as int, y2 as int, px, py);
            let e2 = edge(x2 as int, y2 as int, x0 as int, y0 as int, px, py);
            ||| on_segment(x0 as int, y0 as int, x1 as int, y1 as int, px, py)
            ||| on_segment(x1 as int, y1 as int, x2 as int, y2 as int, px, py)
            ||| on_segment(x2 as int, y2 as int, x0 as int, y0 as int, px, py)
            ||| fill && ((e0 >= 0 && e1 >= 0 && e2 >= 0) || (e0 <= 0 && e1 <= 0 && e2 <= 0))
        },
    }
}

/// The cell `(px, py)` is painted by the shape.
pub open spec fn covers(s: Shape, px: int, py: int) -> bool {
    in_box(s, px, py) && shape_cell(s, px, py)
}

/// `after` is `before` with the shape painted in one colour.
pub open spec fn painted(before: FrameBuffer, after: FrameBuffer, s: Shape, color: u16) -> bool {
    &&& after.wf()
    &&& after.spec_width() == before.spec_width()
    &&& after.spec_height() == before.spec_height()
    &&& forall|px: int, py: int|
        0 <= px < before.spec_width() && 0 <= py < before.spec_height()
            ==> #[trigger] after.pixel(px, py) == if covers(s, px, py) {
            color
        } else {
            before.pixel(px, py)
        }
}

/// Product of two small integers.
fn times(a: i64, b: i64) -> (r: i64)
    requires
        -2048 <= a <= 2048,
        -2048 <= b <= 2048,
    ensures
        r == a * b,
        -2048 * 2048 <= r <= 2048 * 2048,
{
    proof {
        assert(-2048 * 2048 <= a * b <= 2048 * 2048) by (nonlinear_arith)
            requires
                -2048 <= a <= 2048,
                -2048 <= b <= 2048,
        ;
    }
    a * b
}

fn abs_i64(a: i64) -> (r: i64)
    requires
        -2048 <= a <= 2048,
    ensures
        r == abs_int(a as int),
{
    if a < 0 { -a } else { a }
}

fn sign_i64(a: i64) -> (r: i64)
    ensures
        r == sign_int(a as int),
{
    if a < 0 { -1 } else if a == 0 { 0 } else { 1 }
}

fn min_i64(a: i64, b: i64) -> (r: i64)
    ensures
        r == min_int(a as int, b as int),
{
    if a < b { a } else { b }
}

fn max_i64(a: i64, b: i64) -> (r: i64)
    ensures
        r == max_int(a as int, b as int),
{
    if a < b { b } else { a }
}

fn disk_at(r: i64, dx: i64, dy: i64) -> (b: bool)
    requires
        0 <= r <= 255,
        -1024 <= dx <= 1024,
        -1024 <= dy <= 1024,
    ensures
        b == in_disk(r as int, dx as int, dy as int),
{
    let adx = abs_i64(dx);
    let ady = abs_i64(dy);
    let a = min_i64(adx, ady);
    let b = max_i64(adx, ady);
    (a == 0 && b == 0) || times(a, a) + times(b, b) - b < times(r, r)
}

fn edge_at(ax: i64, ay: i64, bx: i64, by: i64, px: i64, py: i64) -> (r: i64)
    requires
        0 <= ax <= 255,
        0 <= ay <= 255,
        0 <= bx <= 255,
        0 <= by <= 255,
        0 <= px <= 1024,
        0 <= py <= 1024,
    ensures
        r == edge(ax as int, ay as int, bx as int, by as int, px as int, py as int),
{
    times(bx - ax, py - ay) - times(by - ay, px - ax)
}

fn segment_at(ax: i64, ay: i64, bx: i64, by: i64, px: i64, py: i64) -> (r: bool)
    requires
        0 <= ax <= 255,
        0 <= ay <= 255,
        0 <= bx <= 255,
        0 <= by <= 255,
        0 <= px <= 1024,
        0 <= py <= 1024,
    ensures
        r == on_segment(ax as int, ay as int, bx as int, by as int, px as int, py as int),
{
    if px < min_i64(ax, bx) || px > max_i64(ax, bx) || py < min_i64(ay, by) || py > max_i64(
        ay,
        by,
    ) {
        return false;
    }
    let dx = bx - ax;
    let dy = by - ay;
    if dx == 0 && dy == 0 {
        true
    } else if abs_i64(dx) >= abs_i64(dy) {
        let d = times(py - ay, dx) - times(px - ax, dy);
        let e = 2 * d * sign_i64(dx);
        -abs_i64(dx) < e && e <= abs_i64(dx)
    } else {
        let d = times(px - ax, dy) - times(py - ay, dx);
        let e = 2 * d * sign_i64(dy);
        -abs_i64(dy) < e && e <= abs_i64(dy)
    }
}

fn box_at(s: &Shape) -> (r: (i64, i64, i64, i64))
    ensures
        r.0 == box_of(*s).0,
        r.1 == box_of(*s).1,
        r.2 == box_of(*s).2,
        r.3 == box_of(*s).3,
        -255 <= r.0 <= 255,
        -255 <= r.1 <= 255,
        0 <= r.2 <= 511,
        0 <= r.3 <= 511,
{
    match *s {
        Shape::Rectangle { x, y, width, height, .. } => (
            x as i64,
            y as i64,
            x as i64 + width as i64,
            y as i64 + height as i64,
        ),
        Shape::Circle { center_x, center_y, radius, .. } => (
            center_x as i64 - radius as i64,
            center_y as i64 - radius as i64,
            center_x as i64 + radius as i64 + 1,
            center_y as i64 + radius as i64 + 1,
        ),
        Shape::Triangle { x0, y0, x1, y1, x2, y2, .. } => (
            min_i64(x0 as i64, min_i64(x1 as i64, x2 as i64)),
            min_i64(y0 as i64, min_i64(y1 as i64, y2 as i64)),
            max_i64(x0 as i64, max_i64(x1 as i64, x2 as i64)) + 1,
            max_i64(y0 as i64, max_i64(y1 as i64, y2 as i64)) + 1,
        ),
    }
}

/// Whether the shape paints the cell `(px, py)`.
pub fn covers_at(s: &Shape, px: u16, py: u16) -> (r: bool)
    ensures
        r == covers(*s, px as int, py as int),
{
    let b = box_at(s);
    let x = px as i64;
    let y = py as i64;
    if !(b.0 <= x && x < b.2 && b.1 <= y && y < b.3) {
        return false;
    }
    match *s {
        Shape::Rectangle { x: rx, y: ry, width, height, fill } => {
            fill || x == rx as i64 || x == rx as i64 + width as i64 - 1 || y == ry as i64 || y
                == ry as i64 + height as i64 - 1
        },
        Shape::Circle { center_x, center_y, radius, fill } => {
            let dx = x - center_x as i64;
            let dy = y - center_y as i64;
            let r = radius as i64;
            disk_at(r, dx, dy) && (fill || !disk_at(r, dx + 1, dy) || !disk_at(r, dx - 1, dy)
                || !disk_at(r, dx, dy + 1) || !disk_at(r, dx, dy - 1))
        },
        Shape::Triangle { x0, y0, x1, y1, x2, y2, fill } => {
            let (ax, ay, bx, by, cx, cy) = (
                x0 as i64,
                y0 as i64,
                x1 as i64,
                y1 as i64,
                x2 as i64,
                y2 as i64,
            );
            if segment_at(ax, ay, bx, by, x, y) || segment_at(bx, by, cx, cy, x, y) || segment_at(
                cx,
                cy,
                ax,
                ay,
                x,
                y,
            ) {
                return true;
            }
            if !fill {
                return false;
            }
            let e0 = edge_at(ax, ay, bx, by, x, y);
            let e1 = edge_at(bx, by, cx, cy, x, y);
            let e2 = edge_at(cx, cy, ax, ay, x, y);
            (e0 >= 0 && e1 >= 0 && e2 >= 0) || (e0 <= 0 && e1 <= 0 && e2 <= 0)
        },
    }
}

/// `v` clamped into `[0, dim]`.
fn clip(v: i64, dim: usize) -> (r: usize)
    requires
        v <= 511,
    ensures
        r == max_int(0, min_int(v as int, dim as int)),
{
    if v <= 0 {
        0
    } else if v as usize >= dim {
        dim
    } else {
        v as usize
    }
}

/// Paints the shape into the buffer in one colour. Only the cells the shape
/// covers change, and only those inside the buffer: anything off the buffer
/// is clipped silently.
pub fn paint(fb: &mut FrameBuffer, s: &Shape, color: u16)
    requires
        old(fb).wf(),
    ensures
        painted(*old(fb), *final(fb), *s, color),
{
    let b = box_at(s);
    let w = fb.width();
    let h = fb.height();
    let x_lo = clip(b.0, w);
    let x_hi = clip(b.2, w);
    let y_lo = clip(b.1, h);
    let y_hi = clip(b.3, h);
    let mut y: usize = y_lo;
    while y < y_hi
        invariant
            fb.wf(),
            fb.spec_width() == w == old(fb).spec_width(),
            fb.spec_height() == h == old(fb).spec_height(),
            y_hi <= 511,
            x_hi <= 511,
            x_lo == max_int(0, min_int(box_of(*s).0, w as int)),
            x_hi == max_int(0, min_int(box_of(*s).2, w as int)),
            y_lo == max_int(0, min_int(box_of(*s).1, h as int)),
            y_hi == max_int(0, min_int(box_of(*s).3, h as int)),
            y_lo <= y,
            forall|px: int, py: int|
                0 <= px < w && 0 <= py < h ==> #[trigger] fb.pixel(px, py) == if covers(
                    *s,
                    px,
                    py,
                ) && py < y {
                    color
                } else {
                    old(fb).pixel(px, py)
                },
        decreases y_hi - y,
    {
        let mut x: usize = x_lo;
        while x < x_hi
            invariant
                fb.wf(),
                fb.spec_width() == w == old(fb).spec_width(),
                fb.spec_height() == h == old(fb).spec_height(),
                y < y_hi <= 511,
                x_hi <= 511,
                x_lo == max_int(0, min_int(box_of(*s).0, w as int)),
                x_hi == max_int(0, min_int(box_of(*s).2, w as int)),
                y_lo == max_int(0, min_int(box_of(*s).1, h as int)),
                y_hi == max_int(0, min_int(box_of(*s).3, h as int)),
                y_lo <= y,
                x_lo <= x,
                forall|px: int, py: int|
                    0 <= px < w && 0 <= py < h ==> #[trigger] fb.pixel(px, py) == if covers(
                        *s,
                        px,
                        py,
                    ) && (py < y || (py == y && px < x)) {
                        color
                    } else {
                        old(fb).pixel(px, py)
                    },
            decreases x_hi - x,
        {
            if covers_at(s, x as u16, y as u16) {
                fb.put_xy(x, y, color);
            }
            x = x + 1;
        }
        y = y + 1;
    }
}

} // verus!
