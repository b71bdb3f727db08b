use vstd::prelude::*;
use vstd::string::*;
use crate::error::GpuError;
use crate::framebuffer::FrameBuffer;

verus! {

/// A bitmap font: `glyph_count` glyphs for consecutive character codes from
/// `first_char`, each `glyph_width` (at most eight) by `glyph_height` cells.
/// Glyph `g` is the rows `g * glyph_height ..` of `rows`, one byte per row,
/// the leftmost cell in the most significant bit.
pub struct Font {
    id: u8,
    first_char: u32,
    glyph_width: u8,
    glyph_height: u8,
    glyph_count: usize,
    rows: Vec<u8>,
}

/// Cell `col` (from the left) of a glyph row is set.
pub open spec fn row_bit(row: u8, col: int) -> bool {
    ((row >> ((7 - col) as u8)) & 1u8) == 1u8
}

impl Font {
    pub closed spec fn spec_id(&self) -> u8 {
        self.id
    }

    pub closed spec fn spec_first_char(&self) -> u32 {
        self.first_char
    }

    pub closed spec fn spec_glyph_width(&self) -> nat {
        self.glyph_width as nat
    }

    pub closed spec fn spec_glyph_height(&self) -> nat {
        self.glyph_height as nat
    }

    pub closed spec fn spec_glyph_count(&self) -> nat {
        self.glyph_count as nat
    }

    pub closed spec fn spec_rows(&self) -> Seq<u8> {
        self.rows@
    }

    pub open spec fn wf(&self) -> bool {
        &&& 1 <= self.spec_glyph_width() <= 8
        &&& 1 <= self.spec_glyph_height()
        &&& self.spec_rows().len() == self.spec_glyph_count() * self.spec_glyph_height()
    }

    /// Builds a font; `SizeMismatch` when the glyph width is not in `1..=8`, the
    /// height is zero, or `rows` does not hold whole glyphs.
    pub fn new(id: u8, first_char: u32, glyph_width: u8, glyph_height: u8, rows: Vec<u8>) -> (r:
        Result<Font, GpuError>)
        ensures
            (1 <= glyph_width <= 8 && 1 <= glyph_height && rows@.len() % (glyph_height as nat)
                == 0) <==> r is Ok,
            r is Err ==> r == Err::<Font, GpuError>(GpuError::SizeMismatch),
            r matches Ok(f) ==> {
                &&& f.wf()
                &&& f.spec_id() == id
                &&& f.spec_first_char() == first_char
                &&& f.spec_glyph_width() == glyph_width
                &&& f.spec_glyph_height() == glyph_height
                &&& f.spec_rows() == rows@
            },
    {
        if glyph_width < 1 || glyph_width > 8 || glyph_height < 1 {
            return Err(GpuError::SizeMismatch);
        }
        let count: usize = rows.len() / glyph_height as usize;
        if rows.len() % glyph_height as usize != 0 {
            return Err(GpuError::SizeMismatch);
        }
        proof {
            vstd::arithmetic::div_mod::lemma_fundamental_div_mod(
                rows@.len() as int,
                glyph_height as int,
            );
            assert(count * glyph_height == glyph_height * count) by (nonlinear_arith);
        }
        Ok(Font { id, first_char, glyph_width, glyph_height, glyph_count: count, rows })
    }

    pub fn id(&self) -> (r: u8)
        ensures
            r == self.spec_id(),
    {
        self.id
    }
}

/// `after` is `before` with `text` written in one colour with font `f`.
pub open spec fn text_painted(before: FrameBuffer, after: FrameBuffer, f: Font, text: Seq<char>, color: u16) -> bool {
    &&& after.wf()
    &&& after.spec_width() == before.spec_width()
    &&& after.spec_height() == before.spec_height()
    &&& forall|px: int, py: int|
        0 <= px < before.spec_width() && 0 <= py < before.spec_height()
            ==> #[trigger] after.pixel(px, py) == if text_covers(f, text, px, py) {
            color
        } else {
            before.pixel(px, py)
        }
}

/// The cell `(px, py)` is set when `text` is written with font `f`, the pen at
/// the origin and advancing by the glyph width per character. Characters that
/// the font lacks leave their cells blank.
pub open spec fn text_covers(f: Font, text: Seq<char>, px: int, py: int) -> bool {
    let gw = f.spec_glyph_width() as int;
    let gh = f.spec_glyph_height() as int;
    let k = px / gw;
    let g = (text[k] as u32) as int - f.spec_first_char() as int;
    &&& 0 <= px
    &&& 0 <= py < gh
    &&& k < text.len()
    &&& 0 <= g < f.spec_glyph_count()
    &&& row_bit(f.spec_rows()[g * gh + py], px % gw)
}

fn text_cell(f: &Font, chars: &Vec<char>, px: usize, py: usize) -> (r: bool)
    requires
        f.wf(),
    ensures
        r == text_covers(*f, chars@, px as int, py as int),
{
    let len: usize = f.rows.len();
    let k: usize = px / f.glyph_width as usize;
    if py >= f.glyph_height as usize || k >= chars.len() {
        return false;
    }
    let code = chars[k] as u32;
    if code < f.first_char || (code - f.first_char) as usize >= f.glyph_count {
        return false;
    }
    let g: usize = (code - f.first_char) as usize;
    proof {
        crate::framebuffer::lemma_index_in_grid(
            py as int,
            g as int,
            f.glyph_height as int,
            f.glyph_count as int,
        );
        assert(f.glyph_height * f.glyph_count == f.glyph_count * f.glyph_height) by (
        nonlinear_arith);
    }
    let row = f.rows[g * f.glyph_height as usize + py];
    let col: usize = px % f.glyph_width as usize;
    ((row >> ((7 - col) as u8)) & 1u8) == 1u8
}

/// The characters of a string, in order.
pub fn chars_of(text: &String) -> (r: Vec<char>)
    ensures
        r@ == text@,
{
    let s = text.as_str();
    let n = s.unicode_len();
    let mut r: Vec<char> = Vec::new();
    let mut i: usize = 0;
    while i < n
        invariant
            n == s@.len(),
            s@ == text@,
            i <= n,
            r@ == s@.subrange(0, i as int),
        decreases n - i,
    {
        r.push(s.get_char(i));
        i = i + 1;
        assert(r@ =~= s@.subrange(0, i as int));
    }
    assert(r@ =~= s@);
    r
}

/// Writes `text` into the buffer with font `f` in one colour, from the origin.
/// Set glyph cells take the colour; every other pixel keeps its value, and
/// cells off the buffer are clipped.
pub fn draw_text(fb: &mut FrameBuffer, f: &Font, text: &String, color: u16)
    requires
        old(fb).wf(),
        f.wf(),
    ensures
        text_painted(*old(fb), *final(fb), *f, text@, color),
{
    let chars = chars_of(text);
    let w = fb.width();
    let h = fb.height();
    let y_hi: usize = if (f.glyph_height as usize) < h {
        f.glyph_height as usize
    } else {
        h
    };
    let mut y: usize = 0;
    while y < y_hi
        invariant
            fb.wf(),
            f.wf(),
            chars@ == text@,
            fb.spec_width() == w == old(fb).spec_width(),
            fb.spec_height() == h == old(fb).spec_height(),
            y_hi == if f.spec_glyph_height() < h { f.spec_glyph_height() } else { h as nat },
            forall|px: int, py: int|
                0 <= px < w && 0 <= py < h ==> #[trigger] fb.pixel(px, py) == if text_covers(
                    *f,
                    text@,
                    px,
                    py,
                ) && py < y {
                    color
                } else {
                    old(fb).pixel(px, py)
                },
        decreases y_hi - y,
    {
        let mut x: usize = 0;
        while x < w
            invariant
                fb.wf(),
                f.wf(),
                chars@ == text@,
                fb.spec_width() == w == old(fb).spec_width(),
                fb.spec_height() == h == old(fb).spec_height(),
                y < y_hi,
                y_hi == if f.spec_glyph_height() < h { f.spec_glyph_height() } else { h as nat },
                forall|px: int, py: int|
                    0 <= px < w && 0 <= py < h ==> #[trigger] fb.pixel(px, py) == if text_covers(
                        *f,
                        text@,
                        px,
                        py,
                    ) && (py < y || (py == y && px < x)) {
                        color
                    } else {
                        old(fb).pixel(px, py)
                    },
            decreases w - x,
        {
            if text_cell(f, &chars, x, y) {
                fb.put_xy(x, y, color);
            }
            x = x + 1;
        }
        y = y + 1;
    }
}

} // verus!
