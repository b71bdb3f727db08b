use vstd::prelude::*;
use crate::error::GpuError;

verus! {

/// Number of sprite ids, one table slot for each `u8`.
pub const SPRITE_SLOTS: usize = 256;

/// A rectangular region of the resident texture, named by `id`.
#[derive(Clone, Copy, Debug, PartialEq, Eq, Structural)]
pub struct Sprite {
    pub id: u8,
    pub x: u8,
    pub y: u8,
    pub width: u8,
    pub height: u8,
}

/// The one resident texture: `width * height` RGB565 colours, row-major.
pub struct Texture {
    width: u8,
    height: u8,
    colors: Vec<u16>,
}

/// A region `(x, y, width, height)` lies inside a texture of the given size.
pub open spec fn region_fits(tex_w: int, tex_h: int, x: int, y: int, w: int, h: int) -> bool {
    x + w <= tex_w && y + h <= tex_h
}

/// The sprite lies inside the texture of the given size, if there is one.
pub open spec fn sprite_fits(tex: Option<(u8, u8, Seq<u16>)>, sp: Sprite) -> bool {
    match tex {
        Some(t) => region_fits(t.0 as int, t.1 as int, sp.x as int, sp.y as int, sp.width as int, sp.height as int),
        None => false,
    }
}

/// The product of two byte values fits in sixteen bits.
pub proof fn lemma_byte_product(a: int, b: int)
    requires
        0 <= a <= 255,
        0 <= b <= 255,
    ensures
        0 <= a * b <= 65025,
{
    assert(0 <= a * b <= 65025) by (nonlinear_arith)
        requires
            0 <= a <= 255,
            0 <= b <= 255,
    ;
}

/// Holds at most one texture and a table of sprites keyed by id.
pub struct TextureStore {
    texture: Option<Texture>,
    sprites: Vec<Option<Sprite>>,
}

impl TextureStore {
    /// The resident texture as `(width, height, colours)`.
    pub closed spec fn texture_view(&self) -> Option<(u8, u8, Seq<u16>)> {
        match self.texture {
            Some(t) => Some((t.width, t.height, t.colors@)),
            None => None,
        }
    }

    /// The sprite table: slot `i` holds the sprite defined under id `i`, if any.
    pub closed spec fn sprites_view(&self) -> Seq<Option<Sprite>> {
        self.sprites@
    }

    pub open spec fn wf(&self) -> bool {
        &&& self.sprites_view().len() == SPRITE_SLOTS
        &&& forall|i: int|
            0 <= i < SPRITE_SLOTS ==> (#[trigger] self.sprites_view()[i] matches Some(sp) ==> sp.id
                == i)
        &&& self.texture_view() matches Some(t) ==> t.2.len() == t.0 * t.1
    }

    /// A store with no texture and no sprites.
    pub fn new() -> (r: TextureStore)
        ensures
            r.wf(),
            r.texture_view() is None,
            r.sprites_view() == Seq::new(SPRITE_SLOTS as nat, |i: int| None::<Sprite>),
    {
        let mut sprites: Vec<Option<Sprite>> = Vec::new();
        let mut i: usize = 0;
        while i < SPRITE_SLOTS
            invariant
                i <= SPRITE_SLOTS,
                sprites@ == Seq::new(i as nat, |j: int| None::<Sprite>),
            decreases SPRITE_SLOTS - i,
        {
            sprites.push(None);
            i = i + 1;
            assert(sprites@ =~= Seq::new(i as nat, |j: int| None::<Sprite>));
        }
        TextureStore { texture: None, sprites }
    }

    /// Replaces the resident texture. Sprites stay defined; those that no
    /// longer fit are skipped by lookups until redefined.
    pub fn set_texture(&mut self, width: u8, height: u8, colors: Vec<u16>) -> (r: Result<(), GpuError>)
        requires
            old(self).wf(),
        ensures
            final(self).wf(),
            final(self).sprites_view() == old(self).sprites_view(),
            colors@.len() != width * height ==> {
                &&& r == Err::<(), GpuError>(GpuError::SizeMismatch)
                &&& final(self).texture_view() == old(self).texture_view()
            },
            colors@.len() == width * height ==> {
                &&& r == Ok::<(), GpuError>(())
                &&& final(self).texture_view() == Some((width, height, colors@))
            },
    {
        proof {
            lemma_byte_product(width as int, height as int);
        }
        if colors.len() != width as usize * height as usize {
            return Err(GpuError::SizeMismatch);
        }
        self.texture = Some(Texture { width, height, colors });
        Ok(())
    }

    /// The dimensions of the resident texture, if any.
    pub fn texture_size(&self) -> (r: Option<(u8, u8)>)
        ensures
            r == match self.texture_view() {
                Some(t) => Some((t.0, t.1)),
                None => None::<(u8, u8)>,
            },
    {
        match &self.texture {
            Some(t) => Some((t.width, t.height)),
            None => None,
        }
    }

    /// The colour at `(x, y)` of the resident texture, if there is one and the
    /// cell lies in it.
    pub fn texel(&self, x: u8, y: u8) -> (r: Option<u16>)
        requires
            self.wf(),
        ensures
            r == match self.texture_view() {
                Some(t) => if x < t.0 && y < t.1 {
                    Some(t.2[y * t.0 + x])
                } else {
                    None::<u16>
                },
                None => None::<u16>,
            },
    {
        match &self.texture {
            Some(t) => {
                if x < t.width && y < t.height {
                    proof {
                        crate::framebuffer::lemma_index_in_grid(
                            x as int,
                            y as int,
                            t.width as int,
                            t.height as int,
                        );
                        lemma_byte_product(t.width as int, t.height as int);
                    }
                    Some(t.colors[y as usize * t.width as usize + x as usize])
                } else {
                    None
                }
            },
            None => None,
        }
    }

    /// Defines (or redefines) sprite `id` as a region of the resident texture.
    pub fn define_sprite(&mut self, id: u8, x: u8, y: u8, width: u8, height: u8) -> (r: Result<
        (),
        GpuError,
    >)
        requires
            old(self).wf(),
        ensures
            final(self).wf(),
            final(self).texture_view() == old(self).texture_view(),
            ({
                let sp = Sprite { id, x, y, width, height };
                if sprite_fits(old(self).texture_view(), sp) {
                    &&& r == Ok::<(), GpuError>(())
                    &&& final(self).sprites_view() == old(self).sprites_view().update(
                        id as int,
                        Some(sp),
                    )
                } else {
                    &&& r == Err::<(), GpuError>(GpuError::OutOfBounds)
                    &&& final(self).sprites_view() == old(self).sprites_view()
                }
            }),
    {
        let sp = Sprite { id, x, y, width, height };
        let fits = match &self.texture {
            Some(t) => x as u16 + width as u16 <= t.width as u16 && y as u16 + height as u16
                <= t.height as u16,
            None => false,
        };
        if !fits {
            return Err(GpuError::OutOfBounds);
        }
        self.sprites.set(id as usize, Some(sp));
        Ok(())
    }

    /// Removes every sprite at once.
    pub fn clear_sprites(&mut self)
        requires
            old(self).wf(),
        ensures
            final(self).wf(),
            final(self).texture_view() == old(self).texture_view(),
            final(self).sprites_view() == Seq::new(SPRITE_SLOTS as nat, |i: int| None::<Sprite>),
    {
        let mut i: usize = 0;
        while i < SPRITE_SLOTS
            invariant
                i <= SPRITE_SLOTS,
                self.texture_view() == old(self).texture_view(),
                self.texture_view() matches Some(t) ==> t.2.len() == t.0 * t.1,
                self.sprites@.len() == SPRITE_SLOTS,
                forall|j: int| 0 <= j < i ==> #[trigger] self.sprites@[j] is None,
                forall|j: int|
                    i <= j < SPRITE_SLOTS ==> #[trigger] self.sprites@[j] == old(self).sprites@[j],
            decreases SPRITE_SLOTS - i,
        {
            self.sprites.set(i, None);
            i = i + 1;
        }
        assert(self.sprites@ =~= Seq::new(SPRITE_SLOTS as nat, |i: int| None::<Sprite>));
    }

    /// The sprite under `id`, if one is defined and still lies inside the
    /// resident texture.
    pub fn sprite(&self, id: u8) -> (r: Result<Sprite, GpuError>)
        requires
            self.wf(),
        ensures
            match self.sprites_view()[id as int] {
                Some(sp) => if sprite_fits(self.texture_view(), sp) {
                    r == Ok::<Sprite, GpuError>(sp)
                } else {
                    r == Err::<Sprite, GpuError>(GpuError::UnknownSprite)
                },
                None => r == Err::<Sprite, GpuError>(GpuError::UnknownSprite),
            },
    {
        match self.sprites[id as usize] {
            Some(sp) => {
                let fits = match &self.texture {
                    Some(t) => sp.x as u16 + sp.width as u16 <= t.width as u16 && sp.y as u16
                        + sp.height as u16 <= t.height as u16,
                    None => false,
                };
                if fits {
                    Ok(sp)
                } else {
                    Err(GpuError::UnknownSprite)
                }
            },
            None => Err(GpuError::UnknownSprite),
        }
    }
}

} // verus!
