use vstd::prelude::*;
use crate::board::{Entity, EntityType};
use crate::canvas::Ratio;

verus! {

/// The tag under which an entity kind's picture is filed in the atlas.
#[derive(Copy, Clone, Debug, PartialEq, Eq, Structural)]
pub enum Sprite {
    Chara,
    Monstar,
}

/// A rectangle of the atlas texture, in pixels, measured from the
/// texture's bottom left corner.
#[derive(Copy, Clone, Debug, PartialEq, Eq, Structural)]
pub struct PixelRect {
    pub left: u32,
    pub bottom: u32,
    pub width: u32,
    pub height: u32,
}

/// A horizontal and a vertical measure in texture-sample space, where the
/// whole texture spans 0 to 1 on both axes.
#[derive(Copy, Clone, Debug, PartialEq, Eq, Structural)]
pub struct TexVec {
    pub u: Ratio,
    pub v: Ratio,
}

/// A rectangle of the atlas texture in texture-sample space.
#[derive(Copy, Clone, Debug, PartialEq, Eq, Structural)]
pub struct ScaledRect {
    pub begin: TexVec,
    pub size: TexVec,
}

/// How an entity kind is drawn.
#[derive(Copy, Clone, Debug, PartialEq, Eq, Structural)]
pub enum SpriteDescriptor {
    /// One flat colour, each channel a fraction of full intensity.
    FlatColor { red: Ratio, green: Ratio, blue: Ratio },
    /// A rectangle of the shared atlas texture.
    TextureRect(PixelRect),
}

/// The sprite tag of an entity kind.
pub open spec fn sprite_of(kind: EntityType) -> Sprite {
    match kind {
        EntityType::Chara => Sprite::Chara,
        EntityType::Monstar => Sprite::Monstar,
    }
}

/// Where a sprite lies in the atlas texture.
pub open spec fn atlas_rect(sprite: Sprite) -> PixelRect {
    match sprite {
        Sprite::Chara => PixelRect { left: 0, bottom: 0, width: 16, height: 16 },
        Sprite::Monstar => PixelRect { left: 0, bottom: 136, width: 16, height: 16 },
    }
}

/// The flat colour that stands for a sprite where no texture is used.
pub open spec fn flat_color_of(sprite: Sprite) -> SpriteDescriptor {
    match sprite {
        Sprite::Chara => SpriteDescriptor::FlatColor {
            red: Ratio { num: 2, den: 4 },
            green: Ratio { num: 3, den: 4 },
            blue: Ratio { num: 1, den: 4 },
        },
        Sprite::Monstar => SpriteDescriptor::FlatColor {
            red: Ratio { num: 3, den: 4 },
            green: Ratio { num: 2, den: 4 },
            blue: Ratio { num: 1, den: 4 },
        },
    }
}

/// The descriptor of an entity kind: its rectangle in the atlas texture.
pub open spec fn descriptor_of(kind: EntityType) -> SpriteDescriptor {
    SpriteDescriptor::TextureRect(atlas_rect(sprite_of(kind)))
}

/// `rect` with each horizontal measure over the atlas width `x` and each
/// vertical measure over the atlas height `y`.
pub open spec fn scaled_rect(rect: PixelRect, x: u32, y: u32) -> ScaledRect {
    ScaledRect {
        begin: TexVec {
            u: Ratio { num: rect.left as i64, den: x as i64 },
            v: Ratio { num: rect.bottom as i64, den: y as i64 },
        },
        size: TexVec {
            u: Ratio { num: rect.width as i64, den: x as i64 },
            v: Ratio { num: rect.height as i64, den: y as i64 },
        },
    }
}

/// What scaling a descriptor to an atlas of `x` by `y` pixels gives: a
/// texture rectangle is scaled, unless the atlas has no extent; a flat
/// colour has nothing to scale.
pub open spec fn scaled_descriptor(d: SpriteDescriptor, x: u32, y: u32) -> Option<ScaledRect> {
    match d {
        SpriteDescriptor::TextureRect(rect) => if x == 0 || y == 0 {
            None
        } else {
            Some(scaled_rect(rect, x, y))
        },
        SpriteDescriptor::FlatColor { .. } => None,
    }
}

impl Entity {
    /// The sprite tag under which this entity is drawn.
    pub fn sprite(&self) -> (r: Sprite)
        ensures
            r == sprite_of(self.kind()),
    {
        match self.entity_type() {
            EntityType::Chara => Sprite::Chara,
            EntityType::Monstar => Sprite::Monstar,
        }
    }
}

impl Sprite {
    /// Where this sprite lies in the atlas texture, in pixels.
    pub fn tex_coords(&self) -> (r: PixelRect)
        ensures
            r == atlas_rect(*self),
    {
        match self {
            Sprite::Chara => PixelRect { left: 0, bottom: 0, width: 16, height: 16 },
            Sprite::Monstar => PixelRect { left: 0, bottom: 136, width: 16, height: 16 },
        }
    }

    /// Where this sprite lies in an atlas texture of `x` by `y` pixels, in
    /// texture-sample space. An atlas without extent gives `None`.
    pub fn tex_coords_scaled(&self, x: u32, y: u32) -> (r: Option<ScaledRect>)
        ensures
            r == (if x == 0 || y == 0 {
                None
            } else {
                Some(scaled_rect(atlas_rect(*self), x, y))
            }),
    {
        SpriteDescriptor::TextureRect(self.tex_coords()).scaled(x, y)
    }

    /// The flat colour that stands for this sprite where no texture is used.
    pub fn flat_color(&self) -> (r: SpriteDescriptor)
        ensures
            r == flat_color_of(*self),
    {
        match self {
            Sprite::Chara => SpriteDescriptor::FlatColor {
                red: Ratio { num: 2, den: 4 },
                green: Ratio { num: 3, den: 4 },
                blue: Ratio { num: 1, den: 4 },
            },
            Sprite::Monstar => SpriteDescriptor::FlatColor {
                red: Ratio { num: 3, den: 4 },
                green: Ratio { num: 2, den: 4 },
                blue: Ratio { num: 1, den: 4 },
            },
        }
    }
}

impl SpriteDescriptor {
    /// This descriptor's rectangle in texture-sample space, for an atlas of
    /// `atlas_width` by `atlas_height` pixels. The result depends on the
    /// arguments alone, so it is to be taken anew whenever the atlas changes
    /// its size.
    pub fn scaled(&self, atlas_width: u32, atlas_height: u32) -> (r: Option<ScaledRect>)
        ensures
            r == scaled_descriptor(*self, atlas_width, atlas_height),
    {
        match self {
            SpriteDescriptor::TextureRect(rect) => {
                if atlas_width == 0 || atlas_height == 0 {
                    None
                } else {
                    Some(
                        ScaledRect {
                            begin: TexVec {
                                u: Ratio { num: rect.left as i64, den: atlas_width as i64 },
                                v: Ratio { num: rect.bottom as i64, den: atlas_height as i64 },
                            },
                            size: TexVec {
                                u: Ratio { num: rect.width as i64, den: atlas_width as i64 },
                                v: Ratio { num: rect.height as i64, den: atlas_height as i64 },
                            },
                        },
                    )
                }
            },
            SpriteDescriptor::FlatColor { .. } => None,
        }
    }
}

/// The descriptor of an entity kind. Every kind has exactly one, and it
/// depends on the kind alone.
pub fn descriptor_for(kind: EntityType) -> (r: SpriteDescriptor)
    ensures
        r == descriptor_of(kind),
        r is TextureRect,
{
    let sprite = match kind {
        EntityType::Chara => Sprite::Chara,
        EntityType::Monstar => Sprite::Monstar,
    };
    SpriteDescriptor::TextureRect(sprite.tex_coords())
}

/// A rectangle that lies within an atlas of `x` by `y` pixels is scaled into
/// the unit square: its begin and its far corner both lie between 0 and 1.
pub proof fn lemma_scaled_within_unit_square(rect: PixelRect, x: u32, y: u32)
    requires
        x > 0,
        y > 0,
        rect.left + rect.width <= x,
        rect.bottom + rect.height <= y,
    ensures
        scaled_rect(rect, x, y).begin.u.valid(),
        scaled_rect(rect, x, y).begin.v.valid(),
        scaled_rect(rect, x, y).size.u.valid(),
        scaled_rect(rect, x, y).size.v.valid(),
        0 <= scaled_rect(rect, x, y).begin.u.num,
        0 <= scaled_rect(rect, x, y).begin.v.num,
        0 <= scaled_rect(rect, x, y).size.u.num,
        0 <= scaled_rect(rect, x, y).size.v.num,
        scaled_rect(rect, x, y).begin.u.num + scaled_rect(rect, x, y).size.u.num <= x,
        scaled_rect(rect, x, y).begin.v.num + scaled_rect(rect, x, y).size.v.num <= y,
        scaled_rect(rect, x, y).begin.u.den == x,
        scaled_rect(rect, x, y).size.u.den == x,
        scaled_rect(rect, x, y).begin.v.den == y,
        scaled_rect(rect, x, y).size.v.den == y,
{
}

} // verus!
