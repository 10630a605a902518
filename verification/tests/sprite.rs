use tileboard::atlas::{Atlas, AtlasError};
use tileboard::board::{Board, EntityType};
use tileboard::canvas::Ratio;
use tileboard::position::Position;
use tileboard::sprite::{descriptor_for, PixelRect, ScaledRect, Sprite, SpriteDescriptor, TexVec};

fn ratio(num: i64, den: i64) -> Ratio {
    Ratio { num, den }
}

#[test]
fn descriptor_for_is_deterministic() {
    for kind in [EntityType::Chara, EntityType::Monstar] {
        assert_eq!(descriptor_for(kind), descriptor_for(kind));
    }
    assert_ne!(descriptor_for(EntityType::Chara), descriptor_for(EntityType::Monstar));
}

#[test]
fn descriptor_for_gives_the_atlas_rectangles() {
    assert_eq!(
        descriptor_for(EntityType::Chara),
        SpriteDescriptor::TextureRect(PixelRect { left: 0, bottom: 0, width: 16, height: 16 })
    );
    assert_eq!(
        descriptor_for(EntityType::Monstar),
        SpriteDescriptor::TextureRect(PixelRect { left: 0, bottom: 136, width: 16, height: 16 })
    );
}

#[test]
fn tex_coords_of_each_sprite() {
    assert_eq!(Sprite::Chara.tex_coords(), PixelRect { left: 0, bottom: 0, width: 16, height: 16 });
    assert_eq!(
        Sprite::Monstar.tex_coords(),
        PixelRect { left: 0, bottom: 136, width: 16, height: 16 }
    );
}

#[test]
fn entity_sprite_follows_its_kind() {
    let mut board = Board::new();
    let c = board.try_add_entity(Position::new(1, 1), EntityType::Chara).unwrap().unwrap();
    let m = board.try_add_entity(Position::new(2, 2), EntityType::Monstar).unwrap().unwrap();
    assert_eq!(c.sprite(), Sprite::Chara);
    assert_eq!(m.sprite(), Sprite::Monstar);
}

#[test]
fn tex_coords_scaled_divides_by_the_atlas_size() {
    assert_eq!(
        Sprite::Monstar.tex_coords_scaled(918, 203),
        Some(ScaledRect {
            begin: TexVec { u: ratio(0, 918), v: ratio(136, 203) },
            size: TexVec { u: ratio(16, 918), v: ratio(16, 203) },
        })
    );
    assert_eq!(
        Sprite::Chara.tex_coords_scaled(16, 16),
        Some(ScaledRect {
            begin: TexVec { u: ratio(0, 16), v: ratio(0, 16) },
            size: TexVec { u: ratio(16, 16), v: ratio(16, 16) },
        })
    );
}

#[test]
fn scaling_follows_a_change_of_atlas_size() {
    let d = descriptor_for(EntityType::Monstar);
    let a = d.scaled(256, 256).unwrap();
    let b = d.scaled(512, 1024).unwrap();
    assert_eq!(a.begin.v, ratio(136, 256));
    assert_eq!(b.begin.v, ratio(136, 1024));
    assert_eq!(a.size.u, ratio(16, 256));
    assert_eq!(b.size.u, ratio(16, 512));
    assert_eq!(d.scaled(256, 256), Some(a));
}

#[test]
fn atlas_without_extent_cannot_be_scaled_to() {
    let d = descriptor_for(EntityType::Chara);
    assert_eq!(d.scaled(0, 16), None);
    assert_eq!(d.scaled(16, 0), None);
    assert_eq!(Sprite::Chara.tex_coords_scaled(0, 0), None);
}

#[test]
fn flat_colours() {
    assert_eq!(
        Sprite::Chara.flat_color(),
        SpriteDescriptor::FlatColor { red: ratio(2, 4), green: ratio(3, 4), blue: ratio(1, 4) }
    );
    assert_eq!(
        Sprite::Monstar.flat_color(),
        SpriteDescriptor::FlatColor { red: ratio(3, 4), green: ratio(2, 4), blue: ratio(1, 4) }
    );
    assert_eq!(Sprite::Chara.flat_color().scaled(16, 16), None);
}

#[test]
fn atlas_from_rgba_checks_its_size() {
    let atlas = Atlas::from_rgba(vec![7u8; 4 * 3 * 2], 3, 2).unwrap();
    assert_eq!(atlas.width(), 3);
    assert_eq!(atlas.height(), 2);
    assert_eq!(atlas.pixels(), &vec![7u8; 24]);
    assert_eq!(Atlas::from_rgba(vec![], 0, 2).err(), Some(AtlasError::Empty));
    assert_eq!(Atlas::from_rgba(vec![0u8; 8], 2, 0).err(), Some(AtlasError::Empty));
    assert_eq!(Atlas::from_rgba(vec![0u8; 23], 3, 2).err(), Some(AtlasError::PixelCount));
    assert_eq!(Atlas::from_rgba(vec![0u8; 28], 3, 2).err(), Some(AtlasError::PixelCount));
    assert_eq!(Atlas::from_rgba(vec![0u8; 6], 3, 2).err(), Some(AtlasError::PixelCount));
    assert_eq!(
        Atlas::from_rgba(vec![], u32::MAX, u32::MAX).err(),
        Some(AtlasError::PixelCount)
    );
}

#[test]
fn atlas_load_decodes_a_png() {
    let pixels: Vec<u8> = vec![255, 0, 0, 255, 0, 255, 0, 128, 0, 0, 255, 0, 9, 8, 7, 6, 1, 2, 3, 4, 5, 6, 7, 8];
    let img = image::RgbaImage::from_raw(3, 2, pixels.clone()).unwrap();
    let mut png: Vec<u8> = Vec::new();
    img.write_to(&mut std::io::Cursor::new(&mut png), image::ImageFormat::Png).unwrap();
    assert_ne!(png, pixels);
    let atlas = Atlas::load(&png).unwrap();
    assert_eq!(atlas.width(), 3);
    assert_eq!(atlas.height(), 2);
    assert_eq!(atlas.pixels(), &pixels);
}

#[test]
fn atlas_load_refuses_what_is_no_png() {
    assert_eq!(Atlas::load(&[]).err(), Some(AtlasError::Decode));
    assert_eq!(Atlas::load(b"not an image at all").err(), Some(AtlasError::Decode));
    let truncated = [0x89u8, b'P', b'N', b'G', 0x0d, 0x0a, 0x1a, 0x0a];
    assert_eq!(Atlas::load(&truncated).err(), Some(AtlasError::Decode));
}
