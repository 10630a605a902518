use tileboard::atlas::Atlas;
use tileboard::board::{Board, EntityType};
use tileboard::canvas::{CanvasPoint, Ratio};
use tileboard::position::Position;
use tileboard::render::{background_color, compose_frame, draw_board, DrawOp, EntityDraw, Rgba};
use tileboard::sprite::TexVec;

fn ratio(num: i64, den: i64) -> Ratio {
    Ratio { num, den }
}

fn atlas(width: u32, height: u32) -> Atlas {
    Atlas::from_rgba(vec![0u8; 4 * (width as usize) * (height as usize)], width, height).unwrap()
}

#[test]
fn frame_draws_grid_once_then_entities_in_order() {
    let mut board = Board::new();
    board.try_add_entity(Position::new(1, 1), EntityType::Chara).unwrap();
    board.try_add_entity(Position::new(2, 2), EntityType::Monstar).unwrap();
    let ops = compose_frame(&board, &atlas(32, 152));
    assert_eq!(ops.len(), 4);
    assert_eq!(ops[0], DrawOp::Clear(Rgba { red: 255, green: 255, blue: 255, alpha: 255 }));
    assert_eq!(ops[1], DrawOp::GridLayer);
    assert_eq!(ops.iter().filter(|op| **op == DrawOp::GridLayer).count(), 1);
    assert_eq!(
        ops[2],
        DrawOp::Sprite(EntityDraw {
            position: CanvasPoint { x: ratio(-7, 8), y: ratio(4, 5) },
            sprite_begin: TexVec { u: ratio(0, 32), v: ratio(0, 152) },
            sprite_size: TexVec { u: ratio(16, 32), v: ratio(16, 152) },
        })
    );
    assert_eq!(
        ops[3],
        DrawOp::Sprite(EntityDraw {
            position: CanvasPoint { x: ratio(-5, 8), y: ratio(2, 5) },
            sprite_begin: TexVec { u: ratio(0, 32), v: ratio(136, 152) },
            sprite_size: TexVec { u: ratio(16, 32), v: ratio(16, 152) },
        })
    );
}

#[test]
fn frame_of_an_empty_board() {
    let ops = compose_frame(&Board::new(), &atlas(1, 1));
    assert_eq!(ops, vec![DrawOp::Clear(background_color()), DrawOp::GridLayer]);
    assert!(draw_board(&Board::new(), &atlas(1, 1)).is_empty());
}

#[test]
fn entities_are_drawn_column_by_column() {
    let mut board = Board::new();
    board.try_add_entity(Position::new(2, 1), EntityType::Monstar).unwrap();
    board.try_add_entity(Position::new(1, 2), EntityType::Chara).unwrap();
    board.try_add_entity(Position::new(1, 1), EntityType::Chara).unwrap();
    board.try_add_entity(Position::new(8, 5), EntityType::Monstar).unwrap();
    let a = atlas(16, 152);
    let draws = draw_board(&board, &a);
    let positions: Vec<CanvasPoint> = draws.iter().map(|d| d.position).collect();
    assert_eq!(
        positions,
        vec![
            Position::new(1, 1).as_canvas(),
            Position::new(1, 2).as_canvas(),
            Position::new(2, 1).as_canvas(),
            Position::new(8, 5).as_canvas(),
        ]
    );
    let placed = board.entity_at(Position::new(2, 1)).unwrap().unwrap();
    assert_eq!(draws[2], EntityDraw::of(&placed, &a));
    assert_eq!(draws[2].sprite_begin, TexVec { u: ratio(0, 16), v: ratio(136, 152) });
}

#[test]
fn frame_of_a_full_board() {
    let mut board = Board::new();
    for x in 1..=8 {
        for y in 1..=5 {
            board.try_add_entity(Position::new(x, y), EntityType::Chara).unwrap();
        }
    }
    let ops = compose_frame(&board, &atlas(16, 16));
    assert_eq!(ops.len(), 2 + 40);
    let mut i = 2;
    for x in 1..=8 {
        for y in 1..=5 {
            match ops[i] {
                DrawOp::Sprite(d) => assert_eq!(d.position, Position::new(x, y).as_canvas()),
                _ => panic!("a sprite is expected after the grid layer"),
            }
            i += 1;
        }
    }
}

#[test]
fn only_sprites_are_blended() {
    let mut board = Board::new();
    board.try_add_entity(Position::new(4, 4), EntityType::Chara).unwrap();
    let ops = compose_frame(&board, &atlas(16, 16));
    let blended: Vec<bool> = ops.iter().map(|op| op.alpha_blended()).collect();
    assert_eq!(blended, vec![false, false, true]);
}
