use vstd::prelude::*;
use crate::atlas::Atlas;
use crate::board::{Board, Entity};
use crate::canvas::{canvas_point, CanvasPoint};
use crate::sprite::{atlas_rect, scaled_rect, sprite_of, TexVec};

verus! {

/// A colour with 8 bits for each of red, green, blue and alpha.
#[derive(Copy, Clone, Debug, PartialEq, Eq, Structural)]
pub struct Rgba {
    pub red: u8,
    pub green: u8,
    pub blue: u8,
    pub alpha: u8,
}

/// What one draw of the entity layer is given: where on the canvas the
/// sprite is anchored, and which part of the atlas texture it shows.
#[derive(Copy, Clone, Debug, PartialEq, Eq, Structural)]
pub struct EntityDraw {
    pub position: CanvasPoint,
    pub sprite_begin: TexVec,
    pub sprite_size: TexVec,
}

/// One draw operation of a frame.
#[derive(Copy, Clone, Debug, PartialEq, Eq, Structural)]
pub enum DrawOp {
    /// Fill the frame with a colour.
    Clear(Rgba),
    /// Draw the grid lines, opaque.
    GridLayer,
    /// Draw one entity's sprite, with alpha blending.
    Sprite(EntityDraw),
}

/// The colour every frame is cleared to: opaque white.
pub open spec fn background() -> Rgba {
    Rgba { red: 255, green: 255, blue: 255, alpha: 255 }
}

/// The draw of entity `e` with an atlas texture of `w` by `h` pixels.
pub open spec fn entity_draw(e: Entity, w: u32, h: u32) -> EntityDraw {
    EntityDraw {
        position: canvas_point(e.place().col(), e.place().row()),
        sprite_begin: scaled_rect(atlas_rect(sprite_of(e.kind())), w, h).begin,
        sprite_size: scaled_rect(atlas_rect(sprite_of(e.kind())), w, h).size,
    }
}

/// The entity layer of a cell sequence: the draws of the occupied cells, in
/// the order of the cells.
pub open spec fn entity_layer(cells: Seq<Option<Entity>>, w: u32, h: u32) -> Seq<EntityDraw>
    decreases cells.len(),
{
    if cells.len() == 0 {
        Seq::empty()
    } else {
        match cells.last() {
            Some(e) => entity_layer(cells.drop_last(), w, h).push(entity_draw(e, w, h)),
            None => entity_layer(cells.drop_last(), w, h),
        }
    }
}

/// The draw operations of one frame: the clear, the grid layer once, then
/// the entity layer.
pub open spec fn frame(cells: Seq<Option<Entity>>, w: u32, h: u32) -> Seq<DrawOp> {
    seq![DrawOp::Clear(background()), DrawOp::GridLayer] + Seq::new(
        entity_layer(cells, w, h).len(),
        |i: int| DrawOp::Sprite(entity_layer(cells, w, h)[i]),
    )
}

impl DrawOp {
    /// Whether the operation is drawn with alpha blending: the sprites are,
    /// so that their transparent parts let the grid show; the rest is opaque.
    pub fn alpha_blended(&self) -> (r: bool)
        ensures
            r == (*self is Sprite),
    {
        match self {
            DrawOp::Sprite(_) => true,
            _ => false,
        }
    }
}

impl EntityDraw {
    /// The draw of `entity` with the atlas `atlas`.
    pub fn of(entity: &Entity, atlas: &Atlas) -> (r: EntityDraw)
        ensures
            r == entity_draw(*entity, atlas.spec_width(), atlas.spec_height()),
    {
        let rect = entity.sprite().tex_coords_scaled(atlas.width(), atlas.height()).unwrap();
        EntityDraw {
            position: entity.position().as_canvas(),
            sprite_begin: rect.begin,
            sprite_size: rect.size,
        }
    }
}

/// The colour every frame is cleared to.
pub fn background_color() -> (r: Rgba)
    ensures
        r == background(),
{
    Rgba { red: 255, green: 255, blue: 255, alpha: 255 }
}

/// The entity layer of `board`: one draw for each occupied cell, columns
/// ascending and within each column rows ascending.
pub fn draw_board(board: &Board, atlas: &Atlas) -> (r: Vec<EntityDraw>)
    ensures
        r@ == entity_layer(board@, atlas.spec_width(), atlas.spec_height()),
{
    let cells = board.cells();
    let mut draws: Vec<EntityDraw> = Vec::new();
    let mut i: usize = 0;
    assert(cells@.take(0) =~= Seq::empty());
    while i < cells.len()
        invariant
            i <= cells.len(),
            cells@ == board@,
            draws@ == entity_layer(
                cells@.take(i as int),
                atlas.spec_width(),
                atlas.spec_height(),
            ),
        decreases cells.len() - i,
    {
        proof {
            assert(cells@.take(i + 1) =~= cells@.take(i as int).push(cells@[i as int]));
            lemma_entity_layer_push(
                cells@.take(i as int),
                cells@[i as int],
                atlas.spec_width(),
                atlas.spec_height(),
            );
        }
        match &cells[i] {
            Some(entity) => {
                draws.push(EntityDraw::of(entity, atlas));
            },
            None => {},
        }
        i = i + 1;
    }
    assert(cells@.take(cells.len() as int) =~= cells@);
    draws
}

/// The draw operations of one frame of `board`, in the order in which they
/// are to be issued.
pub fn compose_frame(board: &Board, atlas: &Atlas) -> (r: Vec<DrawOp>)
    ensures
        r@ == frame(board@, atlas.spec_width(), atlas.spec_height()),
{
    let draws = draw_board(board, atlas);
    let mut ops: Vec<DrawOp> = Vec::new();
    ops.push(DrawOp::Clear(background_color()));
    ops.push(DrawOp::GridLayer);
    let mut i: usize = 0;
    while i < draws.len()
        invariant
            i <= draws.len(),
            ops@.len() == 2 + i,
            ops@[0] == DrawOp::Clear(background()),
            ops@[1] == DrawOp::GridLayer,
            forall|k: int| 0 <= k < i ==> ops@[2 + k] == DrawOp::Sprite(draws@[k]),
        decreases draws.len() - i,
    {
        ops.push(DrawOp::Sprite(draws[i]));
        i = i + 1;
    }
    assert(ops@ =~= frame(board@, atlas.spec_width(), atlas.spec_height()));
    ops
}

/// Every frame starts with the clear, then the grid layer, exactly once
/// each; all that follows are sprites, one for each draw of the entity layer.
pub proof fn lemma_frame_layers(cells: Seq<Option<Entity>>, w: u32, h: u32)
    ensures
        frame(cells, w, h).len() == 2 + entity_layer(cells, w, h).len(),
        frame(cells, w, h)[0] == DrawOp::Clear(background()),
        frame(cells, w, h)[1] == DrawOp::GridLayer,
        forall|i: int|
            2 <= i < frame(cells, w, h).len() ==> #[trigger] frame(cells, w, h)[i]
                == DrawOp::Sprite(entity_layer(cells, w, h)[i - 2]),
{
}

/// The entity layer follows the cells: appending a cell appends its draw if
/// it is occupied, and nothing if it is empty.
pub proof fn lemma_entity_layer_push(
    cells: Seq<Option<Entity>>,
    cell: Option<Entity>,
    w: u32,
    h: u32,
)
    ensures
        entity_layer(cells.push(cell), w, h) == (match cell {
            Some(e) => entity_layer(cells, w, h).push(entity_draw(e, w, h)),
            None => entity_layer(cells, w, h),
        }),
        entity_layer(cells, w, h).len() <= cells.len(),
    decreases cells.len(),
{
    assert(cells.push(cell).drop_last() =~= cells);
    if cells.len() > 0 {
        lemma_entity_layer_push(cells.drop_last(), cells.last(), w, h);
        assert(cells.drop_last().push(cells.last()) =~= cells);
    }
}

} // verus!
