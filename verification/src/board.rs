use vstd::prelude::*;
use crate::position::Position;

verus! {

/// Number of columns of the board.
pub const BOARD_SIZE_X: u32 = 8;

/// Number of rows of the board.
pub const BOARD_SIZE_Y: u32 = 5;

/// Number of cells of the board.
pub const BOARD_CELLS: usize = 40;

/// The kinds of entity that can stand on the board.
#[derive(Copy, Clone, Debug, PartialEq, Eq, Structural)]
pub enum EntityType {
    Chara,
    Monstar,
}

/// A typed occupant of exactly one board cell. Entities are made only by
/// the board, when a placement succeeds, and never change afterwards.
#[derive(Copy, Clone, Debug, PartialEq, Eq, Structural)]
pub struct Entity {
    entity_type: EntityType,
    position: Position,
}

impl Entity {
    /// The entity's kind.
    pub closed spec fn kind(self) -> EntityType {
        self.entity_type
    }

    /// The cell the entity stands on.
    pub closed spec fn place(self) -> Position {
        self.position
    }

    /// The entity of kind `kind` standing on `place`.
    pub closed spec fn of(kind: EntityType, place: Position) -> Entity {
        Entity { entity_type: kind, position: place }
    }

    /// The entity's kind.
    pub fn entity_type(&self) -> (r: EntityType)
        ensures
            r == self.kind(),
    {
        self.entity_type
    }

    /// The cell the entity stands on.
    pub fn position(&self) -> (r: Position)
        ensures
            r == self.place(),
    {
        self.position
    }

    /// `Entity::of(kind, place)` has that kind and that cell.
    pub proof fn lemma_of_components(kind: EntityType, place: Position)
        ensures
            Entity::of(kind, place).kind() == kind,
            Entity::of(kind, place).place() == place,
    {
    }
}

/// Why the board refused to look at a cell.
#[derive(Copy, Clone, Debug, PartialEq, Eq, Structural)]
pub enum BoardError {
    /// The position lies outside the board's extent.
    PositionOutOfBounds,
}

/// Whether `pos` addresses a cell of the board.
pub open spec fn within_board(pos: Position) -> bool {
    1 <= pos.col() <= BOARD_SIZE_X && 1 <= pos.row() <= BOARD_SIZE_Y
}

/// The place of `pos` in the board's column-major cell sequence: columns
/// ascending, and within each column rows ascending, both shifted to start
/// at 0.
pub open spec fn cell_index(pos: Position) -> int {
    (pos.col() - 1) * BOARD_SIZE_Y + (pos.row() - 1)
}

/// What placing an entity of kind `t` at `pos` does to a cell sequence, and
/// what it reports.
pub open spec fn place_entity(cells: Seq<Option<Entity>>, pos: Position, t: EntityType) -> (
    Seq<Option<Entity>>,
    Result<Option<Entity>, BoardError>,
) {
    if !within_board(pos) {
        (cells, Err(BoardError::PositionOutOfBounds))
    } else if cells[cell_index(pos)] is Some {
        (cells, Ok(None))
    } else {
        (cells.update(cell_index(pos), Some(Entity::of(t, pos))), Ok(Some(Entity::of(t, pos))))
    }
}

/// Placement is not idempotent: on an empty cell within the board the
/// first placement stores and reports the new entity, and a second placement
/// at the same cell, of whatever kind, reports nothing and leaves the cells,
/// the stored entity among them, as the first left them.
pub proof fn lemma_second_placement_refused(
    cells: Seq<Option<Entity>>,
    pos: Position,
    first: EntityType,
    second: EntityType,
)
    requires
        cells.len() == BOARD_CELLS,
        within_board(pos),
        cells[cell_index(pos)] is None,
    ensures
        place_entity(cells, pos, first).1 == Ok::<Option<Entity>, BoardError>(
            Some(Entity::of(first, pos)),
        ),
        place_entity(cells, pos, first).0[cell_index(pos)] == Some(Entity::of(first, pos)),
        Entity::of(first, pos).kind() == first,
        Entity::of(first, pos).place() == pos,
        place_entity(place_entity(cells, pos, first).0, pos, second) == (
            place_entity(cells, pos, first).0,
            Ok::<Option<Entity>, BoardError>(None),
        ),
{
    Entity::lemma_of_components(first, pos);
    assert(0 <= cell_index(pos) < BOARD_CELLS) by (nonlinear_arith)
        requires
            within_board(pos),
            cell_index(pos) == (pos.col() - 1) * 5 + (pos.row() - 1),
            BOARD_CELLS == 40,
            BOARD_SIZE_X == 8,
            BOARD_SIZE_Y == 5,
    ;
}

/// A grid of `BOARD_SIZE_X` by `BOARD_SIZE_Y` cells, each empty or holding
/// one entity.
#[derive(Clone, Debug)]
pub struct Board {
    cells: Vec<Option<Entity>>,
}

impl View for Board {
    type V = Seq<Option<Entity>>;

    /// The cells in column-major order; `cell_index` gives a position's place.
    closed spec fn view(&self) -> Seq<Option<Entity>> {
        self.cells@
    }
}

impl Board {
    /// The board has all its cells, and every entity stands in the cell
    /// that its own position names.
    pub open spec fn wf(&self) -> bool {
        &&& self@.len() == BOARD_CELLS
        &&& forall|i: int|
            0 <= i < self@.len() ==> (#[trigger] self@[i] matches Some(e) ==> within_board(
                e.place(),
            ) && cell_index(e.place()) == i)
    }

    /// What the cell at `pos` holds. Meaningful for positions within the board.
    pub open spec fn cell(&self, pos: Position) -> Option<Entity> {
        self@[cell_index(pos)]
    }

    /// A board with every cell empty.
    pub fn new() -> (r: Board)
        ensures
            r.wf(),
            forall|i: int| 0 <= i < r@.len() ==> #[trigger] r@[i] is None,
    {
        let mut cells: Vec<Option<Entity>> = Vec::new();
        let mut i: usize = 0;
        while i < BOARD_CELLS
            invariant
                i <= BOARD_CELLS,
                cells@.len() == i,
                forall|k: int| 0 <= k < i ==> #[trigger] cells@[k] is None,
            decreases BOARD_CELLS - i,
        {
            cells.push(None);
            i = i + 1;
        }
        Board { cells }
    }

    /// The cells in drawing order: columns ascending, and within each
    /// column rows ascending.
    pub fn cells(&self) -> (r: &Vec<Option<Entity>>)
        ensures
            r@ == self@,
    {
        &self.cells
    }

    /// Whether `pos` addresses a cell of this board.
    pub fn in_bounds(pos: Position) -> (r: bool)
        ensures
            r == within_board(pos),
    {
        pos.x() <= BOARD_SIZE_X && pos.y() <= BOARD_SIZE_Y
    }

    fn index_of(pos: Position) -> (r: usize)
        requires
            within_board(pos),
        ensures
            r == cell_index(pos),
            r < BOARD_CELLS,
    {
        let col: usize = (pos.x() - 1) as usize;
        let row: usize = (pos.y() - 1) as usize;
        let rows: usize = BOARD_SIZE_Y as usize;
        assert(col * rows <= 7 * 5) by (nonlinear_arith)
            requires
                col <= 7,
                rows == 5,
        ;
        col * rows + row
    }

    /// Reads the cell at `pos`: the entity standing there, if any. A
    /// position outside the board is refused.
    pub fn entity_at(&self, pos: Position) -> (r: Result<Option<Entity>, BoardError>)
        requires
            self.wf(),
        ensures
            r == (if within_board(pos) {
                Ok(self.cell(pos))
            } else {
                Err(BoardError::PositionOutOfBounds)
            }),
    {
        if !Self::in_bounds(pos) {
            return Err(BoardError::PositionOutOfBounds);
        }
        let i = Self::index_of(pos);
        Ok(self.cells[i])
    }

    /// Places a new entity of kind `t` at `pos`.
    ///
    /// A position outside the board is refused with `PositionOutOfBounds`.
    /// An occupied cell gives `Ok(None)`. In both cases the board is left as
    /// it was. Otherwise the entity is made, stored in the cell and
    /// returned; no other cell changes.
    pub fn try_add_entity(&mut self, pos: Position, t: EntityType) -> (r: Result<
        Option<Entity>,
        BoardError,
    >)
        requires
            old(self).wf(),
        ensures
            final(self).wf(),
            (final(self)@, r) == place_entity(old(self)@, pos, t),
            r matches Ok(Some(e)) ==> e.kind() == t && e.place() == pos,
    {
        if !Self::in_bounds(pos) {
            return Err(BoardError::PositionOutOfBounds);
        }
        let i = Self::index_of(pos);
        if self.cells[i].is_some() {
            return Ok(None);
        }
        let entity_created = Entity { entity_type: t, position: pos };
        self.cells.set(i, Some(entity_created));
        Ok(Some(entity_created))
    }
}

} // verus!
