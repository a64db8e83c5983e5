//! The placement grid and the conversions between grid cells and world
//! positions.

use crate::error::GameError;
use vstd::prelude::*;

verus! {

/// Position units in one world unit: positions are fixed-point numbers with
/// nine decimal places.
pub const UNIT: i64 = 1_000_000_000;

/// Width of a grid cell, in position units (80 world units).
pub const GRID_X_SPACING: i64 = 80_000_000_000;

/// Height of a grid cell, in position units (80 world units).
pub const GRID_Y_SPACING: i64 = 80_000_000_000;

/// First column of the board.
pub const BOARD_MIN_COLUMN: i32 = -7;

/// One past the last column of the board.
pub const BOARD_MAX_COLUMN: i32 = 7;

/// First row of the board.
pub const BOARD_MIN_ROW: i32 = -4;

/// One past the last row of the board.
pub const BOARD_MAX_ROW: i32 = 3;

/// Number of rows of the board.
pub const BOARD_ROWS: usize = 7;

/// Number of cells of the board: 14 columns of 7 rows.
pub const BOARD_CELLS: usize = 98;

/// A point of the playfield, in position units.
#[derive(Clone, Copy, Debug, PartialEq, Eq, Structural)]
pub struct WorldPos {
    pub x: i64,
    pub y: i64,
}

/// `v` brought into the range of `i64`.
pub open spec fn clamp_i64(v: int) -> i64 {
    if v < i64::MIN {
        i64::MIN
    } else if v > i64::MAX {
        i64::MAX
    } else {
        v as i64
    }
}

/// The centre of cell number `cell` along either axis: cells are 80 world
/// units wide and high.
pub open spec fn cell_centre(cell: int) -> int {
    cell * 80_000_000_000 + 40_000_000_000
}

/// The cell, along either axis, whose centre is nearest to `v`. A point just
/// between two centres goes to the cell whose number is farther from zero.
pub open spec fn nearest_cell(v: int) -> int {
    if v >= 40_000_000_000 {
        v / 80_000_000_000
    } else {
        -((80_000_000_000 - v) / 80_000_000_000)
    }
}

/// Whether `coord`, as (column, row), is a cell of the board.
pub open spec fn on_board(coord: (i32, i32)) -> bool {
    BOARD_MIN_COLUMN <= coord.0 < BOARD_MAX_COLUMN && BOARD_MIN_ROW <= coord.1 < BOARD_MAX_ROW
}

/// Where the cell `coord` is kept.
pub open spec fn cell_index(coord: (i32, i32)) -> int {
    (coord.0 - BOARD_MIN_COLUMN) * BOARD_ROWS + (coord.1 - BOARD_MIN_ROW)
}

/// The world position of the centre of `grid`, as `convert_grid_to_world`
/// gives it.
pub open spec fn grid_to_world(grid: (i32, i32)) -> WorldPos {
    WorldPos {
        x: clamp_i64(cell_centre(grid.0 as int)),
        y: clamp_i64(cell_centre(grid.1 as int)),
    }
}

/// The cell nearest to `world`, as `convert_world_to_grid` gives it.
pub open spec fn world_to_grid(world: WorldPos) -> (i32, i32) {
    (
        nearest_cell(world.x as int) as i32,
        nearest_cell(world.y as int) as i32,
    )
}

/// Brings a wide integer into the range of `i64`.
pub fn clamp_to_i64(v: i128) -> (r: i64)
    ensures
        r == clamp_i64(v as int),
{
    if v < i64::MIN as i128 {
        i64::MIN
    } else if v > i64::MAX as i128 {
        i64::MAX
    } else {
        v as i64
    }
}

/// The centre of the cell `grid` in world space. Coordinates so far out that
/// the centre leaves the range of `i64` are clamped to it.
pub fn convert_grid_to_world(grid: (i32, i32)) -> (world: WorldPos)
    ensures
        world == grid_to_world(grid),
{
    let x: i128 = grid.0 as i128 * GRID_X_SPACING as i128 + (GRID_X_SPACING / 2) as i128;
    let y: i128 = grid.1 as i128 * GRID_Y_SPACING as i128 + (GRID_Y_SPACING / 2) as i128;
    WorldPos { x: clamp_to_i64(x), y: clamp_to_i64(y) }
}

/// The cell along one axis whose centre is nearest to `v`.
fn nearest_cell_on_axis(v: i64, spacing: i64) -> (cell: i32)
    requires
        spacing == 80_000_000_000,
    ensures
        cell == nearest_cell(v as int),
{
    if v >= spacing / 2 {
        (v / spacing) as i32
    } else {
        let above: i128 = spacing as i128 - v as i128;
        -((above / spacing as i128) as i32)
    }
}

/// The cell whose centre is nearest to `world`. A point just between two
/// centres goes to the cell whose number is farther from zero.
pub fn convert_world_to_grid(world: WorldPos) -> (grid: (i32, i32))
    ensures
        grid == world_to_grid(world),
{
    let x = nearest_cell_on_axis(world.x, GRID_X_SPACING);
    let y = nearest_cell_on_axis(world.y, GRID_Y_SPACING);
    (x, y)
}

/// Whether the centre of the cell `grid` lies in the range of `i64`, so that
/// `convert_grid_to_world` gives it unclamped. Every cell of the board is
/// such a cell.
pub open spec fn centre_in_range(grid: (i32, i32)) -> bool {
    &&& -115_000_000 <= grid.0 <= 115_000_000
    &&& -115_000_000 <= grid.1 <= 115_000_000
}

/// Converting a cell to its centre and back gives the cell again, for every
/// cell whose centre is in range, and so for every cell of the board.
pub proof fn lemma_grid_round_trip(grid: (i32, i32))
    requires
        centre_in_range(grid),
    ensures
        world_to_grid(grid_to_world(grid)) == grid,
{
}

/// The centre of the cell that a position converts to lies within half a cell
/// of the position.
pub proof fn lemma_nearest_cell_is_near(v: i64)
    ensures
        -40_000_000_000 <= v - cell_centre(nearest_cell(v as int)) <= 40_000_000_000,
{
}

/// The placement grid: which tower, if any, stands on each of the board's
/// cells. A tower is named by its handle in the tower registry.
pub struct Board {
    towers: Vec<Option<usize>>,
}

impl View for Board {
    type V = Map<(i32, i32), Option<usize>>;

    closed spec fn view(&self) -> Map<(i32, i32), Option<usize>> {
        Map::new(|coord: (i32, i32)| on_board(coord), |coord: (i32, i32)| self.towers@[cell_index(coord)])
    }
}

/// What `Board::is_occupied` answers on a grid `cells`.
pub open spec fn occupied_at(cells: Map<(i32, i32), Option<usize>>, coord: (i32, i32)) -> Result<
    bool,
    GameError,
> {
    if on_board(coord) {
        Ok(cells[coord] is Some)
    } else {
        Err(GameError::OutOfBounds)
    }
}

/// What `Board::place` answers on a grid `cells`.
pub open spec fn place_outcome(cells: Map<(i32, i32), Option<usize>>, coord: (i32, i32)) -> Result<
    (),
    GameError,
> {
    if !on_board(coord) {
        Err(GameError::OutOfBounds)
    } else if cells[coord] is Some {
        Err(GameError::CellOccupied)
    } else {
        Ok(())
    }
}

/// The grid that `Board::place` leaves.
pub open spec fn after_place(
    cells: Map<(i32, i32), Option<usize>>,
    coord: (i32, i32),
    tower: usize,
) -> Map<(i32, i32), Option<usize>> {
    if place_outcome(cells, coord) is Ok {
        cells.insert(coord, Some(tower))
    } else {
        cells
    }
}

/// The grid that `Board::clear` leaves.
pub open spec fn after_clear(cells: Map<(i32, i32), Option<usize>>, coord: (i32, i32)) -> Map<
    (i32, i32),
    Option<usize>,
> {
    if on_board(coord) {
        cells.insert(coord, None)
    } else {
        cells
    }
}

/// Whether `cells` has an entry for each cell of the board and for nothing
/// else.
pub open spec fn covers_board(cells: Map<(i32, i32), Option<usize>>) -> bool {
    forall|coord: (i32, i32)| #[trigger] cells.dom().contains(coord) <==> on_board(coord)
}

impl Board {
    /// The board holds one entry for each of its 98 cells.
    pub closed spec fn wf(&self) -> bool {
        self.towers.len() == BOARD_CELLS
    }

    /// A well-formed board has an entry for every cell of the board and for
    /// no other coordinate.
    pub proof fn lemma_covers_board(&self)
        ensures
            covers_board(self@),
    {
    }

    /// Whether a tower stands on `coord`.
    pub fn is_occupied(&self, coord: (i32, i32)) -> (r: Result<bool, GameError>)
        requires
            self.wf(),
        ensures
            r == occupied_at(self@, coord),
    {
        match self.occupant(coord) {
            Ok(cell) => Ok(cell.is_some()),
            Err(e) => Err(e),
        }
    }

    /// The handle of the tower on `coord`, if one stands there.
    pub fn occupant(&self, coord: (i32, i32)) -> (r: Result<Option<usize>, GameError>)
        requires
            self.wf(),
        ensures
            on_board(coord) ==> r == Ok::<Option<usize>, GameError>(self@[coord]),
            !on_board(coord) ==> r == Err::<Option<usize>, GameError>(GameError::OutOfBounds),
    {
        if coord.0 < BOARD_MIN_COLUMN || coord.0 >= BOARD_MAX_COLUMN || coord.1 < BOARD_MIN_ROW
            || coord.1 >= BOARD_MAX_ROW {
            return Err(GameError::OutOfBounds);
        }
        let index = Self::index_of(coord);
        Ok(self.towers[index])
    }

    /// Puts the tower `tower` on the free cell `coord`.
    pub fn place(&mut self, coord: (i32, i32), tower: usize) -> (r: Result<(), GameError>)
        requires
            old(self).wf(),
        ensures
            final(self).wf(),
            r == place_outcome(old(self)@, coord),
            final(self)@ == after_place(old(self)@, coord, tower),
    {
        match self.occupant(coord) {
            Err(e) => Err(e),
            Ok(Some(_)) => Err(GameError::CellOccupied),
            Ok(None) => {
                let index = Self::index_of(coord);
                self.towers.set(index, Some(tower));
                proof {
                    Self::lemma_index_is_one_to_one();
                    assert(final(self)@ =~= old(self)@.insert(coord, Some(tower)));
                }
                Ok(())
            },
        }
    }

    /// Empties the cell `coord`. Nothing changes where the cell is empty
    /// already or `coord` is no cell of the board.
    pub fn clear(&mut self, coord: (i32, i32))
        requires
            old(self).wf(),
        ensures
            final(self).wf(),
            final(self)@ == after_clear(old(self)@, coord),
    {
        if coord.0 < BOARD_MIN_COLUMN || coord.0 >= BOARD_MAX_COLUMN || coord.1 < BOARD_MIN_ROW
            || coord.1 >= BOARD_MAX_ROW {
            return ;
        }
        let index = Self::index_of(coord);
        self.towers.set(index, None);
        proof {
            Self::lemma_index_is_one_to_one();
            assert(final(self)@ =~= old(self)@.insert(coord, None));
        }
    }

    fn index_of(coord: (i32, i32)) -> (index: usize)
        requires
            on_board(coord),
        ensures
            index == cell_index(coord),
            index < BOARD_CELLS,
    {
        let column: usize = (coord.0 - BOARD_MIN_COLUMN) as usize;
        let row: usize = (coord.1 - BOARD_MIN_ROW) as usize;
        column * BOARD_ROWS + row
    }

    proof fn lemma_index_is_one_to_one()
        ensures
            forall|a: (i32, i32), b: (i32, i32)|
                on_board(a) && on_board(b) && #[trigger] cell_index(a) == #[trigger] cell_index(b)
                    ==> a == b,
            forall|a: (i32, i32)| on_board(a) ==> 0 <= #[trigger] cell_index(a) < BOARD_CELLS,
    {
    }
}

/// A board on which every cell is empty.
pub fn generate_board() -> (board: Board)
    ensures
        board.wf(),
        forall|coord: (i32, i32)| on_board(coord) ==> board@[coord] == None::<usize>,
{
    let mut towers: Vec<Option<usize>> = Vec::new();
    let mut i: usize = 0;
    while i < BOARD_CELLS
        invariant
            i <= BOARD_CELLS,
            towers.len() == i,
            forall|k: int| 0 <= k < i ==> towers@[k] == None::<usize>,
        decreases BOARD_CELLS - i,
    {
        towers.push(None);
        i += 1;
    }
    let board = Board { towers };
    proof {
        Board::lemma_index_is_one_to_one();
    }
    board
}

/// A tower put on a cell of the board is found there at once, whether the
/// cell was free or not; a cleared cell is found empty.
pub proof fn lemma_place_then_occupied(
    cells: Map<(i32, i32), Option<usize>>,
    coord: (i32, i32),
    tower: usize,
)
    requires
        covers_board(cells),
        on_board(coord),
    ensures
        occupied_at(after_place(cells, coord, tower), coord) == Ok::<bool, GameError>(true),
        occupied_at(after_clear(cells, coord), coord) == Ok::<bool, GameError>(false),
{
}

} // verus!
