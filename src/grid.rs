use vstd::prelude::*;
use vstd::std_specs::iter::IteratorSpec;

verus! {

broadcast use {vstd::string::axiom_spec_iter, vstd::string::next_postcondition};

/// Width and height of the map, in cells.
pub const GRID_SIZE: usize = 8;

/// Number of characters in a map string.
pub const MAP_LEN: usize = 64;

/// What a map cell holds.
#[derive(Clone, Copy, Debug, PartialEq, Eq, Structural)]
pub enum Cell {
    Empty,
    Wall,
    /// A character other than '0' or '1'; it does not stop a ray.
    Invalid,
}

/// Failures of the casting entry points.
#[derive(Clone, Copy, Debug, PartialEq, Eq, Structural)]
pub enum RaycastError {
    /// The map string does not hold exactly 64 characters.
    InvalidMapSize,
    /// A ray left the grid, or marched its whole budget, without meeting a wall.
    RayEscapedBounds,
}

/// The cell that one map character stands for.
pub open spec fn cell_of_char(c: char) -> Cell {
    if c == '1' {
        Cell::Wall
    } else if c == '0' {
        Cell::Empty
    } else {
        Cell::Invalid
    }
}

/// The cells of a map string, row-major.
pub open spec fn cells_of_map(map: Seq<char>) -> Seq<Cell> {
    map.map_values(|c: char| cell_of_char(c))
}

/// Classifies one map character.
pub fn cell_from_char(c: char) -> (r: Cell)
    ensures
        r == cell_of_char(c),
{
    if c == '1' {
        Cell::Wall
    } else if c == '0' {
        Cell::Empty
    } else {
        Cell::Invalid
    }
}

/// An 8x8 grid of cells, stored row-major.
pub struct Grid {
    pub cells: Vec<Cell>,
}

impl View for Grid {
    type V = Seq<Cell>;

    open spec fn view(&self) -> Seq<Cell> {
        self.cells@
    }
}

/// The cell at (`row`, `col`) of row-major cells `g`.
pub open spec fn cell_at(g: Seq<Cell>, row: int, col: int) -> Cell {
    g[row * GRID_SIZE + col]
}

pub open spec fn in_grid(row: int, col: int) -> bool {
    0 <= row < GRID_SIZE && 0 <= col < GRID_SIZE
}

impl Grid {
    pub open spec fn wf(&self) -> bool {
        self@.len() == MAP_LEN
    }

    /// Parses a map string: '1' is a wall, '0' is empty, anything else is
    /// invalid. Fails unless the string holds exactly 64 characters.
    pub fn parse(map: &str) -> (r: Result<Grid, RaycastError>)
        ensures
            r is Ok <==> map@.len() == MAP_LEN,
            r is Err ==> r == Err::<Grid, RaycastError>(RaycastError::InvalidMapSize),
            r matches Ok(g) ==> g.wf() && g@ == cells_of_map(map@),
            r matches Ok(g) ==> forall|row: int, col: int|
                #![trigger cell_at(g@, row, col)]
                in_grid(row, col) ==> (cell_at(g@, row, col) == Cell::Wall <==> map@[row * 8
                    + col] == '1'),
    {
        let mut chars = map.chars();
        let mut cells: Vec<Cell> = Vec::new();
        let mut count: usize = 0;
        loop
            invariant
                count == cells@.len(),
                count <= MAP_LEN,
                count <= map@.len(),
                chars.remaining() == map@.skip(count as int),
                cells@ == cells_of_map(map@.take(count as int)),
            ensures
                count == map@.len(),
                count <= MAP_LEN,
                cells@ == cells_of_map(map@.take(count as int)),
            decreases map@.len() - count,
        {
            let next = chars.next();
            match next {
                None => {
                    assert(map@.skip(count as int).len() == 0);
                    break ;
                },
                Some(c) => {
                    if count == MAP_LEN {
                        return Err(RaycastError::InvalidMapSize);
                    }
                    cells.push(cell_from_char(c));
                    count = count + 1;
                    assert(map@.take(count as int) == map@.take(count - 1).push(c));
                },
            }
        }
        if count != MAP_LEN {
            return Err(RaycastError::InvalidMapSize);
        }
        assert(map@.take(count as int) =~= map@);
        Ok(Grid { cells })
    }

    /// The cell at (`row`, `col`).
    pub fn cell(&self, row: usize, col: usize) -> (r: Cell)
        requires
            self.wf(),
            in_grid(row as int, col as int),
        ensures
            r == cell_at(self@, row as int, col as int),
    {
        self.cells[row * GRID_SIZE + col]
    }
}

} // verus!
