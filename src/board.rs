use crate::random::draw_below;
use vstd::prelude::*;

verus! {

/// Number of rows, and of columns, of the square grid.
pub const ROWSCOLS: usize = 10;

/// Number of mines laid at the start of a game.
pub const MINES: usize = 5;

/// Background symbol of every cell of a fresh map.
pub const MAPSYMBOL: char = '*';

/// The grid as it is stored: rows of cells.
pub type Grid = [[char; ROWSCOLS]; ROWSCOLS];

/// A coordinate lies on the grid.
pub open spec fn on_grid(v: int) -> bool {
    0 <= v < ROWSCOLS as int
}

/// The symbol in row `i`, column `j` of a map.
pub open spec fn cell(map: Grid, i: int, j: int) -> char {
    map@[i]@[j]
}

/// The goal cell.
#[derive(Debug, Copy, Clone, PartialEq, Eq, Structural)]
pub struct Arrive {
    pub symbol: char,
    pub y: i32,
    pub x: i32,
}

/// The cell the player controls.
#[derive(Debug, Copy, Clone, PartialEq, Eq, Structural)]
pub struct Hero {
    pub symbol: char,
    pub y: i32,
    pub x: i32,
}

/// A cell that ends the game when the hero steps on it.
#[derive(Debug, Copy, Clone, PartialEq, Eq, Structural)]
pub struct Mine {
    pub symbol: char,
    pub y: i32,
    pub x: i32,
}

impl Arrive {
    /// A goal with symbol `P` in a cell drawn at random, each coordinate
    /// uniformly from the grid.
    pub fn new() -> (r: Arrive)
        ensures
            r.symbol == 'P',
            r.wf(),
    {
        let mut rng = rand::thread_rng();
        let y = draw_below(&mut rng, ROWSCOLS as i32);
        let x = draw_below(&mut rng, ROWSCOLS as i32);
        Arrive { symbol: 'P', y, x }
    }

    /// The goal lies on the grid.
    pub open spec fn wf(&self) -> bool {
        on_grid(self.y as int) && on_grid(self.x as int)
    }
}

impl Hero {
    pub fn new(symbol: char, y: i32, x: i32) -> (r: Hero)
        ensures
            r.symbol == symbol,
            r.y == y,
            r.x == x,
    {
        Hero { symbol, y, x }
    }

    /// The hero lies on the grid.
    pub open spec fn wf(&self) -> bool {
        on_grid(self.y as int) && on_grid(self.x as int)
    }

    /// The hero stands on the cell `(y, x)`.
    pub open spec fn is_at(&self, y: i32, x: i32) -> bool {
        self.y == y && self.x == x
    }
}

impl Mine {
    pub fn new(symbol: char, y: i32, x: i32) -> (r: Mine)
        ensures
            r.symbol == symbol,
            r.y == y,
            r.x == x,
    {
        Mine { symbol, y, x }
    }

    /// Lays `MINES` mines with symbol `X`, each in a cell drawn at random
    /// on its own: two mines, or a mine and the goal, may share a cell.
    pub fn create_mines() -> (mines: Vec<Mine>)
        ensures
            mines@.len() == MINES,
            forall|k: int|
                0 <= k < mines@.len() ==> (#[trigger] mines@[k]).symbol == 'X'
                    && mines@[k].wf(),
    {
        let mut rng = rand::thread_rng();
        let mut mines: Vec<Mine> = Vec::with_capacity(MINES);
        let mut n: usize = 0;
        while n < MINES
            invariant
                n <= MINES,
                mines@.len() == n,
                forall|k: int|
                    0 <= k < mines@.len() ==> (#[trigger] mines@[k]).symbol == 'X'
                        && mines@[k].wf(),
            decreases MINES - n,
        {
            let y = draw_below(&mut rng, ROWSCOLS as i32);
            let x = draw_below(&mut rng, ROWSCOLS as i32);
            mines.push(Mine::new('X', y, x));
            n = n + 1;
        }
        mines
    }

    /// The mine lies on the grid.
    pub open spec fn wf(&self) -> bool {
        on_grid(self.y as int) && on_grid(self.x as int)
    }
}

/// The map of a fresh game: background everywhere but at the goal, which
/// shows the goal's symbol.
pub open spec fn fresh_cell(arrive: Arrive, i: int, j: int) -> char {
    if i == arrive.y as int && j == arrive.x as int {
        arrive.symbol
    } else {
        MAPSYMBOL
    }
}

/// What a map shows once the hero is drawn over it.
pub open spec fn shown_cell(map: Grid, hero: Hero, i: int, j: int) -> char {
    if i == hero.y as int && j == hero.x as int {
        hero.symbol
    } else {
        cell(map, i, j)
    }
}

/// Builds the background map with the goal stamped on it.
pub fn create_map(arrive: Arrive) -> (map: Grid)
    requires
        arrive.wf(),
    ensures
        forall|i: int, j: int|
            on_grid(i) && on_grid(j) ==> #[trigger] cell(map, i, j) == fresh_cell(arrive, i, j),
{
    let mut map: Grid = [[MAPSYMBOL; ROWSCOLS]; ROWSCOLS];
    let y = arrive.y as usize;
    let x = arrive.x as usize;
    let mut row = map[y];
    row[x] = arrive.symbol;
    map[y] = row;
    map
}

/// The map with the hero drawn over it; the stored map itself is left as
/// it is.
pub fn overlay_hero(map: &Grid, hero: &Hero) -> (shown: Grid)
    requires
        hero.wf(),
    ensures
        forall|i: int, j: int|
            on_grid(i) && on_grid(j) ==> #[trigger] cell(shown, i, j) == shown_cell(*map, *hero, i, j),
{
    let mut shown: Grid = *map;
    let y = hero.y as usize;
    let x = hero.x as usize;
    let mut row = shown[y];
    row[x] = hero.symbol;
    shown[y] = row;
    shown
}

} // verus!
