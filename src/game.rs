use crate::board::{
    create_map, on_grid, overlay_hero, shown_cell, cell, fresh_cell, Arrive, Grid, Hero, Mine,
    MINES, ROWSCOLS,
};
use crate::command::Command;
use vstd::prelude::*;

verus! {

/// Where a game stands. `Won` and `Lost` are final.
#[derive(Debug, Copy, Clone, PartialEq, Eq, Structural)]
pub enum Status {
    Playing,
    Won,
    Lost,
}

/// A coordinate pulled back onto the grid.
pub open spec fn clamp_coord(v: int) -> int {
    if v < 0 {
        0
    } else if v >= ROWSCOLS as int {
        ROWSCOLS as int - 1
    } else {
        v
    }
}

/// The hero after one command: a step in its direction, clamped to the
/// grid. `Quit` and `Other` leave the hero where it is.
pub open spec fn moved(h: Hero, c: Command) -> Hero {
    match c {
        Command::Left => Hero { symbol: h.symbol, y: h.y, x: clamp_coord(h.x - 1) as i32 },
        Command::Right => Hero { symbol: h.symbol, y: h.y, x: clamp_coord(h.x + 1) as i32 },
        Command::Down => Hero { symbol: h.symbol, y: clamp_coord(h.y + 1) as i32, x: h.x },
        Command::Up => Hero { symbol: h.symbol, y: clamp_coord(h.y - 1) as i32, x: h.x },
        _ => h,
    }
}

/// Index of the first mine, from index `from` on, that lies on `(y, x)`.
pub open spec fn first_hit(mines: Seq<Mine>, y: i32, x: i32, from: int) -> Option<int>
    decreases mines.len() - from,
{
    if from < 0 || from >= mines.len() {
        None
    } else if mines[from].y == y && mines[from].x == x {
        Some(from)
    } else {
        first_hit(mines, y, x, from + 1)
    }
}

/// The state of one game: the stored map, the goal, the hero, the mines and
/// where the game stands.
pub struct Game {
    pub map: Grid,
    pub arrive: Arrive,
    pub hero: Hero,
    pub mines: Vec<Mine>,
    pub status: Status,
}

/// The game after a command is applied: while it is being played, every
/// command but `Quit` moves the hero; nothing else changes.
pub open spec fn after_command(g: Game, c: Command) -> Game {
    if g.status == Status::Playing && c != Command::Quit {
        Game { map: g.map, arrive: g.arrive, hero: moved(g.hero, c), mines: g.mines, status: g.status }
    } else {
        g
    }
}

/// The game once the hero's cell is judged: the goal wins; else the first
/// mine on that cell loses, and the hero takes that mine's symbol.
pub open spec fn after_settle(g: Game) -> Game {
    if g.status != Status::Playing {
        g
    } else if g.hero.y == g.arrive.y && g.hero.x == g.arrive.x {
        Game { map: g.map, arrive: g.arrive, hero: g.hero, mines: g.mines, status: Status::Won }
    } else {
        match first_hit(g.mines@, g.hero.y, g.hero.x, 0) {
            Some(k) => Game {
                map: g.map,
                arrive: g.arrive,
                hero: Hero { symbol: g.mines@[k].symbol, y: g.hero.y, x: g.hero.x },
                mines: g.mines,
                status: Status::Lost,
            },
            None => g,
        }
    }
}

/// One turn of the loop: `Quit` ends the loop and changes nothing; any other
/// command is applied and the result judged.
pub open spec fn after_turn(g: Game, c: Command) -> Game {
    if c == Command::Quit {
        g
    } else {
        after_settle(after_command(g, c))
    }
}

/// The game after the loop has read `cmds`: it stops reading at `Quit` and
/// once the game is won or lost.
pub open spec fn played(g: Game, cmds: Seq<Command>) -> Game
    decreases cmds.len(),
{
    if cmds.len() == 0 || cmds[0] == Command::Quit || g.status != Status::Playing {
        g
    } else {
        played(after_turn(g, cmds[0]), cmds.drop_first())
    }
}

impl Game {
    /// The hero and the goal lie on the grid.
    pub open spec fn wf(&self) -> bool {
        self.hero.wf() && self.arrive.wf()
    }

    /// A game about to be played: the hero `@` in the top left cell, the
    /// map fresh with the goal stamped on it.
    pub fn new(arrive: Arrive, mines: Vec<Mine>) -> (g: Game)
        requires
            arrive.wf(),
        ensures
            g.wf(),
            g.arrive == arrive,
            g.mines@ == mines@,
            g.hero == (Hero { symbol: '@', y: 0, x: 0 }),
            g.status == Status::Playing,
            forall|i: int, j: int|
                on_grid(i) && on_grid(j) ==> #[trigger] cell(g.map, i, j) == fresh_cell(arrive, i, j),
    {
        let map = create_map(arrive);
        Game { map, arrive, hero: Hero::new('@', 0, 0), mines, status: Status::Playing }
    }

    /// A game with the goal and the mines placed at random.
    pub fn start() -> (g: Game)
        ensures
            g.wf(),
            g.arrive.symbol == 'P',
            g.mines@.len() == MINES,
            forall|k: int|
                0 <= k < g.mines@.len() ==> (#[trigger] g.mines@[k]).symbol == 'X'
                    && g.mines@[k].wf(),
            g.hero == (Hero { symbol: '@', y: 0, x: 0 }),
            g.status == Status::Playing,
            forall|i: int, j: int|
                on_grid(i) && on_grid(j) ==> #[trigger] cell(g.map, i, j) == fresh_cell(
                    g.arrive,
                    i,
                    j,
                ),
    {
        let arrive = Arrive::new();
        let mines = Mine::create_mines();
        Game::new(arrive, mines)
    }

    /// What the screen shows: the stored map with the hero drawn over it.
    pub fn frame(&self) -> (shown: Grid)
        requires
            self.wf(),
        ensures
            forall|i: int, j: int|
                on_grid(i) && on_grid(j) ==> #[trigger] cell(shown, i, j) == shown_cell(
                    self.map,
                    self.hero,
                    i,
                    j,
                ),
    {
        overlay_hero(&self.map, &self.hero)
    }

    /// Applies one command. Returns whether the loop goes on: not on `Quit`,
    /// nor once the game is over, and then nothing changes.
    pub fn apply_command(&mut self, cmd: Command) -> (go_on: bool)
        requires
            old(self).wf(),
        ensures
            final(self).wf(),
            go_on == (old(self).status == Status::Playing && cmd != Command::Quit),
            *final(self) == after_command(*old(self), cmd),
    {
        if self.status != Status::Playing {
            return false;
        }
        let last: i32 = ROWSCOLS as i32 - 1;
        match cmd {
            Command::Quit => {
                return false;
            },
            Command::Right => {
                let x = self.hero.x + 1;
                self.hero.x = if x > last { last } else { x };
            },
            Command::Left => {
                let x = self.hero.x - 1;
                self.hero.x = if x < 0 { 0 } else { x };
            },
            Command::Down => {
                let y = self.hero.y + 1;
                self.hero.y = if y > last { last } else { y };
            },
            Command::Up => {
                let y = self.hero.y - 1;
                self.hero.y = if y < 0 { 0 } else { y };
            },
            Command::Other => {},
        }
        true
    }

    /// Judges the hero's cell after a move: on the goal the game is won; on
    /// a mine it is lost and the hero shows the first such mine's symbol;
    /// else play goes on. A game that is over stays as it is.
    pub fn settle(&mut self) -> (s: Status)
        requires
            old(self).wf(),
        ensures
            final(self).wf(),
            *final(self) == after_settle(*old(self)),
            s == final(self).status,
    {
        if self.status != Status::Playing {
            return self.status;
        }
        if self.hero.y == self.arrive.y && self.hero.x == self.arrive.x {
            self.status = Status::Won;
            return Status::Won;
        }
        let y = self.hero.y;
        let x = self.hero.x;
        let n = self.mines.len();
        let mut i: usize = 0;
        while i < n
            invariant
                n == self.mines@.len(),
                i <= n,
                y == self.hero.y,
                x == self.hero.x,
                self.status == Status::Playing,
                *self == *old(self),
                self.wf(),
                !(y == self.arrive.y && x == self.arrive.x),
                first_hit(self.mines@, y, x, 0) == first_hit(self.mines@, y, x, i as int),
            decreases n - i,
        {
            let m = self.mines[i];
            if m.y == y && m.x == x {
                self.hero.symbol = m.symbol;
                self.status = Status::Lost;
                return Status::Lost;
            }
            i = i + 1;
        }
        Status::Playing
    }
}

} // verus!
