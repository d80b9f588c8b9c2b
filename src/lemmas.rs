use crate::board::{on_grid, shown_cell, Mine};
use crate::command::Command;
use crate::game::{after_command, after_settle, after_turn, first_hit, played, Game, Status};
use vstd::prelude::*;

verus! {

/// One turn keeps the hero and the goal on the grid.
proof fn lemma_turn_keeps_wf(g: Game, c: Command)
    requires
        g.wf(),
    ensures
        after_turn(g, c).wf(),
{
    let a = after_command(g, c);
    assert(a.wf());
    assert(after_settle(a).hero.y == a.hero.y && after_settle(a).hero.x == a.hero.x);
}

/// Whatever commands the loop reads, the hero stays on the grid: every
/// step past an edge is clamped back onto it.
pub proof fn lemma_play_stays_on_grid(g: Game, cmds: Seq<Command>)
    requires
        g.wf(),
    ensures
        played(g, cmds).wf(),
        on_grid(played(g, cmds).hero.y as int),
        on_grid(played(g, cmds).hero.x as int),
    decreases cmds.len(),
{
    if cmds.len() > 0 && cmds[0] != Command::Quit && g.status == Status::Playing {
        lemma_turn_keeps_wf(g, cmds[0]);
        lemma_play_stays_on_grid(after_turn(g, cmds[0]), cmds.drop_first());
    }
}

/// `Quit` ends the loop whenever it comes and changes nothing: the game is
/// what it was before the `Quit`, whatever follows it, further `Quit`s
/// included.
pub proof fn lemma_quit_stops_unchanged(g: Game, cmds: Seq<Command>, rest: Seq<Command>)
    ensures
        after_turn(g, Command::Quit) == g,
        played(g, cmds.push(Command::Quit) + rest) == played(g, cmds),
    decreases cmds.len(),
{
    let all = cmds.push(Command::Quit) + rest;
    if cmds.len() == 0 {
        assert(all[0] == Command::Quit);
    } else {
        assert(all[0] == cmds[0]);
        assert(all.drop_first() =~= cmds.drop_first().push(Command::Quit) + rest);
        lemma_quit_stops_unchanged(after_turn(g, cmds[0]), cmds.drop_first(), rest);
    }
}

/// A move that brings the hero onto the goal wins the game, and the loop
/// reads no further command.
pub proof fn lemma_goal_wins(g: Game, c: Command, rest: Seq<Command>)
    requires
        g.status == Status::Playing,
        c != Command::Quit,
        after_command(g, c).hero.y == g.arrive.y,
        after_command(g, c).hero.x == g.arrive.x,
    ensures
        after_turn(g, c).status == Status::Won,
        after_turn(g, c).hero == after_command(g, c).hero,
        played(g, seq![c] + rest) == after_turn(g, c),
{
    let all = seq![c] + rest;
    assert(all[0] == c);
    assert(all.drop_first() =~= rest);
    assert(played(after_turn(g, c), rest) == after_turn(g, c));
}

/// A move that brings the hero onto a mine, and not onto the goal, loses
/// the game: the hero shows the symbol of the first mine on its cell, and
/// the loop reads no further command.
pub proof fn lemma_mine_loses(g: Game, c: Command, k: int, rest: Seq<Command>)
    requires
        g.status == Status::Playing,
        c != Command::Quit,
        0 <= k < g.mines@.len(),
        after_command(g, c).hero.y == g.mines@[k].y,
        after_command(g, c).hero.x == g.mines@[k].x,
        !(after_command(g, c).hero.y == g.arrive.y && after_command(g, c).hero.x == g.arrive.x),
    ensures
        first_hit(g.mines@, g.mines@[k].y, g.mines@[k].x, 0) is Some,
        after_turn(g, c).status == Status::Lost,
        after_turn(g, c).hero.symbol == g.mines@[first_hit(
            g.mines@,
            g.mines@[k].y,
            g.mines@[k].x,
            0,
        )->0].symbol,
        (forall|j: int|
            0 <= j < g.mines@.len() ==> #[trigger] g.mines@[j].symbol == g.mines@[k].symbol)
            ==> after_turn(g, c).hero.symbol == g.mines@[k].symbol,
        played(g, seq![c] + rest) == after_turn(g, c),
{
    lemma_first_hit_found(g.mines@, g.mines@[k].y, g.mines@[k].x, 0, k);
    let all = seq![c] + rest;
    assert(all[0] == c);
    assert(all.drop_first() =~= rest);
    assert(played(after_turn(g, c), rest) == after_turn(g, c));
}

/// Where some mine at or after `from` lies on `(y, x)`, the search finds
/// one, no later than it, lying on that cell.
proof fn lemma_first_hit_found(mines: Seq<Mine>, y: i32, x: i32, from: int, k: int)
    requires
        0 <= from <= k < mines.len(),
        mines[k].y == y,
        mines[k].x == x,
    ensures
        first_hit(mines, y, x, from) is Some,
        from <= first_hit(mines, y, x, from)->0 <= k,
        mines[first_hit(mines, y, x, from)->0].y == y,
        mines[first_hit(mines, y, x, from)->0].x == x,
    decreases k - from,
{
    if !(mines[from].y == y && mines[from].x == x) {
        lemma_first_hit_found(mines, y, x, from + 1, k);
    }
}

/// An unrecognized command leaves the hero where it was, so the screen is
/// drawn exactly as before.
pub proof fn lemma_other_redraws_identically(g: Game)
    ensures
        after_command(g, Command::Other).hero == g.hero,
        forall|i: int, j: int|
            on_grid(i) && on_grid(j) ==> #[trigger] shown_cell(
                after_command(g, Command::Other).map,
                after_command(g, Command::Other).hero,
                i,
                j,
            ) == shown_cell(g.map, g.hero, i, j),
{
}

} // verus!
