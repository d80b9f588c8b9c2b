use minefield::board::{create_map, overlay_hero, Arrive, Hero, Mine, MAPSYMBOL, MINES, ROWSCOLS};
use minefield::command::Command;
use minefield::game::{Game, Status};

fn goal(y: i32, x: i32) -> Arrive {
    Arrive { symbol: 'P', y, x }
}

/// Applies one line of input as the loop does; `None` when the loop ends
/// on `Quit`.
fn turn(g: &mut Game, line: &str) -> Option<Status> {
    let cmd = Command::parse(line);
    if g.apply_command(cmd) {
        Some(g.settle())
    } else {
        None
    }
}

#[test]
fn hero_and_mine_constructors_keep_fields() {
    let h = Hero::new('@', 3, 4);
    assert_eq!((h.symbol, h.y, h.x), ('@', 3, 4));
    let m = Mine::new('X', 7, 2);
    assert_eq!((m.symbol, m.y, m.x), ('X', 7, 2));
}

#[test]
fn fresh_map_has_goal_only() {
    let map = create_map(goal(2, 5));
    for i in 0..ROWSCOLS {
        for j in 0..ROWSCOLS {
            let expected = if i == 2 && j == 5 { 'P' } else { MAPSYMBOL };
            assert_eq!(map[i][j], expected);
        }
    }
    assert_eq!(MAPSYMBOL, '*');
}

#[test]
fn overlay_draws_hero_and_keeps_map() {
    let map = create_map(goal(9, 9));
    let shown = overlay_hero(&map, &Hero::new('@', 4, 6));
    assert_eq!(shown[4][6], '@');
    assert_eq!(shown[9][9], 'P');
    assert_eq!(shown[0][0], '*');
    assert_eq!(map[4][6], '*');
}

#[test]
fn parse_trims_and_recognizes_letters() {
    assert_eq!(Command::parse("q\n"), Command::Quit);
    assert_eq!(Command::parse("  h \r\n"), Command::Left);
    assert_eq!(Command::parse("l\n"), Command::Right);
    assert_eq!(Command::parse("k\n"), Command::Down);
    assert_eq!(Command::parse("j\n"), Command::Up);
    assert_eq!(Command::parse("z\n"), Command::Other);
    assert_eq!(Command::parse("ll\n"), Command::Other);
    assert_eq!(Command::parse("\n"), Command::Other);
    assert_eq!(Command::parse("Q\n"), Command::Other);
}

#[test]
fn from_trimmed_does_not_trim() {
    assert_eq!(Command::from_trimmed("q"), Command::Quit);
    assert_eq!(Command::from_trimmed("q\n"), Command::Other);
    assert_eq!(Command::from_trimmed(""), Command::Other);
}

#[test]
fn random_placement_stays_on_grid() {
    for _ in 0..200 {
        let a = Arrive::new();
        assert_eq!(a.symbol, 'P');
        assert!((0..10).contains(&a.y) && (0..10).contains(&a.x));
        let mines = Mine::create_mines();
        assert_eq!(mines.len(), MINES);
        for m in mines.iter() {
            assert_eq!(m.symbol, 'X');
            assert!((0..10).contains(&m.y) && (0..10).contains(&m.x));
        }
    }
}

#[test]
fn start_places_hero_top_left() {
    let g = Game::start();
    assert_eq!(g.hero, Hero::new('@', 0, 0));
    assert_eq!(g.status, Status::Playing);
    assert_eq!(g.mines.len(), 5);
    assert_eq!(g.map[g.arrive.y as usize][g.arrive.x as usize], 'P');
}

#[test]
fn win_comes_on_the_last_matching_move() {
    let mut g = Game::new(goal(9, 9), vec![]);
    for n in 0..9 {
        assert_eq!(turn(&mut g, "l\n"), Some(Status::Playing));
        assert_eq!(g.hero.x, n + 1);
    }
    for n in 0..8 {
        assert_eq!(turn(&mut g, "k\n"), Some(Status::Playing));
        assert_eq!(g.hero.y, n + 1);
    }
    assert_eq!(turn(&mut g, "k\n"), Some(Status::Won));
    assert_eq!((g.hero.y, g.hero.x), (9, 9));
    assert_eq!(g.hero.symbol, '@');
    assert_eq!(turn(&mut g, "h\n"), None);
    assert_eq!((g.hero.y, g.hero.x), (9, 9));
}

#[test]
fn moves_are_clamped_at_every_edge() {
    let mut g = Game::new(goal(5, 5), vec![]);
    assert_eq!(turn(&mut g, "h\n"), Some(Status::Playing));
    assert_eq!(turn(&mut g, "j\n"), Some(Status::Playing));
    assert_eq!((g.hero.y, g.hero.x), (0, 0));
    for _ in 0..15 {
        turn(&mut g, "l\n");
    }
    assert_eq!((g.hero.y, g.hero.x), (0, 9));
    for _ in 0..15 {
        turn(&mut g, "j\n");
        turn(&mut g, "k\n");
        turn(&mut g, "k\n");
    }
    assert_eq!((g.hero.y, g.hero.x), (9, 9));
    for _ in 0..15 {
        turn(&mut g, "h\n");
    }
    assert_eq!((g.hero.y, g.hero.x), (9, 0));
    assert_eq!(g.status, Status::Playing);
}

#[test]
fn quit_changes_nothing() {
    let mut g = Game::new(goal(5, 5), vec![Mine::new('X', 3, 3)]);
    turn(&mut g, "l\n");
    let hero = g.hero;
    let map = g.map;
    for _ in 0..3 {
        assert_eq!(turn(&mut g, "q\n"), None);
        assert_eq!(g.hero, hero);
        assert_eq!(g.map, map);
        assert_eq!(g.status, Status::Playing);
        assert_eq!(g.mines, vec![Mine::new('X', 3, 3)]);
    }
}

#[test]
fn unrecognized_command_redraws_identically() {
    let mut g = Game::new(goal(5, 5), vec![]);
    turn(&mut g, "k\n");
    let before = g.frame();
    let hero = g.hero;
    assert_eq!(turn(&mut g, "z\n"), Some(Status::Playing));
    assert_eq!(g.hero, hero);
    assert_eq!(g.frame(), before);
}

#[test]
fn stepping_on_a_mine_loses() {
    let mines = vec![Mine::new('X', 5, 5), Mine::new('M', 0, 1), Mine::new('Y', 0, 1)];
    let mut g = Game::new(goal(9, 9), mines);
    assert_eq!(turn(&mut g, "l\n"), Some(Status::Lost));
    assert_eq!(g.hero.symbol, 'M');
    assert_eq!((g.hero.y, g.hero.x), (0, 1));
    assert_eq!(g.frame()[0][1], 'M');
    assert_eq!(turn(&mut g, "l\n"), None);
    assert_eq!((g.hero.y, g.hero.x), (0, 1));
}

#[test]
fn goal_wins_over_a_mine_on_the_same_cell() {
    let mut g = Game::new(goal(1, 0), vec![Mine::new('X', 1, 0)]);
    assert_eq!(turn(&mut g, "k\n"), Some(Status::Won));
    assert_eq!(g.hero.symbol, '@');
}

#[test]
fn settle_on_a_finished_game_keeps_it() {
    let mut g = Game::new(goal(0, 1), vec![]);
    assert_eq!(turn(&mut g, "l\n"), Some(Status::Won));
    assert_eq!(g.settle(), Status::Won);
    assert_eq!(g.apply_command(Command::Down), false);
    assert_eq!((g.hero.y, g.hero.x), (0, 1));
}
