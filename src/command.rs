use vstd::prelude::*;

verus! {

broadcast use vstd::string::axiom_spec_iter, vstd::string::next_postcondition;

/// What one line of input asks for.
#[derive(Debug, Copy, Clone, PartialEq, Eq, Structural)]
pub enum Command {
    /// `q`: leave the game.
    Quit,
    /// `h`: one column to the left.
    Left,
    /// `l`: one column to the right.
    Right,
    /// `k`: one row down.
    Down,
    /// `j`: one row up.
    Up,
    /// Anything else: stay in place.
    Other,
}

/// What `str::trim` leaves of a text.
pub uninterp spec fn trimmed(s: Seq<char>) -> Seq<char>;

/// Relies on str::trim: the text without its leading and trailing white
/// space, which depends on the text alone.
#[verifier::external_body]
fn trim_line(s: &str) -> (r: &str)
    ensures
        r@ == trimmed(s@),
{
    s.trim()
}

/// The command that a trimmed line names.
pub open spec fn command_of(t: Seq<char>) -> Command {
    if t == seq!['q'] {
        Command::Quit
    } else if t == seq!['h'] {
        Command::Left
    } else if t == seq!['l'] {
        Command::Right
    } else if t == seq!['k'] {
        Command::Down
    } else if t == seq!['j'] {
        Command::Up
    } else {
        Command::Other
    }
}

impl Command {
    /// Reads an already trimmed line: a single letter among `q`, `h`, `l`,
    /// `k`, `j` names its command, every other text is `Other`.
    pub fn from_trimmed(t: &str) -> (c: Command)
        ensures
            c == command_of(t@),
    {
        let mut chars = t.chars();
        let first = chars.next();
        let second = chars.next();
        match (first, second) {
            (Some(ch), None) => {
                assert(t@ == seq![ch]);
                if ch == 'q' {
                    Command::Quit
                } else if ch == 'h' {
                    Command::Left
                } else if ch == 'l' {
                    Command::Right
                } else if ch == 'k' {
                    Command::Down
                } else if ch == 'j' {
                    Command::Up
                } else {
                    Command::Other
                }
            },
            _ => {
                assert(t@.len() != 1);
                Command::Other
            },
        }
    }

    /// Reads a line of input: white space around the letter is ignored.
    pub fn parse(line: &str) -> (c: Command)
        ensures
            c == command_of(trimmed(line@)),
    {
        let t = trim_line(line);
        Command::from_trimmed(t)
    }
}

} // verus!
