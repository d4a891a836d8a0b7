use vstd::prelude::*;
use vstd::string::*;

verus! {

/// A key as read from the terminal, reduced to what the navigator tells apart.
#[derive(Clone, Copy, Debug, PartialEq, Eq, Structural)]
pub enum Key {
    Char(char),
    Esc,
    Up,
    Down,
    Left,
    Right,
    Backspace,
    Other,
}

/// What the navigator does in answer to a key.
#[derive(Clone, Copy, Debug, PartialEq, Eq, Structural)]
pub enum Command {
    /// Leave the program.
    Quit,
    /// Select the entry above.
    MoveUp,
    /// Select the entry below.
    MoveDown,
    /// Open the selected directory.
    Enter,
    /// Go to the parent directory.
    Leave,
    /// Change no state; check the terminal's size and draw again if it changed.
    Refresh,
}

/// The command bound to a key: `q` or Escape quit, the up and down arrows
/// move, Enter or the right arrow open, Backspace or the left arrow go up a
/// directory; any other key only refreshes.
pub open spec fn command_of(key: Key) -> Command {
    match key {
        Key::Char('q') | Key::Esc => Command::Quit,
        Key::Up => Command::MoveUp,
        Key::Down => Command::MoveDown,
        Key::Char('\n') | Key::Right => Command::Enter,
        Key::Backspace | Key::Left => Command::Leave,
        _ => Command::Refresh,
    }
}

/// The command bound to `key`.
pub fn command_for(key: Key) -> (r: Command)
    ensures
        r == command_of(key),
{
    match key {
        Key::Char('q') | Key::Esc => Command::Quit,
        Key::Up => Command::MoveUp,
        Key::Down => Command::MoveDown,
        Key::Char('\n') | Key::Right => Command::Enter,
        Key::Backspace | Key::Left => Command::Leave,
        _ => Command::Refresh,
    }
}

/// More than one path was given on the command line.
#[derive(Clone, Copy, Debug, PartialEq, Eq, Structural)]
pub struct UsageError;

/// The starting path from the command line `args`, whose first item is the
/// program's name: the one argument after it, or `.` where there is none.
pub fn start_path(args: &Vec<String>) -> (r: Result<String, UsageError>)
    ensures
        r is Err <==> args@.len() > 2,
        args@.len() == 2 ==> (r matches Ok(p) && p@ == args@[1]@),
        args@.len() < 2 ==> (r matches Ok(p) && p@ == seq!['.']),
{
    proof {
        reveal_strlit(".");
    }
    if args.len() > 2 {
        Err(UsageError)
    } else if args.len() == 2 {
        Ok(args[1].clone())
    } else {
        Ok(String::from_str("."))
    }
}

} // verus!
