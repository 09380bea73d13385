//! What a front end asks for, and what it says.
//!
//! A front end parses arguments or asks questions; this module decides what
//! they amount to, so that the engine never learns how a command was
//! obtained.

use crate::error::Direction;
use vstd::prelude::*;
use vstd::string::*;

verus! {

/// One thing to do to one file.
#[derive(Debug, Clone, PartialEq, Eq)]
pub enum Command {
    Compress { file: String },
    Decompress { file: String },
}

/// The mathematical content of a [`Command`].
pub ghost struct CommandView {
    pub direction: Direction,
    pub file: Seq<char>,
}

impl View for Command {
    type V = CommandView;

    open spec fn view(&self) -> CommandView {
        match self {
            Command::Compress { file } => CommandView {
                direction: Direction::Compress,
                file: file@,
            },
            Command::Decompress { file } => CommandView {
                direction: Direction::Decompress,
                file: file@,
            },
        }
    }
}

/// How the program runs: it asks, or it carries out the command it was given.
#[derive(Debug, Clone, PartialEq, Eq)]
pub enum Mode {
    Interactive,
    Run(Command),
}

/// The entries of the menu, in the order in which they are offered.
pub open spec fn menu_entry(direction: Direction) -> Seq<char> {
    match direction {
        Direction::Compress => "Compress a file"@,
        Direction::Decompress => "Decompress a file"@,
    }
}

/// The question that asks for the file of a menu entry.
pub open spec fn file_question(direction: Direction) -> Seq<char> {
    match direction {
        Direction::Compress => "Enter the file to compress"@,
        Direction::Decompress => "Enter the .gz file to decompress"@,
    }
}

/// The line that reports a finished transfer, before the output path.
pub open spec fn success_prefix(direction: Direction) -> Seq<char> {
    match direction {
        Direction::Compress => "✅ Compressed to: "@,
        Direction::Decompress => "✅ Decompressed to: "@,
    }
}

/// The menu entry at a position: compression first, decompression second.
pub open spec fn direction_at(choice: int) -> Option<Direction> {
    if choice == 0 {
        Some(Direction::Compress)
    } else if choice == 1 {
        Some(Direction::Decompress)
    } else {
        None
    }
}

impl Command {
    /// The command that does `direction` to `file`.
    pub fn new(direction: Direction, file: String) -> (c: Command)
        ensures
            c@ == (CommandView { direction, file: file@ }),
    {
        match direction {
            Direction::Compress => Command::Compress { file },
            Direction::Decompress => Command::Decompress { file },
        }
    }

    /// What to do.
    pub fn direction(&self) -> (d: Direction)
        ensures
            d == self@.direction,
    {
        match self {
            Command::Compress { .. } => Direction::Compress,
            Command::Decompress { .. } => Direction::Decompress,
        }
    }

    /// The file to do it to.
    pub fn file(&self) -> (f: &str)
        ensures
            f@ == self@.file,
    {
        match self {
            Command::Compress { file } => file.as_str(),
            Command::Decompress { file } => file.as_str(),
        }
    }
}

/// Decides how to run: interactively when that was asked for or when no
/// command was given, else by carrying out the command.
pub fn select_mode(interactive: bool, command: Option<Command>) -> (m: Mode)
    ensures
        m == (match command {
            Some(c) if !interactive => Mode::Run(c),
            _ => Mode::Interactive,
        }),
{
    match command {
        Some(c) => if interactive {
            Mode::Interactive
        } else {
            Mode::Run(c)
        },
        None => Mode::Interactive,
    }
}

/// What the menu offers at position `choice`, if anything.
pub fn choice_direction(choice: usize) -> (d: Option<Direction>)
    ensures
        d == direction_at(choice as int),
{
    if choice == 0 {
        Some(Direction::Compress)
    } else if choice == 1 {
        Some(Direction::Decompress)
    } else {
        None
    }
}

/// The title of the menu.
pub fn menu_title() -> (s: String)
    ensures
        s@ == "Choose an action"@,
{
    String::from_str("Choose an action")
}

/// The menu's entry for `direction`.
pub fn menu_item(direction: Direction) -> (s: String)
    ensures
        s@ == menu_entry(direction),
{
    match direction {
        Direction::Compress => String::from_str("Compress a file"),
        Direction::Decompress => String::from_str("Decompress a file"),
    }
}

/// The question that asks for the file to do `direction` to.
pub fn file_prompt(direction: Direction) -> (s: String)
    ensures
        s@ == file_question(direction),
{
    match direction {
        Direction::Compress => String::from_str("Enter the file to compress"),
        Direction::Decompress => String::from_str("Enter the .gz file to decompress"),
    }
}

/// The line that reports a finished transfer and where its output is.
pub fn success_message(direction: Direction, output_path: &str) -> (s: String)
    ensures
        s@ == success_prefix(direction) + output_path@,
{
    match direction {
        Direction::Compress => String::from_str("✅ Compressed to: ").concat(output_path),
        Direction::Decompress => String::from_str("✅ Decompressed to: ").concat(output_path),
    }
}

} // verus!
