use vstd::prelude::*;
use crate::ui::Location;

verus! {

/// A key press, as far as the reader tells keys apart.
#[derive(Clone, Copy, PartialEq, Eq, Debug)]
pub enum KeyInput {
    Char(char),
    Up,
    Down,
    Enter,
    Esc,
    Other,
}

/// What a key press asks of the session.
#[derive(Clone, Copy, PartialEq, Eq, Debug)]
pub enum Command {
    Quit,
    SelectNext,
    SelectPrev,
    OpenSelected,
    ToggleSeen,
    Archive,
    MoveTo(Location),
    SwitchTo(Location),
    NextPage,
    PreviousPage,
    CloseReader,
    ScrollDown,
    ScrollUp,
    Nothing,
}

/// The command of a key in the list; `q` and Esc quit, as in the reader
/// they go back to the list.
pub open spec fn spec_list_command(key: KeyInput) -> Command {
    match key {
        KeyInput::Char('q') | KeyInput::Esc => Command::Quit,
        KeyInput::Char('j') | KeyInput::Down => Command::SelectNext,
        KeyInput::Char('k') | KeyInput::Up => Command::SelectPrev,
        KeyInput::Enter => Command::OpenSelected,
        KeyInput::Char('m') => Command::ToggleSeen,
        KeyInput::Char('a') => Command::Archive,
        KeyInput::Char('i') => Command::MoveTo(Location::New),
        KeyInput::Char('l') => Command::MoveTo(Location::Later),
        KeyInput::Char('1') => Command::SwitchTo(Location::New),
        KeyInput::Char('2') => Command::SwitchTo(Location::Later),
        KeyInput::Char('3') => Command::SwitchTo(Location::Archive),
        KeyInput::Char('4') => Command::SwitchTo(Location::Feed),
        KeyInput::Char('n') => Command::NextPage,
        KeyInput::Char('p') => Command::PreviousPage,
        _ => Command::Nothing,
    }
}

/// The command of a key in the reader.
pub open spec fn spec_reader_command(key: KeyInput) -> Command {
    match key {
        KeyInput::Esc | KeyInput::Char('q') => Command::CloseReader,
        KeyInput::Char('j') | KeyInput::Down => Command::ScrollDown,
        KeyInput::Char('k') | KeyInput::Up => Command::ScrollUp,
        KeyInput::Char('m') => Command::ToggleSeen,
        KeyInput::Char('a') => Command::Archive,
        KeyInput::Char('i') => Command::MoveTo(Location::New),
        KeyInput::Char('l') => Command::MoveTo(Location::Later),
        _ => Command::Nothing,
    }
}

/// The command a key press asks for, in the reader or in the list.
pub fn command_for(in_reader: bool, key: KeyInput) -> (c: Command)
    ensures
        c == (if in_reader { spec_reader_command(key) } else { spec_list_command(key) }),
        !in_reader && (key == KeyInput::Char('j') || key == KeyInput::Down) ==> c == Command::SelectNext,
        !in_reader && (key == KeyInput::Char('k') || key == KeyInput::Up) ==> c == Command::SelectPrev,
        in_reader && (key == KeyInput::Char('j') || key == KeyInput::Down) ==> c == Command::ScrollDown,
        in_reader && (key == KeyInput::Char('k') || key == KeyInput::Up) ==> c == Command::ScrollUp,
{
    if in_reader {
        match key {
            KeyInput::Esc | KeyInput::Char('q') => Command::CloseReader,
            KeyInput::Char('j') | KeyInput::Down => Command::ScrollDown,
            KeyInput::Char('k') | KeyInput::Up => Command::ScrollUp,
            KeyInput::Char('m') => Command::ToggleSeen,
            KeyInput::Char('a') => Command::Archive,
            KeyInput::Char('i') => Command::MoveTo(Location::New),
            KeyInput::Char('l') => Command::MoveTo(Location::Later),
            _ => Command::Nothing,
        }
    } else {
        match key {
            KeyInput::Char('q') | KeyInput::Esc => Command::Quit,
            KeyInput::Char('j') | KeyInput::Down => Command::SelectNext,
            KeyInput::Char('k') | KeyInput::Up => Command::SelectPrev,
            KeyInput::Enter => Command::OpenSelected,
            KeyInput::Char('m') => Command::ToggleSeen,
            KeyInput::Char('a') => Command::Archive,
            KeyInput::Char('i') => Command::MoveTo(Location::New),
            KeyInput::Char('l') => Command::MoveTo(Location::Later),
            KeyInput::Char('1') => Command::SwitchTo(Location::New),
            KeyInput::Char('2') => Command::SwitchTo(Location::Later),
            KeyInput::Char('3') => Command::SwitchTo(Location::Archive),
            KeyInput::Char('4') => Command::SwitchTo(Location::Feed),
            KeyInput::Char('n') => Command::NextPage,
            KeyInput::Char('p') => Command::PreviousPage,
            _ => Command::Nothing,
        }
    }
}


/// The letter keys move like the arrow keys: in the list `j` asks for the
/// same command as Down, moving the selection to the next row, and `k` the
/// same as Up, moving it to the row before; in the reader `j` scrolls down
/// like Down and `k` scrolls up like Up. The two letters never ask for the
/// same command.
pub proof fn law_letter_keys_match_arrows()
    ensures
        spec_list_command(KeyInput::Char('j')) == spec_list_command(KeyInput::Down),
        spec_list_command(KeyInput::Char('k')) == spec_list_command(KeyInput::Up),
        spec_list_command(KeyInput::Down) == Command::SelectNext,
        spec_list_command(KeyInput::Up) == Command::SelectPrev,
        spec_reader_command(KeyInput::Char('j')) == spec_reader_command(KeyInput::Down),
        spec_reader_command(KeyInput::Char('k')) == spec_reader_command(KeyInput::Up),
        spec_reader_command(KeyInput::Down) == Command::ScrollDown,
        spec_reader_command(KeyInput::Up) == Command::ScrollUp,
        spec_list_command(KeyInput::Char('j')) != spec_list_command(KeyInput::Char('k')),
        spec_reader_command(KeyInput::Char('j')) != spec_reader_command(KeyInput::Char('k')),
{
}

} // verus!
