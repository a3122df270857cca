//! What the program is to do: the command that its arguments ask for, and
//! the choice typed at its menu.

use crate::text::chars_of;
use vstd::prelude::*;

verus! {

/// What the program's arguments ask for.
#[derive(Debug)]
pub enum Command {
    /// Test the connection to the remote server.
    TestConnection,
    /// Describe the image in the file `filename`.
    AnalyzeImage { filename: String },
    /// Generate on the local server from `prompt`.
    GenerateLocal { prompt: String },
    /// Ask the user for a prompt and generate on the local server from it.
    AskLocal,
    /// Generate on the remote server from `prompt`.
    GenerateRemote { prompt: String },
    /// Show the menu.
    Menu,
}

/// What a [`Command`] stands for.
pub enum CommandView {
    TestConnection,
    AnalyzeImage { filename: Seq<char> },
    GenerateLocal { prompt: Seq<char> },
    AskLocal,
    GenerateRemote { prompt: Seq<char> },
    Menu,
}

/// The text of an optional string.
pub open spec fn text_of(s: Option<String>) -> Option<Seq<char>> {
    match s {
        Some(s) => Some(s@),
        None => None,
    }
}

impl View for Command {
    type V = CommandView;

    open spec fn view(&self) -> CommandView {
        match self {
            Command::TestConnection => CommandView::TestConnection,
            Command::AnalyzeImage { filename } => CommandView::AnalyzeImage { filename: filename@ },
            Command::GenerateLocal { prompt } => CommandView::GenerateLocal { prompt: prompt@ },
            Command::AskLocal => CommandView::AskLocal,
            Command::GenerateRemote { prompt } => CommandView::GenerateRemote { prompt: prompt@ },
            Command::Menu => CommandView::Menu,
        }
    }
}

/// The command that a set of arguments asks for. The first of these that
/// is given decides: the connection test, an image, the local server, a
/// prompt. On the local server the user is asked for a prompt when none is
/// given. With none of the four the menu is shown.
pub open spec fn command_for(
    prompt: Option<Seq<char>>,
    test: bool,
    local: bool,
    image: Option<Seq<char>>,
) -> CommandView {
    if test {
        CommandView::TestConnection
    } else if image is Some {
        CommandView::AnalyzeImage { filename: image->0 }
    } else if local {
        match prompt {
            Some(prompt) => CommandView::GenerateLocal { prompt },
            None => CommandView::AskLocal,
        }
    } else if prompt is Some {
        CommandView::GenerateRemote { prompt: prompt->0 }
    } else {
        CommandView::Menu
    }
}

/// The command that the program's arguments ask for.
pub fn dispatch(prompt: Option<String>, test: bool, local: bool, image: Option<String>) -> (command:
    Command)
    ensures
        command@ == command_for(text_of(prompt), test, local, text_of(image)),
{
    if test {
        return Command::TestConnection;
    }
    match image {
        Some(filename) => {
            return Command::AnalyzeImage { filename };
        },
        None => {},
    }
    match prompt {
        Some(prompt) => if local {
            Command::GenerateLocal { prompt }
        } else {
            Command::GenerateRemote { prompt }
        },
        None => if local {
            Command::AskLocal
        } else {
            Command::Menu
        },
    }
}

/// An entry of the menu.
#[derive(Clone, Copy, Debug, PartialEq, Eq, Structural)]
pub enum MenuChoice {
    GenerateRemote,
    GenerateLocal,
    TestServer,
    TestLocal,
    ViewConfiguration,
    AnalyzeImage,
    Exit,
}

/// The entry that `input` names: the entries are numbered from `1` to `7`,
/// and anything but one of these digits names none.
pub open spec fn menu_choice(input: Seq<char>) -> Option<MenuChoice> {
    if input.len() != 1 {
        None
    } else if input[0] == '1' {
        Some(MenuChoice::GenerateRemote)
    } else if input[0] == '2' {
        Some(MenuChoice::GenerateLocal)
    } else if input[0] == '3' {
        Some(MenuChoice::TestServer)
    } else if input[0] == '4' {
        Some(MenuChoice::TestLocal)
    } else if input[0] == '5' {
        Some(MenuChoice::ViewConfiguration)
    } else if input[0] == '6' {
        Some(MenuChoice::AnalyzeImage)
    } else if input[0] == '7' {
        Some(MenuChoice::Exit)
    } else {
        None
    }
}

/// Reads the user's choice at the menu.
pub fn parse_menu_choice(input: &str) -> (choice: Option<MenuChoice>)
    ensures
        choice == menu_choice(input@),
{
    let chars = chars_of(input);
    if chars.len() != 1 {
        return None;
    }
    let c = chars[0];
    if c == '1' {
        Some(MenuChoice::GenerateRemote)
    } else if c == '2' {
        Some(MenuChoice::GenerateLocal)
    } else if c == '3' {
        Some(MenuChoice::TestServer)
    } else if c == '4' {
        Some(MenuChoice::TestLocal)
    } else if c == '5' {
        Some(MenuChoice::ViewConfiguration)
    } else if c == '6' {
        Some(MenuChoice::AnalyzeImage)
    } else if c == '7' {
        Some(MenuChoice::Exit)
    } else {
        None
    }
}

} // verus!
