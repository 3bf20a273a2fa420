//! What the command line can say.

use vstd::prelude::*;
use vstd::string::*;

use crate::text::texts;

verus! {

/// The arguments of one run.
#[derive(Debug, PartialEq, Eq)]
pub struct Args {
    /// The model to ask.
    pub model: Option<String>,
    /// Directories to give the model as context.
    pub include_directories: Vec<String>,
    /// The provider to use.
    pub provider: Option<String>,
    /// What to do instead of asking a question.
    pub cmd: Option<Command>,
    /// The words of the question.
    pub prompt: Vec<String>,
}

/// What a run does when it does not ask a question.
#[derive(Debug, PartialEq, Eq)]
pub enum Command {
    /// Authorize this device and save the token.
    Login,
    /// Chat in the terminal.
    Tui,
    /// Manage the tool servers, or list their tools.
    Mcp { cmd: McpCommand },
}

/// What can be done about tool servers.
#[derive(Debug, PartialEq, Eq)]
pub enum McpCommand {
    /// Add a server that is started by `command` with `args`.
    Add { name: String, command: String, args: Vec<String> },
    /// List the servers.
    List,
    /// Remove the server of this name.
    Remove { name: String },
    /// Enable the server of this name.
    Enable { name: String },
    /// Disable the server of this name.
    Disable { name: String },
    /// Print the tools of the enabled servers.
    Tools,
}

/// A [`McpCommand`] with its texts as sequences of characters.
pub enum McpCommandView {
    Add { name: Seq<char>, command: Seq<char>, args: Seq<Seq<char>> },
    List,
    Remove { name: Seq<char> },
    Enable { name: Seq<char> },
    Disable { name: Seq<char> },
    Tools,
}

impl View for McpCommand {
    type V = McpCommandView;

    open spec fn view(&self) -> McpCommandView {
        match *self {
            McpCommand::Add { name, command, args } => McpCommandView::Add {
                name: name@,
                command: command@,
                args: texts(args@),
            },
            McpCommand::List => McpCommandView::List,
            McpCommand::Remove { name } => McpCommandView::Remove { name: name@ },
            McpCommand::Enable { name } => McpCommandView::Enable { name: name@ },
            McpCommand::Disable { name } => McpCommandView::Disable { name: name@ },
            McpCommand::Tools => McpCommandView::Tools,
        }
    }
}

} // verus!
