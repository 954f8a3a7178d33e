//! The commands the program accepts, and how the shortcut forms expand.
//! Reading them from the command line happens outside this library.

use vstd::prelude::*;
use vstd::string::*;

verus! {

/// Working directory a dispatcher started by its shortcut uses.
pub open spec fn default_workdir() -> Seq<char> {
    "./tasks"@
}

/// One command.
#[derive(Debug)]
pub enum Command {
    /// Run as dispatcher.
    Dispatcher { bind: String, port: u16, workdir: String, ui: bool },
    /// Run as worker.
    Worker { name: String, allow_shell: bool, max_jobs: usize, dispatcher: Option<Vec<String>> },
    /// Shortcut for a dispatcher with the default working directory.
    D { bind: String, port: u16, ui: bool },
    /// Shortcut for a worker that may run shell commands.
    W { name: String, max_jobs: usize },
}

/// The command line, as parsed.
#[derive(Debug)]
pub struct Cli {
    pub command: Option<Command>,
}

impl Cli {
    /// The command to run, with shortcuts expanded: `D` becomes a dispatcher
    /// working in `./tasks`, `W` a worker that may run shell commands and
    /// names no dispatcher. `None` when no command was given.
    pub fn into_command(self) -> (r: Option<Command>)
        ensures
            self.command is None <==> r is None,
            match self.command {
                Some(Command::D { bind, port, ui }) => r matches Some(
                    Command::Dispatcher { bind: b, port: p, workdir: w, ui: u },
                ) && b == bind && p == port && w@ == default_workdir() && u == ui,
                Some(Command::W { name, max_jobs }) => r matches Some(
                    Command::Worker { name: n, allow_shell: a, max_jobs: m, dispatcher: d },
                ) && n == name && a && m == max_jobs && d is None,
                Some(c) => r == Some(c),
                None => true,
            },
    {
        match self.command {
            Some(Command::D { bind, port, ui }) => Some(
                Command::Dispatcher { bind, port, workdir: String::from_str("./tasks"), ui },
            ),
            Some(Command::W { name, max_jobs }) => Some(
                Command::Worker { name, allow_shell: true, max_jobs, dispatcher: None },
            ),
            other => other,
        }
    }
}

} // verus!
