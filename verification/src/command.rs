//! Commands to run on remote machines, parametrized by the index of the
//! machine they run on.

use crate::text::{contains, occurs_in, path_text, path_to_string};
use std::path::PathBuf;
use vstd::prelude::*;

verus! {

/// The status of a command running in the background.
#[derive(Clone, Copy, Debug, PartialEq, Eq, Structural)]
pub enum CommandStatus {
    Running,
    Terminated,
}

/// The command to execute on all specified remote machines.
#[derive(Clone)]
pub struct SshCommand<C: Fn(usize) -> String> {
    /// The shell command to execute, parametrized by instance index.
    pub command: C,
    /// Whether to run the command in the background (and return immediately). Commands
    /// running in the background are identified by a unique id.
    pub background: Option<String>,
    /// The path from where to execute the command.
    pub path: Option<PathBuf>,
    /// The log file to redirect all stdout and stderr.
    pub log_file: Option<PathBuf>,
}

/// A command with both of its output streams copied to a log file, while
/// they stay visible to the caller.
pub open spec fn logged(command: Seq<char>, log_file: Seq<char>) -> Seq<char> {
    command + " |& tee "@ + log_file
}

/// A command started detached, in a terminal session named by `id`.
pub open spec fn detached(command: Seq<char>, id: Seq<char>) -> Seq<char> {
    "tmux new -d -s \""@ + id + "\" \""@ + command + "\""@
}

/// A command run in a subshell that first changes into `directory`.
pub open spec fn in_directory(command: Seq<char>, directory: Seq<char>) -> Seq<char> {
    "(cd "@ + directory + " && "@ + command + ")"@
}

/// The shell command composed from a base command: first the redirection to
/// the log file, then the detached start, then the change of directory, each
/// where it is set.
pub open spec fn composed(
    base: Seq<char>,
    log_file: Option<Seq<char>>,
    background: Option<Seq<char>>,
    directory: Option<Seq<char>>,
) -> Seq<char> {
    let redirected = match log_file {
        Some(log_file) => logged(base, log_file),
        None => base,
    };
    let started = match background {
        Some(id) => detached(redirected, id),
        None => redirected,
    };
    match directory {
        Some(directory) => in_directory(started, directory),
        None => started,
    }
}

/// Wraps a command so that it runs from the directory.
pub fn run_in_directory(command: &str, directory: &PathBuf) -> (wrapped: String)
    ensures
        wrapped@ == in_directory(command@, path_text(*directory)),
{
    let mut wrapped = String::from_str("(cd ");
    wrapped.append(path_to_string(directory).as_str());
    wrapped.append(" && ");
    wrapped.append(command);
    wrapped.append(")");
    wrapped
}

impl<C: Fn(usize) -> String> SshCommand<C> {
    /// Create a new ssh command.
    pub fn new(command: C) -> (created: Self)
        ensures
            created.command == command,
            created.background is None,
            created.path is None,
            created.log_file is None,
    {
        Self { command, background: None, path: None, log_file: None }
    }

    /// Set id of the command and indicate that it should run in the background.
    pub fn run_background(self, id: String) -> (changed: Self)
        ensures
            changed.command == self.command,
            changed.background == Some(id),
            changed.path == self.path,
            changed.log_file == self.log_file,
    {
        let mut changed = self;
        changed.background = Some(id);
        changed
    }

    /// Set the path from where to execute the command.
    pub fn with_execute_from_path(self, path: PathBuf) -> (changed: Self)
        ensures
            changed.command == self.command,
            changed.background == self.background,
            changed.path == Some(path),
            changed.log_file == self.log_file,
    {
        let mut changed = self;
        changed.path = Some(path);
        changed
    }

    /// Set the log file where to redirect stdout and stderr.
    pub fn with_log_file(self, path: PathBuf) -> (changed: Self)
        ensures
            changed.command == self.command,
            changed.background == self.background,
            changed.path == self.path,
            changed.log_file == Some(path),
    {
        let mut changed = self;
        changed.log_file = Some(path);
        changed
    }

    /// The shell command that this command makes of a base command.
    pub open spec fn rendered(&self, base: Seq<char>) -> Seq<char> {
        composed(
            base,
            match self.log_file {
                Some(log_file) => Some(path_text(log_file)),
                None => None,
            },
            match self.background {
                Some(id) => Some(id@),
                None => None,
            },
            match self.path {
                Some(path) => Some(path_text(path)),
                None => None,
            },
        )
    }

    /// The status that a listing of the active background sessions shows:
    /// running if the listing holds the id of this command, terminated if it
    /// does not or if the command does not run in the background.
    pub open spec fn status_of(&self, context: Seq<char>) -> CommandStatus {
        match self.background {
            Some(id) => if occurs_in(context, id@) {
                CommandStatus::Running
            } else {
                CommandStatus::Terminated
            },
            None => CommandStatus::Terminated,
        }
    }

    /// Convert the command into a string.
    pub fn stringify(&self, index: usize) -> (text: String)
        requires
            call_requires(self.command, (index,)),
        ensures
            exists|base: String| #[trigger]
                call_ensures(self.command, (index,), base) && text@ == self.rendered(base@),
    {
        let mut text: String = (self.command)(index);
        let ghost base: String = text;
        if let Some(log_file) = &self.log_file {
            text.append(" |& tee ");
            text.append(path_to_string(log_file).as_str());
        }
        if let Some(id) = &self.background {
            let mut wrapped = String::from_str("tmux new -d -s \"");
            wrapped.append(id.as_str());
            wrapped.append("\" \"");
            wrapped.append(text.as_str());
            wrapped.append("\"");
            text = wrapped;
        }
        if let Some(path) = &self.path {
            text = run_in_directory(text.as_str(), path);
        }
        assert(call_ensures(self.command, (index,), base) && text@ == self.rendered(base@));
        text
    }

    /// Return whether a background command is still running. Returns `Terminated` if the
    /// command is not running in the background.
    pub fn status(&self, context: &str) -> (status: CommandStatus)
        ensures
            status == self.status_of(context@),
    {
        match &self.background {
            Some(id) => if contains(context, id.as_str()) {
                CommandStatus::Running
            } else {
                CommandStatus::Terminated
            },
            None => CommandStatus::Terminated,
        }
    }

    /// With a log file, a background id and a working directory all set, the
    /// change of directory is outermost, the detached start is next, and the
    /// redirection to the log file is innermost.
    pub proof fn lemma_rendering_order(&self, base: Seq<char>)
        requires
            self.log_file is Some,
            self.background is Some,
            self.path is Some,
        ensures
            self.rendered(base) == in_directory(
                detached(logged(base, path_text(self.log_file->0)), self.background->0@),
                path_text(self.path->0),
            ),
    {
    }

    /// A command that does not run in the background is terminated whatever
    /// the listing holds.
    pub proof fn lemma_foreground_is_terminated(&self, context: Seq<char>)
        requires
            self.background is None,
        ensures
            self.status_of(context) == CommandStatus::Terminated,
    {
    }

    /// A command that runs in the background under an id is running exactly
    /// when the listing holds the id.
    pub proof fn lemma_running_iff_listed(&self, id: String, context: Seq<char>)
        requires
            self.background == Some(id),
        ensures
            self.status_of(context) == CommandStatus::Running <==> occurs_in(context, id@),
    {
    }
}

} // verus!
