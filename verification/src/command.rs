//! How to start the language server.

use crate::paths;
use crate::paths::joined_path;
use crate::settings::{BinarySettings, BinarySettingsView};
use vstd::prelude::*;
use vstd::string::StringExecFns;

verus! {

/// Where a package manager puts the server's launcher, relative to the
/// worktree root.
pub const WORKTREE_SERVER_PATH: &'static str = "node_modules/.bin/dprint";

/// The launcher to try when nothing says where the server is.
pub const FALLBACK_SERVER_PATH: &'static str = "./node_modules/.bin/dprint";

/// The argument that makes the formatter speak the language server protocol.
pub const SERVER_ARGUMENT: &'static str = "lsp";

/// A process for the host to spawn.
#[derive(Debug, Clone, PartialEq, Eq)]
pub struct Command {
    /// The executable.
    pub command: String,
    /// Its arguments, in order.
    pub args: Vec<String>,
    /// The environment variables to set for it.
    pub env: Vec<(String, String)>,
}

/// [`Command`] as plain mathematics.
#[verifier::ext_equal]
pub struct CommandView {
    pub command: Seq<char>,
    pub args: Seq<Seq<char>>,
    pub env: Seq<(Seq<char>, Seq<char>)>,
}

impl View for Command {
    type V = CommandView;

    open spec fn view(&self) -> CommandView {
        CommandView {
            command: self.command@,
            args: self.args.deep_view(),
            env: self.env.deep_view(),
        }
    }
}

/// The arguments of a plain start of the server.
pub open spec fn standard_arguments() -> Seq<Seq<char>> {
    seq![SERVER_ARGUMENT@]
}

/// The command that a binary override asks for: its path and its arguments
/// as given, the conventional launcher and the standard arguments where it
/// leaves one out. No environment variable is set.
pub open spec fn override_command(binary: BinarySettingsView) -> CommandView {
    CommandView {
        command: match binary.path {
            Some(path) => path,
            None => WORKTREE_SERVER_PATH@,
        },
        args: match binary.arguments {
            Some(arguments) => arguments,
            None => standard_arguments(),
        },
        env: Seq::empty(),
    }
}

/// The command tried when there is neither an override nor a sign of a
/// local installation: the fallback launcher with the standard arguments.
pub open spec fn fallback_command() -> CommandView {
    CommandView {
        command: FALLBACK_SERVER_PATH@,
        args: standard_arguments(),
        env: Seq::empty(),
    }
}

/// The standard arguments, as owned strings.
fn standard_argument_list() -> (args: Vec<String>)
    ensures
        args.deep_view() == standard_arguments(),
{
    let mut args: Vec<String> = Vec::new();
    args.push(String::from_str(SERVER_ARGUMENT));
    args
}

impl Command {
    /// The command that `binary` overrides the extension's choice with.
    pub fn from_override(binary: BinarySettings) -> (command: Command)
        ensures
            command@ == override_command(binary@),
    {
        let path = match binary.path {
            Some(path) => path,
            None => String::from_str(WORKTREE_SERVER_PATH),
        };
        let args = match binary.arguments {
            Some(arguments) => arguments,
            None => standard_argument_list(),
        };
        Command { command: path, args, env: Vec::new() }
    }

    /// The command to try without any knowledge of the worktree.
    pub fn fallback() -> (command: Command)
        ensures
            command@ == fallback_command(),
    {
        Command {
            command: String::from_str(FALLBACK_SERVER_PATH),
            args: standard_argument_list(),
            env: Vec::new(),
        }
    }
}

/// A start of the server that still lacks the host's Node runtime.
#[derive(Debug, Clone, PartialEq, Eq)]
pub struct NodeLaunch {
    /// The arguments for the runtime: the launcher, then the launcher's own.
    pub args: Vec<String>,
}

/// [`NodeLaunch`] as plain mathematics.
#[verifier::ext_equal]
pub struct NodeLaunchView {
    pub args: Seq<Seq<char>>,
}

impl View for NodeLaunch {
    type V = NodeLaunchView;

    open spec fn view(&self) -> NodeLaunchView {
        NodeLaunchView { args: self.args.deep_view() }
    }
}

/// What the host's Node runtime is given to run `launcher`: the launcher
/// first, the standard arguments after it.
pub open spec fn launcher_arguments(launcher: Seq<char>) -> Seq<Seq<char>> {
    seq![launcher] + standard_arguments()
}

/// What the host's Node runtime is given to run the launcher installed in
/// the worktree rooted at `root_path`.
pub open spec fn node_arguments(root_path: Seq<char>) -> Seq<Seq<char>> {
    launcher_arguments(joined_path(root_path, WORKTREE_SERVER_PATH@))
}

/// The command of a launch through Node once the host has said where its
/// runtime is, or the host's error where it could not say.
pub open spec fn node_command(
    launch: NodeLaunchView,
    node_binary_path: Result<Seq<char>, Seq<char>>,
) -> Result<CommandView, Seq<char>> {
    match node_binary_path {
        Ok(node) => Ok(CommandView { command: node, args: launch.args, env: Seq::empty() }),
        Err(error) => Err(error),
    }
}

/// A `Result` over strings as plain mathematics.
pub open spec fn string_result_view(result: Result<String, String>) -> Result<
    Seq<char>,
    Seq<char>,
> {
    match result {
        Ok(value) => Ok(value@),
        Err(error) => Err(error@),
    }
}

/// A resolved command, or the error in its place, as plain mathematics.
pub open spec fn command_result_view(result: Result<Command, String>) -> Result<
    CommandView,
    Seq<char>,
> {
    match result {
        Ok(command) => Ok(command@),
        Err(error) => Err(error@),
    }
}

impl NodeLaunch {
    /// The launch that runs `launcher` with the standard arguments.
    pub fn new(launcher: String) -> (launch: NodeLaunch)
        ensures
            launch@.args == launcher_arguments(launcher@),
    {
        let mut args: Vec<String> = Vec::new();
        args.push(launcher);
        args.push(String::from_str(SERVER_ARGUMENT));
        NodeLaunch { args }
    }

    /// The launch of the server installed in the worktree rooted at
    /// `root_path`.
    pub fn in_worktree(root_path: &str) -> (launch: NodeLaunch)
        ensures
            launch@.args == node_arguments(root_path@),
    {
        NodeLaunch::new(paths::join(root_path, WORKTREE_SERVER_PATH))
    }

    /// Completes the launch with the host's answer about its Node runtime:
    /// the runtime becomes the executable, and a failure to find it is
    /// passed on unchanged.
    pub fn into_command(self, node_binary_path: Result<String, String>) -> (resolved: Result<
        Command,
        String,
    >)
        ensures
            command_result_view(resolved) == node_command(
                self@,
                string_result_view(node_binary_path),
            ),
    {
        match node_binary_path {
            Ok(node) => {
                let command = Command { command: node, args: self.args, env: Vec::new() };
                assert(command.env.deep_view() =~= Seq::empty());
                Ok(command)
            },
            Err(error) => Err(error),
        }
    }
}

/// How the server is started: which of the three ways applies, and what it
/// asks of the host.
#[derive(Debug, Clone, PartialEq, Eq)]
pub enum Launch {
    /// The user's settings override the binary: spawn this command.
    Override(Command),
    /// The formatter is installed in the worktree: ask for the host's Node
    /// runtime, then complete the launch with it.
    ThroughNode(NodeLaunch),
    /// Nothing is known: spawn this command and see.
    Fallback(Command),
}

/// [`Launch`] as plain mathematics.
#[verifier::ext_equal]
pub enum LaunchView {
    Override(CommandView),
    ThroughNode(NodeLaunchView),
    Fallback(CommandView),
}

impl View for Launch {
    type V = LaunchView;

    open spec fn view(&self) -> LaunchView {
        match self {
            Launch::Override(command) => LaunchView::Override(command@),
            Launch::ThroughNode(launch) => LaunchView::ThroughNode(launch@),
            Launch::Fallback(command) => LaunchView::Fallback(command@),
        }
    }
}

} // verus!
