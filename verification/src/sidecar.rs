//! The command that starts the sidecar.
//!
//! The sidecar is told two things. Its port arrives on the command line, as
//! `--port <port>`. The locations of the external tools arrive in the
//! environment, one variable per tool, so that the sidecar does no discovery
//! of its own.

use vstd::prelude::*;
use crate::decimal::{decimal, port_text};
use crate::error::StartupError;
use crate::resources::{bundled_paths, resolve_binaries, ResourceBundle, ResourcePaths, Target, Tool};

verus! {

/// The name under which the host finds the bundled sidecar executable.
pub open spec fn sidecar_name() -> Seq<char> {
    "Vimix-processor"@
}

/// The environment variable that tells the sidecar where a tool is.
pub open spec fn variable_name(tool: Tool) -> Seq<char> {
    match tool {
        Tool::Ffmpeg => "FFMPEG_BIN"@,
        Tool::Ffprobe => "FFPROBE_BIN"@,
        Tool::Img2webp => "IMG2WEBP_BIN"@,
    }
}

/// The environment variable that tells the sidecar where a tool is.
pub fn variable(tool: Tool) -> (name: &'static str)
    ensures
        name@ == variable_name(tool),
{
    match tool {
        Tool::Ffmpeg => "FFMPEG_BIN",
        Tool::Ffprobe => "FFPROBE_BIN",
        Tool::Img2webp => "IMG2WEBP_BIN",
    }
}

/// Each tool has a variable of its own.
pub proof fn variables_are_distinct(a: Tool, b: Tool)
    requires
        a != b,
    ensures
        variable_name(a) != variable_name(b),
{
    reveal_strlit("FFMPEG_BIN");
    reveal_strlit("FFPROBE_BIN");
    reveal_strlit("IMG2WEBP_BIN");
    assert(variable_name(a).len() != variable_name(b).len());
}

/// The arguments that hand a port to the sidecar: `--port`, then the port in
/// decimal notation.
pub open spec fn sidecar_args(port: u16) -> Seq<Seq<char>> {
    seq!["--port"@, decimal(port as nat)]
}

/// The environment that hands the tool paths to the sidecar: one variable per
/// tool, each set to that tool's path.
pub open spec fn sidecar_env(paths: ResourcePaths) -> Seq<(Seq<char>, Seq<char>)> {
    seq![
        (variable_name(Tool::Ffmpeg), paths.path(Tool::Ffmpeg)),
        (variable_name(Tool::Ffprobe), paths.path(Tool::Ffprobe)),
        (variable_name(Tool::Img2webp), paths.path(Tool::Img2webp)),
    ]
}

/// The view of a [`SidecarCommand`].
pub struct CommandView {
    pub program: Seq<char>,
    pub args: Seq<Seq<char>>,
    pub env: Seq<(Seq<char>, Seq<char>)>,
}

/// The command that starts the sidecar on a port, with the tools at the given
/// paths.
pub open spec fn command_for(port: u16, paths: ResourcePaths) -> CommandView {
    CommandView { program: sidecar_name(), args: sidecar_args(port), env: sidecar_env(paths) }
}

/// Everything the host needs to start the sidecar.
#[derive(Clone, Debug, PartialEq, Eq)]
pub struct SidecarCommand {
    /// The name of the bundled executable to start.
    pub program: String,
    /// The arguments to start it with, in order.
    pub args: Vec<String>,
    /// The environment variables to set before it is started, as pairs of
    /// name and value, in order.
    pub env: Vec<(String, String)>,
}

impl View for SidecarCommand {
    type V = CommandView;

    open spec fn view(&self) -> CommandView {
        CommandView {
            program: self.program@,
            args: self.args.deep_view(),
            env: self.env.deep_view(),
        }
    }
}

/// Prepares the command that starts the sidecar on `port`, with the tools at
/// the paths that `bundle` holds.
pub fn sidecar_command(port: u16, bundle: &ResourceBundle) -> (command: SidecarCommand)
    ensures
        command@ == command_for(port, bundle@),
{
    let mut args: Vec<String> = Vec::new();
    args.push("--port".to_owned());
    args.push(port_text(port));
    let mut env: Vec<(String, String)> = Vec::new();
    env.push((variable(Tool::Ffmpeg).to_owned(), bundle.path(Tool::Ffmpeg).to_owned()));
    env.push((variable(Tool::Ffprobe).to_owned(), bundle.path(Tool::Ffprobe).to_owned()));
    env.push((variable(Tool::Img2webp).to_owned(), bundle.path(Tool::Img2webp).to_owned()));
    let command = SidecarCommand { program: "Vimix-processor".to_owned(), args, env };
    assert(command.args.deep_view() =~= sidecar_args(port));
    assert(command.env.deep_view() =~= sidecar_env(bundle@));
    command
}

/// Prepares the start of the sidecar on `port`.
///
/// Resolves the tool binaries below the resource root and builds the command
/// that hands them, and the port, to the sidecar. The host supplies the
/// resource root, or `None` where it could not resolve it; that is the one
/// way in which this fails. Carrying the command out (setting the variables,
/// locating the executable, creating the process and keeping its handle for
/// as long as the application lives) is the host's part.
pub fn spawn_sidecar(resource_root: Option<&str>, port: u16, target: Target) -> (prepared: Result<
    SidecarCommand,
    StartupError,
>)
    ensures
        match resource_root {
            Some(root) => prepared matches Ok(command) && command@ == command_for(
                port,
                bundled_paths(root@, target),
            ),
            None => prepared matches Err(e) && e == StartupError::ResourceRootUnresolved,
        },
{
    match resolve_binaries(resource_root, target) {
        Ok(bundle) => Ok(sidecar_command(port, &bundle)),
        Err(e) => Err(e),
    }
}

} // verus!
