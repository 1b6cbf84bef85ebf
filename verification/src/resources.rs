//! Where the bundled tool binaries are found.
//!
//! The packaged application ships three external tools below its resource
//! root, in the directory `resources`. Resolving them is pure path
//! construction: the root is joined with the directory and the file name, by
//! the separator of the target. Nothing here looks at the disk, and whether a
//! file exists is for the sidecar to find out when it starts.

use vstd::prelude::*;
use crate::error::StartupError;

verus! {

/// The kind of system the application is built for.
#[derive(Clone, Copy, Debug, PartialEq, Eq, Structural)]
pub enum Target {
    /// Any system on which executables carry no file extension.
    Posix,
    /// Windows, where executables end in `.exe`.
    Windows,
}

impl Target {
    /// The character that the target puts between the components of a path.
    pub open spec fn separator(self) -> char {
        match self {
            Target::Posix => '/',
            Target::Windows => '\\',
        }
    }

    /// Whether the target reads a character as a separator of components.
    /// Windows reads `/` as one too.
    pub open spec fn separates(self, c: char) -> bool {
        c == '/' || (self == Target::Windows && c == '\\')
    }

    /// The separator of the target, as text.
    pub fn separator_text(&self) -> (text: &'static str)
        ensures
            text@ == seq![self.separator()],
    {
        proof {
            reveal_strlit("/");
            reveal_strlit("\\");
        }
        match self {
            Target::Posix => "/",
            Target::Windows => "\\",
        }
    }

    /// Whether the target reads a character as a separator of components.
    pub fn is_separator(&self, c: char) -> (separates: bool)
        ensures
            separates == self.separates(c),
    {
        match self {
            Target::Posix => c == '/',
            Target::Windows => c == '/' || c == '\\',
        }
    }

    /// What follows a tool's name in the name of its executable file.
    pub open spec fn suffix(self) -> Seq<char> {
        match self {
            Target::Posix => Seq::empty(),
            Target::Windows => ".exe"@,
        }
    }

    /// What follows a tool's name in the name of its executable file.
    pub fn executable_suffix(&self) -> (text: &'static str)
        ensures
            text@ == self.suffix(),
    {
        match self {
            Target::Posix => {
                proof {
                    reveal_strlit("");
                }
                ""
            },
            Target::Windows => ".exe",
        }
    }
}

/// The external tools that the sidecar depends on.
#[derive(Clone, Copy, Debug, PartialEq, Eq, Structural)]
pub enum Tool {
    Ffmpeg,
    Ffprobe,
    Img2webp,
}

impl Tool {
    /// The tool's logical name, which is also the stem of its file name.
    pub open spec fn name(self) -> Seq<char> {
        match self {
            Tool::Ffmpeg => "ffmpeg"@,
            Tool::Ffprobe => "ffprobe"@,
            Tool::Img2webp => "img2webp"@,
        }
    }

    /// The tool's logical name, which is also the stem of its file name.
    pub fn file_stem(&self) -> (text: &'static str)
        ensures
            text@ == self.name(),
    {
        match self {
            Tool::Ffmpeg => "ffmpeg",
            Tool::Ffprobe => "ffprobe",
            Tool::Img2webp => "img2webp",
        }
    }
}

/// A path with one more component. The target's separator is put between the
/// two, unless the base is empty or ends in a separator already.
pub open spec fn joined(base: Seq<char>, part: Seq<char>, target: Target) -> Seq<char> {
    if base.len() == 0 || target.separates(base.last()) {
        base + part
    } else {
        base + seq![target.separator()] + part
    }
}

/// The name of a tool's executable file: the tool's name, then the target's
/// suffix.
pub open spec fn file_name(tool: Tool, target: Target) -> Seq<char> {
    tool.name() + target.suffix()
}

/// The directory that holds the tools: `resources`, below the resource root.
pub open spec fn tools_dir(root: Seq<char>, target: Target) -> Seq<char> {
    joined(root, "resources"@, target)
}

/// The path of a tool's executable below a resource root: the root, joined
/// with `resources`, joined with the tool's file name.
pub open spec fn resource_path(root: Seq<char>, tool: Tool, target: Target) -> Seq<char> {
    joined(tools_dir(root, target), file_name(tool, target), target)
}

/// The view of a [`ResourceBundle`]: the path of each tool.
pub struct ResourcePaths {
    pub ffmpeg: Seq<char>,
    pub ffprobe: Seq<char>,
    pub img2webp: Seq<char>,
}

impl ResourcePaths {
    /// The path that the bundle holds for a tool.
    pub open spec fn path(self, tool: Tool) -> Seq<char> {
        match tool {
            Tool::Ffmpeg => self.ffmpeg,
            Tool::Ffprobe => self.ffprobe,
            Tool::Img2webp => self.img2webp,
        }
    }
}

/// The paths of all three tools below a resource root.
pub open spec fn bundled_paths(root: Seq<char>, target: Target) -> ResourcePaths {
    ResourcePaths {
        ffmpeg: resource_path(root, Tool::Ffmpeg, target),
        ffprobe: resource_path(root, Tool::Ffprobe, target),
        img2webp: resource_path(root, Tool::Img2webp, target),
    }
}

/// The resolved location of every tool: one path for each [`Tool`].
#[derive(Clone, Debug, PartialEq, Eq)]
pub struct ResourceBundle {
    pub ffmpeg: String,
    pub ffprobe: String,
    pub img2webp: String,
}

impl View for ResourceBundle {
    type V = ResourcePaths;

    open spec fn view(&self) -> ResourcePaths {
        ResourcePaths { ffmpeg: self.ffmpeg@, ffprobe: self.ffprobe@, img2webp: self.img2webp@ }
    }
}

impl ResourceBundle {
    /// The path that was resolved for a tool.
    pub fn path(&self, tool: Tool) -> (path: &str)
        ensures
            path@ == self@.path(tool),
    {
        match tool {
            Tool::Ffmpeg => self.ffmpeg.as_str(),
            Tool::Ffprobe => self.ffprobe.as_str(),
            Tool::Img2webp => self.img2webp.as_str(),
        }
    }
}

/// Adds one component to a path.
fn join(base: &str, part: &str, target: Target) -> (path: String)
    ensures
        path@ == joined(base@, part@, target),
{
    let mut path = base.to_owned();
    let len = base.unicode_len();
    if len > 0 && !target.is_separator(base.get_char(len - 1)) {
        path.append(target.separator_text());
    }
    path.append(part);
    path
}

/// Builds the path of one tool below a resource root.
fn tool_path(root: &str, tool: Tool, target: Target) -> (path: String)
    ensures
        path@ == resource_path(root@, tool, target),
{
    let dir = join(root, "resources", target);
    let mut file = tool.file_stem().to_owned();
    file.append(target.executable_suffix());
    join(dir.as_str(), file.as_str(), target)
}

/// Resolves the three tool binaries below the application's resource root.
///
/// The host supplies the resource root, or `None` where it could not resolve
/// it. Without a root there is nothing to resolve and startup fails with
/// [`StartupError::ResourceRootUnresolved`]; with one, resolution always
/// succeeds.
pub fn resolve_binaries(resource_root: Option<&str>, target: Target) -> (resolved: Result<
    ResourceBundle,
    StartupError,
>)
    ensures
        match resource_root {
            Some(root) => resolved matches Ok(bundle) && bundle@ == bundled_paths(root@, target),
            None => resolved matches Err(e) && e == StartupError::ResourceRootUnresolved,
        },
{
    match resource_root {
        Some(root) => Ok(
            ResourceBundle {
                ffmpeg: tool_path(root, Tool::Ffmpeg, target),
                ffprobe: tool_path(root, Tool::Ffprobe, target),
                img2webp: tool_path(root, Tool::Img2webp, target),
            },
        ),
        None => Err(StartupError::ResourceRootUnresolved),
    }
}

/// The layout of the resolved paths. For every resource root, target and
/// tool, the resolved path is the root joined with `resources` and then with
/// the tool's name plus the target's suffix. The suffix is empty on every
/// target but Windows, where it is not. The file name always follows the
/// directory after one separator. Below a root that is not empty and does
/// not end in a separator, the path is the root, the separator, `resources`,
/// the separator and the file name, and nothing else. The paths depend on the
/// root and the target alone.
pub proof fn resolved_paths_follow_layout(root: Seq<char>, target: Target, tool: Tool)
    ensures
        bundled_paths(root, target).path(tool) == joined(
            joined(root, "resources"@, target),
            tool.name() + target.suffix(),
            target,
        ),
        target == Target::Windows <==> target.suffix().len() > 0,
        bundled_paths(root, target).path(tool) == tools_dir(root, target) + seq![
            target.separator(),
        ] + tool.name() + target.suffix(),
        root.len() > 0 && !target.separates(root.last()) ==> bundled_paths(root, target).path(
            tool,
        ) == root + seq![target.separator()] + "resources"@ + seq![target.separator()]
            + tool.name() + target.suffix(),
        root.len() > 0 && !target.separates(root.last()) && target == Target::Posix
            ==> bundled_paths(root, target).path(tool) == root + "/resources/"@ + tool.name(),
{
    reveal_strlit(".exe");
    reveal_strlit("resources");
    reveal_strlit("/resources/");
    let dir = tools_dir(root, target);
    let path = bundled_paths(root, target).path(tool);
    // The directory ends in the `s` of `resources`, so the file name is always
    // set off by a separator.
    assert(path =~= dir + seq![target.separator()] + tool.name() + target.suffix());
    if root.len() > 0 && !target.separates(root.last()) {
        assert(path =~= root + seq![target.separator()] + "resources"@ + seq![
            target.separator(),
        ] + tool.name() + target.suffix());
        if target == Target::Posix {
            assert(path =~= root + "/resources/"@ + tool.name());
        }
    }
}

/// The file name of a tool holds no separator, so the parent of every
/// resolved path is the directory `resources` below the root.
pub proof fn file_names_are_single_components(tool: Tool, target: Target)
    ensures
        file_name(tool, target).len() > 0,
        forall|i: int|
            0 <= i < file_name(tool, target).len() ==> !target.separates(
                #[trigger] file_name(tool, target)[i],
            ),
{
    reveal_strlit(".exe");
    reveal_strlit("ffmpeg");
    reveal_strlit("ffprobe");
    reveal_strlit("img2webp");
}

/// No two tools share a path: below one root and on one target, the three
/// resolved paths are three different paths.
pub proof fn tools_have_distinct_paths(root: Seq<char>, target: Target, a: Tool, b: Tool)
    requires
        a != b,
    ensures
        bundled_paths(root, target).path(a) != bundled_paths(root, target).path(b),
{
    // The names differ in length, and so do the paths.
    reveal_strlit("ffmpeg");
    reveal_strlit("ffprobe");
    reveal_strlit("img2webp");
    assert(bundled_paths(root, target).path(a).len() != bundled_paths(root, target).path(
        b,
    ).len());
}

} // verus!
