//! What surrounds the supervisor in the desktop shell: the search path for
//! programs, the choice of directories, the setup report, the outcome of an
//! image build and the tray menu.
//!
//! The caller runs the programs and asks the shell; this module reads their
//! output and decides.

use vstd::prelude::*;
use crate::config::{below, spec_below};
use crate::envfile::{api_key_configured, spec_api_key_configured};
use crate::text::{
    equal,
    find_char,
    line_bounds,
    spec_cut,
    spec_first_index,
    spec_lines,
    spec_trim,
    to_chars,
    trim,
    trim_bounds,
};

verus! {

/// The directories that are added to the search path where the login shell
/// gives none.
pub open spec fn spec_extra_path() -> Seq<char> {
    "/opt/homebrew/bin:/opt/homebrew/sbin:/usr/local/bin:/usr/local/sbin"@
}

/// Whether a line of the login shell's output can be the search path: it is
/// not blank and holds a slash.
pub open spec fn spec_is_path_line(line: Seq<char>) -> bool {
    spec_trim(line).len() > 0 && 0 <= spec_first_index(line, '/') < line.len()
}

/// The last of `lines` that can be the search path, trimmed; empty where
/// there is none. A shell may print other lines before it.
pub open spec fn spec_last_path_line(lines: Seq<Seq<char>>) -> Seq<char>
    decreases lines.len(),
{
    if lines.len() == 0 {
        Seq::empty()
    } else if spec_is_path_line(lines.last()) {
        spec_trim(lines.last())
    } else {
        spec_last_path_line(lines.drop_last())
    }
}

/// The search path that the output of the login shell holds; empty where it
/// holds none.
pub open spec fn spec_shell_path(output: Seq<char>) -> Seq<char> {
    spec_last_path_line(spec_lines(output))
}

/// The search path without a login shell to ask: the current one, a colon,
/// and the usual directories.
pub open spec fn spec_fallback_path(current: Seq<char>) -> Seq<char> {
    current + ":"@ + spec_extra_path()
}

/// The search path to set: what the login shell printed, where it ran and
/// printed a path; else the fallback.
pub open spec fn spec_search_path(shell_output: Option<Seq<char>>, current: Seq<char>) -> Seq<
    char,
> {
    match shell_output {
        Some(output) => if spec_shell_path(output).len() > 0 {
            spec_shell_path(output)
        } else {
            spec_fallback_path(current)
        },
        None => spec_fallback_path(current),
    }
}

/// The login shell to ask: the configured one, or `/bin/zsh`.
pub fn login_shell(configured: Option<String>) -> (shell: String)
    ensures
        shell@ == match configured {
            Some(text) => text@,
            None => "/bin/zsh"@,
        },
{
    match configured {
        Some(text) => text,
        None => String::from_str("/bin/zsh"),
    }
}

/// The arguments that make an interactive login shell print its search path.
pub fn path_query() -> (args: Vec<String>)
    ensures
        args.deep_view() == seq!["-i"@, "-l"@, "-c"@, "echo $PATH"@],
{
    let mut args: Vec<String> = Vec::new();
    args.push(String::from_str("-i"));
    args.push(String::from_str("-l"));
    args.push(String::from_str("-c"));
    args.push(String::from_str("echo $PATH"));
    assert(args.deep_view() =~= seq!["-i"@, "-l"@, "-c"@, "echo $PATH"@]);
    args
}

/// The search path that `output` holds; empty where it holds none.
pub fn shell_path(output: &str) -> (path: String)
    ensures
        path@ == spec_shell_path(output@),
{
    let chars = to_chars(output);
    let bounds = line_bounds(&chars);
    let ghost lines = spec_lines(chars@);
    let mut i: usize = bounds.len();
    proof {
        assert(lines.len() == bounds.len());
        assert(lines.take(i as int) =~= lines);
    }
    while i > 0
        invariant
            i <= bounds.len(),
            chars@ == output@,
            lines == spec_lines(chars@),
            spec_cut(chars@, bounds@) == lines,
            forall|k: int|
                0 <= k < bounds.len() ==> (#[trigger] bounds@[k]).0 <= bounds@[k].1 <= chars.len(),
            spec_last_path_line(lines) == spec_last_path_line(lines.take(i as int)),
        decreases i,
    {
        let (a, b) = bounds[i - 1];
        proof {
            assert(lines.len() == bounds.len());
            assert(lines.take(i as int).drop_last() =~= lines.take(i - 1));
            assert(lines.take(i as int).last() == spec_cut(chars@, bounds@)[i - 1]);
        }
        let (ta, tb) = trim_bounds(&chars, a, b);
        let slash = find_char(&chars, a, b, '/');
        if ta < tb && slash < b {
            return String::from_str(output.substring_char(ta, tb));
        }
        i -= 1;
    }
    proof {
        assert(lines.take(0) =~= Seq::<Seq<char>>::empty());
    }
    String::new()
}

/// The search path without a login shell to ask.
pub fn fallback_path(current: &str) -> (path: String)
    ensures
        path@ == spec_fallback_path(current@),
{
    let mut path = String::from_str(current);
    path.append(":");
    path.append("/opt/homebrew/bin:/opt/homebrew/sbin:/usr/local/bin:/usr/local/sbin");
    path
}

/// The search path to set for this process. `shell_output` is what the login
/// shell printed, where it ran and ended well; `current` is the search path as
/// it stands, empty where there is none.
pub fn search_path(shell_output: Option<&str>, current: &str) -> (path: String)
    ensures
        path@ == spec_search_path(
            match shell_output {
                Some(output) => Some(output@),
                None => None,
            },
            current@,
        ),
{
    match shell_output {
        Some(output) => {
            let found = shell_path(output);
            if found.as_str().is_empty() {
                fallback_path(current)
            } else {
                found
            }
        },
        None => fallback_path(current),
    }
}

/// Where a directory of the installation is taken from.
#[derive(Debug)]
pub enum DirectorySource {
    /// From the environment, which names it.
    Configured(String),
    /// From the packaged application.
    Packaged,
    /// From the source tree: two levels above the manifest directory.
    SourceTree,
}

/// Where the bundle directory, or the user's data directory, is taken from:
/// from the environment where it names one, else from the package in a
/// release build and from the source tree in a development build.
pub fn directory_source(configured: Option<String>, release_build: bool) -> (source:
    DirectorySource)
    ensures
        source == match configured {
            Some(dir) => DirectorySource::Configured(dir),
            None => if release_build {
                DirectorySource::Packaged
            } else {
                DirectorySource::SourceTree
            },
        },
{
    match configured {
        Some(dir) => DirectorySource::Configured(dir),
        None => if release_build {
            DirectorySource::Packaged
        } else {
            DirectorySource::SourceTree
        },
    }
}

/// The directories that are made below the user's data directory at startup.
pub fn data_subdirectories() -> (names: Vec<String>)
    ensures
        names.deep_view() == seq!["store"@, "data"@, "groups"@],
{
    let mut names: Vec<String> = Vec::new();
    names.push(String::from_str("store"));
    names.push(String::from_str("data"));
    names.push(String::from_str("groups"));
    assert(names.deep_view() =~= seq!["store"@, "data"@, "groups"@]);
    names
}

/// What the setup screen shows.
#[derive(Debug)]
pub struct SetupStatus {
    /// Whether the runtime answered the question for its version.
    pub node_installed: bool,
    /// The version it gave; empty where it did not answer.
    pub node_version: String,
    /// Whether the container runtime answers.
    pub docker_running: bool,
    /// Whether the agent's image is built.
    pub container_image_built: bool,
    /// Whether the settings hold the credentials of a model.
    pub api_key_configured: bool,
    /// The user's data directory.
    pub user_data_dir: String,
}

/// The setup report. `node_version_output` is what the runtime printed when
/// asked for its version, where it ran and ended well.
pub fn check_setup(
    node_version_output: Option<&str>,
    docker_running: bool,
    container_image_built: bool,
    settings: &Vec<(String, String)>,
    user_data_dir: &str,
) -> (status: SetupStatus)
    ensures
        status.node_installed == node_version_output is Some,
        status.node_version@ == match node_version_output {
            Some(output) => spec_trim(output@),
            None => Seq::<char>::empty(),
        },
        status.docker_running == docker_running,
        status.container_image_built == container_image_built,
        status.api_key_configured == spec_api_key_configured(settings.deep_view()),
        status.user_data_dir@ == user_data_dir@,
{
    let (node_installed, node_version) = match node_version_output {
        Some(output) => (true, trim(output)),
        None => (false, String::new()),
    };
    SetupStatus {
        node_installed,
        node_version,
        docker_running,
        container_image_built,
        api_key_configured: api_key_configured(settings),
        user_data_dir: String::from_str(user_data_dir),
    }
}

/// The name under which the agent's image is built and looked for.
pub open spec fn spec_image_name() -> Seq<char> {
    "nanoclaw-agent-agno:latest"@
}

/// The arguments for `docker` that tell whether the agent's image is built.
pub fn image_query() -> (args: Vec<String>)
    ensures
        args.deep_view() == seq!["image"@, "inspect"@, spec_image_name()],
{
    let mut args: Vec<String> = Vec::new();
    args.push(String::from_str("image"));
    args.push(String::from_str("inspect"));
    args.push(String::from_str("nanoclaw-agent-agno:latest"));
    assert(args.deep_view() =~= seq!["image"@, "inspect"@, spec_image_name()]);
    args
}

/// The arguments for `docker` that build the agent's image from the
/// directory in which it runs.
pub fn image_build() -> (args: Vec<String>)
    ensures
        args.deep_view() == seq!["build"@, "-t"@, spec_image_name(), "."@],
{
    let mut args: Vec<String> = Vec::new();
    args.push(String::from_str("build"));
    args.push(String::from_str("-t"));
    args.push(String::from_str("nanoclaw-agent-agno:latest"));
    args.push(String::from_str("."));
    assert(args.deep_view() =~= seq!["build"@, "-t"@, spec_image_name(), "."@]);
    args
}

/// The directory of the agent's image below the bundle directory.
pub fn container_dir(bundle_dir: &str) -> (dir: String)
    ensures
        dir@ == spec_below(bundle_dir@, "container-agno"@),
{
    below(bundle_dir, "container-agno")
}

/// How an attempt to build the agent's image went.
#[derive(Debug)]
pub enum BuildAttempt {
    /// The directory of the image, here by its path, does not exist.
    MissingDirectory(String),
    /// The build could not be run; the text says why.
    NotRun(String),
    /// The build ran and failed; the text is what it wrote to standard error.
    Failed(String),
    /// The build ran and ended well.
    Succeeded,
}

/// What the user is told about an attempt to build the agent's image.
pub open spec fn spec_build_report(attempt: BuildAttempt) -> Result<Seq<char>, Seq<char>> {
    match attempt {
        BuildAttempt::MissingDirectory(dir) => Err("Container directory not found: "@ + dir@),
        BuildAttempt::NotRun(reason) => Err("Failed to run docker build: "@ + reason@),
        BuildAttempt::Failed(stderr) => Err("Docker build failed: "@ + stderr@),
        BuildAttempt::Succeeded => Ok("Container image built successfully"@),
    }
}

/// What the user is told about an attempt to build the agent's image.
pub fn build_report(attempt: &BuildAttempt) -> (report: Result<String, String>)
    ensures
        match spec_build_report(*attempt) {
            Ok(text) => report matches Ok(told) && told@ == text,
            Err(text) => report matches Err(told) && told@ == text,
        },
{
    match attempt {
        BuildAttempt::MissingDirectory(dir) => {
            let mut told = String::from_str("Container directory not found: ");
            told.append(dir.as_str());
            Err(told)
        },
        BuildAttempt::NotRun(reason) => {
            let mut told = String::from_str("Failed to run docker build: ");
            told.append(reason.as_str());
            Err(told)
        },
        BuildAttempt::Failed(stderr) => {
            let mut told = String::from_str("Docker build failed: ");
            told.append(stderr.as_str());
            Err(told)
        },
        BuildAttempt::Succeeded => Ok(String::from_str("Container image built successfully")),
    }
}

/// What an item of the tray menu asks for.
#[derive(Clone, Copy, Debug, PartialEq, Eq, Structural)]
pub enum MenuAction {
    /// Bring the main window forward.
    OpenWindow,
    /// Shut the backend down and spawn it again.
    RestartBackend,
    /// Leave the application.
    Quit,
    /// Nothing: the item is not one of the menu's.
    Ignore,
}

/// What the menu item with identifier `id` asks for.
pub open spec fn spec_menu_action(id: Seq<char>) -> MenuAction {
    if id == "open"@ {
        MenuAction::OpenWindow
    } else if id == "restart"@ {
        MenuAction::RestartBackend
    } else if id == "quit"@ {
        MenuAction::Quit
    } else {
        MenuAction::Ignore
    }
}

/// What the menu item with identifier `id` asks for.
pub fn menu_action(id: &str) -> (action: MenuAction)
    ensures
        action == spec_menu_action(id@),
{
    if equal(id, "open") {
        MenuAction::OpenWindow
    } else if equal(id, "restart") {
        MenuAction::RestartBackend
    } else if equal(id, "quit") {
        MenuAction::Quit
    } else {
        MenuAction::Ignore
    }
}

} // verus!
